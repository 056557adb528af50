//! What evaluation means: the outcome of every item and pipeline as a function
//! of the frame it starts from and of the replies its driver has given.
//!
//! An evaluation reads the replies in order, from a position it is given, and
//! reports the position it reached. Where it needs a reply that is not there
//! it stops with the request. An evaluation that fails or stops performs
//! nothing after that point: the position it reports is the one it stopped at.

use vstd::prelude::*;
use crate::model::{
    CtxModel, ErrorModel, ItemModel, RangeModel, ReplyModel, RequestModel, RunModel, StepModel,
    ValueModel,
};
use crate::order::{value_order, Order};
use crate::text::{
    all_alphabetic, can_pad, column_width, lowercase_of, padded_end, regex_match, title_case_of,
};

verus! {

pub open spec fn done<T>(result: T, next: nat) -> RunModel<T> {
    RunModel { step: StepModel::Done(result), next }
}

pub open spec fn failed<T>(error: ErrorModel, next: nat) -> RunModel<T> {
    RunModel { step: StepModel::Failed(error), next }
}

pub open spec fn suspended<T>(request: RequestModel, next: nat) -> RunModel<T> {
    RunModel { step: StepModel::Suspended(request), next }
}

/// The outcome of an item that needs no reply.
pub open spec fn settled(result: Result<CtxModel, ErrorModel>, at: nat) -> RunModel<CtxModel> {
    match result {
        Ok(ctx) => done(ctx, at),
        Err(error) => failed(error, at),
    }
}

/// Printing the frame's value: the frame passes through as it is once the
/// driver has answered, whatever it answered. A print never fails.
pub open spec fn perform_print(
    label: Option<Seq<char>>,
    ctx: CtxModel,
    replies: Seq<ReplyModel>,
    at: nat,
) -> RunModel<CtxModel> {
    if at >= replies.len() {
        suspended(RequestModel::Print { label, value: ctx.value }, at)
    } else {
        done(ctx, at + 1)
    }
}

/// Sending a raw query: the query is sent as the request says, the answer
/// replaces the frame's value, the connection's failure is handed on as it
/// is. A reply that is no answer to a query is a fatal failure.
pub open spec fn perform_query(
    query: ValueModel,
    ctx: CtxModel,
    replies: Seq<ReplyModel>,
    at: nat,
) -> RunModel<CtxModel> {
    if at >= replies.len() {
        suspended(RequestModel::QueryRaw { query }, at)
    } else {
        match replies[at as int] {
            ReplyModel::QueryResult(Ok(answer)) => done(ctx.with_value(answer), at + 1),
            ReplyModel::QueryResult(Err(error)) => failed(error, at + 1),
            ReplyModel::Printed => failed(ctx.fatal("queryRaw: the reply is no answer"@), at + 1),
        }
    }
}

/// `toLowerCase`: a string becomes its lowercase form.
pub open spec fn to_lower_case(ctx: CtxModel) -> Result<CtxModel, ErrorModel> {
    match ctx.value {
        ValueModel::String(s) => Ok(ctx.with_value(ValueModel::String(lowercase_of(s)))),
        _ => Err(ctx.fatal("lowercase: value is not string"@)),
    }
}

/// `toTitleCase`: a string becomes its title-case form.
pub open spec fn to_title_case(ctx: CtxModel) -> Result<CtxModel, ErrorModel> {
    match ctx.value {
        ValueModel::String(s) => Ok(ctx.with_value(ValueModel::String(title_case_of(s)))),
        _ => Err(ctx.fatal("value is not string"@)),
    }
}

/// `isAlphabetic`: a string passes if all its characters are alphabetic.
pub open spec fn is_alphabetic(ctx: CtxModel) -> Result<CtxModel, ErrorModel> {
    match ctx.value {
        ValueModel::String(s) => if all_alphabetic(s) {
            Ok(ctx)
        } else {
            Err(ctx.invalid("value is not alphabetic"@))
        },
        _ => Err(ctx.fatal("isAlphabetic: value is not string"@)),
    }
}

/// `isEmail`: a string passes if it matches the item's pattern.
pub open spec fn is_email(pattern: Seq<char>, ctx: CtxModel) -> Result<CtxModel, ErrorModel> {
    match ctx.value {
        ValueModel::String(s) => match regex_match(pattern, s) {
            Some(true) => Ok(ctx),
            Some(false) => Err(ctx.invalid("string value is not email"@)),
            None => Err(ctx.fatal("isEmail: pattern is not a regular expression"@)),
        },
        _ => Err(ctx.fatal("isEmail: value is not string"@)),
    }
}

/// `isNull`: only the null value passes.
pub open spec fn is_null(ctx: CtxModel) -> Result<CtxModel, ErrorModel> {
    match ctx.value {
        ValueModel::Null => Ok(ctx),
        _ => Err(ctx.invalid("isNull: value is not null"@)),
    }
}

/// `self`: the bound object becomes the value.
pub open spec fn ctx_self(ctx: CtxModel) -> Result<CtxModel, ErrorModel> {
    match ctx.object {
        Some(object) => Ok(ctx.with_value(ValueModel::Object(object))),
        None => Err(ctx.fatal("self: ctx object does not exist"@)),
    }
}

/// `gte`, once its argument is resolved: the value passes if it is not below
/// the argument; two values without an order are a defect of the schema.
pub open spec fn gte(rhs: ValueModel, ctx: CtxModel) -> Result<CtxModel, ErrorModel> {
    match value_order(ctx.value, rhs) {
        Some(Order::Less) => Err(ctx.invalid("gt: value is not greater than or equal to rhs"@)),
        Some(_) => Ok(ctx),
        None => Err(ctx.fatal("gte: value cannot be compared with rhs"@)),
    }
}

/// `padEnd`, once its width is resolved: a string is padded on the right with
/// the fill up to the width, counted in columns. The width is a non-negative
/// 64-bit integer within what can be padded. The string is never cut.
pub open spec fn pad_end(width: ValueModel, fill: char, ctx: CtxModel) -> Result<
    CtxModel,
    ErrorModel,
> {
    match ctx.value {
        ValueModel::String(s) => match width {
            ValueModel::I64(n) => if n >= 0 && can_pad(s.len(), n as nat) {
                Ok(
                    ctx.with_value(
                        ValueModel::String(padded_end(s, column_width(s), n as nat, fill)),
                    ),
                )
            } else {
                Err(ctx.fatal("padEnd: width is out of range"@))
            },
            _ => Err(ctx.fatal("padEnd: width is not integer"@)),
        },
        _ => Err(ctx.fatal("padEnd: value is not string"@)),
    }
}

/// `prepend`, once its argument is resolved: a string gets the argument, a
/// string too, in front; a sequence gets the argument as its first element.
pub open spec fn prepend(argument: ValueModel, ctx: CtxModel) -> Result<CtxModel, ErrorModel> {
    match ctx.value {
        ValueModel::String(s) => match argument {
            ValueModel::String(a) => Ok(ctx.with_value(ValueModel::String(a + s))),
            _ => Err(ctx.fatal("Argument does not resolve to string."@)),
        },
        ValueModel::Vec(values) => Ok(ctx.with_value(ValueModel::Vec(seq![argument] + values))),
        _ => Err(ctx.fatal("Value is not string or vector."@)),
    }
}

/// `truncate`, once its length is resolved: a string keeps its first
/// characters, a sequence its first elements, as many as the length says and
/// no more than there are. The length is a non-negative 64-bit integer.
pub open spec fn truncate(length: ValueModel, ctx: CtxModel) -> Result<CtxModel, ErrorModel> {
    match length {
        ValueModel::I64(n) => if n < 0 {
            Err(ctx.fatal("truncate: length is negative"@))
        } else {
            match ctx.value {
                ValueModel::String(s) => Ok(
                    ctx.with_value(ValueModel::String(s.take(shorter(n as int, s.len() as int)))),
                ),
                ValueModel::Vec(values) => Ok(
                    ctx.with_value(
                        ValueModel::Vec(values.take(shorter(n as int, values.len() as int))),
                    ),
                ),
                _ => Err(ctx.fatal("truncate: value is not string or vector"@)),
            }
        },
        _ => Err(ctx.fatal("truncate: length is not integer"@)),
    }
}

/// The smaller of two lengths.
pub open spec fn shorter(a: int, b: int) -> int {
    if a < b {
        a
    } else {
        b
    }
}

/// The rest of a pipeline, from item `from` on, run on a frame.
pub open spec fn process_from(
    items: Seq<ItemModel>,
    from: nat,
    ctx: CtxModel,
    replies: Seq<ReplyModel>,
    at: nat,
) -> RunModel<CtxModel>
    decreases items, 0nat, items.len() - from,
{
    if from >= items.len() {
        done(ctx, at)
    } else {
        let first = call(items[from as int], ctx, replies, at);
        match first.step {
            StepModel::Done(next_ctx) => process_from(items, from + 1, next_ctx, replies, first.next),
            StepModel::Failed(error) => failed(error, first.next),
            StepModel::Suspended(request) => suspended(request, first.next),
        }
    }
}

/// A pipeline run on a frame: its items in order, each on the frame the one
/// before it left, up to the first that fails or stops.
pub open spec fn process(
    items: Seq<ItemModel>,
    ctx: CtxModel,
    replies: Seq<ReplyModel>,
    at: nat,
) -> RunModel<CtxModel>
    decreases items, 1nat, 0nat,
{
    process_from(items, 0, ctx, replies, at)
}

/// A run of frames seen as a run of values: where it ran to its end, the value
/// of the last frame.
pub open spec fn ending_value(run: RunModel<CtxModel>) -> RunModel<ValueModel> {
    match run.step {
        StepModel::Done(last) => done(last.value, run.next),
        StepModel::Failed(error) => failed(error, run.next),
        StepModel::Suspended(request) => suspended(request, run.next),
    }
}

/// A pipeline run for the value it ends with.
pub open spec fn process_value(
    items: Seq<ItemModel>,
    ctx: CtxModel,
    replies: Seq<ReplyModel>,
    at: nat,
) -> RunModel<ValueModel>
    decreases items, 2nat, 0nat,
{
    ending_value(process(items, ctx, replies, at))
}

/// A pipeline run as a permission check: running to the end allows; a fatal
/// failure is handed on; any other failure becomes a denial at the path the
/// check started from, which says nothing of the reason.
pub open spec fn permission(
    items: Seq<ItemModel>,
    ctx: CtxModel,
    replies: Seq<ReplyModel>,
    at: nat,
) -> RunModel<()> {
    let run = process_value(items, ctx, replies, at);
    match run.step {
        StepModel::Done(_) => done((), run.next),
        StepModel::Failed(error) => if error.is_fatal() {
            failed(error, run.next)
        } else {
            failed(ErrorModel::denied(ctx.path, "permission denied"@), run.next)
        },
        StepModel::Suspended(request) => suspended(request, run.next),
    }
}

/// The values from position `from` on resolved in order and added to `resolved`.
pub open spec fn resolve_values(
    values: Seq<ValueModel>,
    from: nat,
    resolved: Seq<ValueModel>,
    ctx: CtxModel,
    replies: Seq<ReplyModel>,
    at: nat,
) -> RunModel<Seq<ValueModel>>
    decreases values, 0nat, values.len() - from,
{
    if from >= values.len() {
        done(resolved, at)
    } else {
        let first = resolve(values[from as int], ctx, replies, at);
        match first.step {
            StepModel::Done(value) => resolve_values(
                values,
                from + 1,
                resolved.push(value),
                ctx,
                replies,
                first.next,
            ),
            StepModel::Failed(error) => failed(error, first.next),
            StepModel::Suspended(request) => suspended(request, first.next),
        }
    }
}

/// The entries from position `from` on, each with its value resolved, in
/// order, added to `resolved`.
pub open spec fn resolve_entries(
    entries: Seq<(Seq<char>, ValueModel)>,
    from: nat,
    resolved: Seq<(Seq<char>, ValueModel)>,
    ctx: CtxModel,
    replies: Seq<ReplyModel>,
    at: nat,
) -> RunModel<Seq<(Seq<char>, ValueModel)>>
    decreases entries, 0nat, entries.len() - from,
{
    if from >= entries.len() {
        done(resolved, at)
    } else {
        let first = resolve(entries[from as int].1, ctx, replies, at);
        match first.step {
            StepModel::Done(value) => resolve_entries(
                entries,
                from + 1,
                resolved.push((entries[from as int].0, value)),
                ctx,
                replies,
                first.next,
            ),
            StepModel::Failed(error) => failed(error, first.next),
            StepModel::Suspended(request) => suspended(request, first.next),
        }
    }
}

/// A value resolved against a frame: a pipeline is run on the frame and stands
/// for the value it ends with; a sequence, a tuple and a dictionary have their
/// elements resolved in order, a range its start and then its end; any other
/// value stands for itself.
pub open spec fn resolve(
    value: ValueModel,
    ctx: CtxModel,
    replies: Seq<ReplyModel>,
    at: nat,
) -> RunModel<ValueModel>
    decreases value, 0nat, 0nat,
{
    match value {
        ValueModel::Pipeline(items) => process_value(items, ctx, replies, at),
        ValueModel::Vec(values) => {
            let run = resolve_values(values, 0, Seq::empty(), ctx, replies, at);
            match run.step {
                StepModel::Done(resolved) => done(ValueModel::Vec(resolved), run.next),
                StepModel::Failed(error) => failed(error, run.next),
                StepModel::Suspended(request) => suspended(request, run.next),
            }
        },
        ValueModel::Tuple(values) => {
            let run = resolve_values(values, 0, Seq::empty(), ctx, replies, at);
            match run.step {
                StepModel::Done(resolved) => done(ValueModel::Tuple(resolved), run.next),
                StepModel::Failed(error) => failed(error, run.next),
                StepModel::Suspended(request) => suspended(request, run.next),
            }
        },
        ValueModel::Dictionary(entries) => {
            let run = resolve_entries(entries, 0, Seq::empty(), ctx, replies, at);
            match run.step {
                StepModel::Done(resolved) => done(ValueModel::Dictionary(resolved), run.next),
                StepModel::Failed(error) => failed(error, run.next),
                StepModel::Suspended(request) => suspended(request, run.next),
            }
        },
        ValueModel::Range(range) => {
            let first = resolve(*range.start, ctx, replies, at);
            match first.step {
                StepModel::Done(start) => {
                    let second = resolve(*range.end, ctx, replies, first.next);
                    match second.step {
                        StepModel::Done(end) => done(
                            ValueModel::Range(
                                RangeModel {
                                    closed: range.closed,
                                    start: Box::new(start),
                                    end: Box::new(end),
                                },
                            ),
                            second.next,
                        ),
                        StepModel::Failed(error) => failed(error, second.next),
                        StepModel::Suspended(request) => suspended(request, second.next),
                    }
                },
                StepModel::Failed(error) => failed(error, first.next),
                StepModel::Suspended(request) => suspended(request, first.next),
            }
        },
        _ => done(value, at),
    }
}

/// An item that works on its resolved argument: the argument is resolved on
/// the frame, then `apply` decides.
pub open spec fn with_argument(
    argument: RunModel<ValueModel>,
    apply: spec_fn(ValueModel) -> Result<CtxModel, ErrorModel>,
) -> RunModel<CtxModel> {
    match argument.step {
        StepModel::Done(value) => settled(apply(value), argument.next),
        StepModel::Failed(error) => failed(error, argument.next),
        StepModel::Suspended(request) => suspended(request, argument.next),
    }
}

/// The branch of an `if` taken on a frame: none leaves the frame as it is, a
/// pipeline is run on the frame and its last value replaces the frame's, any
/// other value replaces it directly.
pub open spec fn take_branch(
    branch: Option<ValueModel>,
    ctx: CtxModel,
    replies: Seq<ReplyModel>,
    at: nat,
) -> RunModel<CtxModel>
    decreases branch, 0nat, 0nat,
{
    match branch {
        None => done(ctx, at),
        Some(ValueModel::Pipeline(items)) => {
            let run = process_value(items, ctx, replies, at);
            match run.step {
                StepModel::Done(value) => done(ctx.with_value(value), run.next),
                StepModel::Failed(error) => failed(error, run.next),
                StepModel::Suspended(request) => suspended(request, run.next),
            }
        },
        Some(value) => done(ctx.with_value(value), at),
    }
}

/// The condition of an `if` decided on a frame: null is false, a boolean is
/// itself, a pipeline is true if it runs to its end and false if it fails
/// without being fatal. A fatal failure of the pipeline is the outcome, and so
/// is a condition of any other variant.
pub open spec fn decide(
    cond: ValueModel,
    ctx: CtxModel,
    replies: Seq<ReplyModel>,
    at: nat,
) -> RunModel<bool>
    decreases cond, 0nat, 0nat,
{
    match cond {
        ValueModel::Null => done(false, at),
        ValueModel::Bool(b) => done(b, at),
        ValueModel::Pipeline(items) => {
            let probe = process_value(items, ctx, replies, at);
            match probe.step {
                StepModel::Done(_) => done(true, probe.next),
                StepModel::Failed(error) => if error.is_fatal() {
                    failed(error, probe.next)
                } else {
                    done(false, probe.next)
                },
                StepModel::Suspended(request) => suspended(request, probe.next),
            }
        },
        _ => failed(ctx.fatal("if: condition is not null, bool or pipeline"@), at),
    }
}

/// The elements from position `from` on filtered by a pipeline and added to
/// `kept`: each element is run through the pipeline in a frame of its own, at
/// the path of the sequence extended by its position. It is kept if the
/// pipeline runs to its end, dropped if it fails without being fatal; a fatal
/// failure ends the filtering at once.
pub open spec fn filter_from(
    items: Seq<ItemModel>,
    elements: Seq<ValueModel>,
    from: nat,
    kept: Seq<ValueModel>,
    ctx: CtxModel,
    replies: Seq<ReplyModel>,
    at: nat,
) -> RunModel<CtxModel>
    decreases items, 3nat, elements.len() - from,
{
    if from >= elements.len() {
        done(ctx.with_value(ValueModel::Vec(kept)), at)
    } else {
        let element = elements[from as int];
        let run = process_value(items, ctx.element(from, element), replies, at);
        match run.step {
            StepModel::Done(_) => filter_from(
                items,
                elements,
                from + 1,
                kept.push(element),
                ctx,
                replies,
                run.next,
            ),
            StepModel::Failed(error) => if error.is_fatal() {
                failed(error, run.next)
            } else {
                filter_from(items, elements, from + 1, kept, ctx, replies, run.next)
            },
            StepModel::Suspended(request) => suspended(request, run.next),
        }
    }
}

/// One item run on a frame.
#[verifier::opaque]
pub open spec fn call(
    item: ItemModel,
    ctx: CtxModel,
    replies: Seq<ReplyModel>,
    at: nat,
) -> RunModel<CtxModel>
    decreases item, 0nat, 0nat,
{
    match item {
        ItemModel::ToLowerCase => settled(to_lower_case(ctx), at),
        ItemModel::ToTitleCase => settled(to_title_case(ctx), at),
        ItemModel::IsAlphabetic => settled(is_alphabetic(ctx), at),
        ItemModel::IsEmail { pattern } => settled(is_email(pattern, ctx), at),
        ItemModel::IsNull => settled(is_null(ctx), at),
        ItemModel::CtxSelf => settled(ctx_self(ctx), at),
        ItemModel::QueryRaw { query } => perform_query(ctx.value, ctx, replies, at),
        ItemModel::Gte { argument } => with_argument(
            resolve(argument, ctx, replies, at),
            |rhs: ValueModel| gte(rhs, ctx),
        ),
        ItemModel::Prepend { argument } => with_argument(
            resolve(argument, ctx, replies, at),
            |value: ValueModel| prepend(value, ctx),
        ),
        ItemModel::Truncate { argument } => with_argument(
            resolve(argument, ctx, replies, at),
            |length: ValueModel| truncate(length, ctx),
        ),
        ItemModel::PadEnd { width, fill } => match ctx.value {
            ValueModel::String(_) => with_argument(
                resolve(width, ctx, replies, at),
                |value: ValueModel| pad_end(value, fill, ctx),
            ),
            _ => failed(ctx.fatal("padEnd: value is not string"@), at),
        },
        ItemModel::Print { label } => match label {
            None => perform_print(None, ctx, replies, at),
            Some(value) => {
                let run = resolve(value, ctx, replies, at);
                match run.step {
                    StepModel::Done(ValueModel::String(text)) => perform_print(
                        Some(text),
                        ctx,
                        replies,
                        run.next,
                    ),
                    StepModel::Done(_) => failed(
                        ctx.fatal("print: label is not string"@),
                        run.next,
                    ),
                    StepModel::Failed(error) => failed(error, run.next),
                    StepModel::Suspended(request) => suspended(request, run.next),
                }
            },
        },
        ItemModel::If { cond, then_branch, else_branch } => {
            let decision = decide(cond, ctx, replies, at);
            match decision.step {
                StepModel::Done(valid) => take_branch(
                    if valid {
                        then_branch
                    } else {
                        else_branch
                    },
                    ctx,
                    replies,
                    decision.next,
                ),
                StepModel::Failed(error) => failed(error, decision.next),
                StepModel::Suspended(request) => suspended(request, decision.next),
            }
        },
        ItemModel::Filter { pipeline } => match ctx.value {
            ValueModel::Vec(elements) => filter_from(
                pipeline,
                elements,
                0,
                Seq::empty(),
                ctx,
                replies,
                at,
            ),
            _ => failed(ctx.fatal("filter: value is not vector"@), at),
        },
    }
}

} // verus!
