//! Why an evaluation can be made again over a longer list of replies: it reads
//! the replies in order, stops only where they end, and whatever it has
//! reached by then does not depend on what comes after.

use vstd::prelude::*;
use crate::model::{CtxModel, ItemModel, ReplyModel, RunModel, StepModel, ValueModel};
use crate::semantics::{
    call, decide, filter_from, perform_print, perform_query, permission, process, process_from,
    process_value, resolve, resolve_entries, resolve_values, take_branch,
};

verus! {

/// How the run over a list of `given` replies stands to the run over a longer
/// list, both from position `at`: the shorter run moves forward within the
/// replies it was given; it stops for a reply only at their end; and where it
/// did not stop, the longer run is the same run.
pub open spec fn settles<T>(short: RunModel<T>, long: RunModel<T>, at: nat, given: nat) -> bool {
    &&& at <= short.next <= given
    &&& short.step is Suspended ==> short.next == given
    &&& !(short.step is Suspended) ==> long == short
}

proof fn lemma_process_from_settles(
    items: Seq<ItemModel>,
    from: nat,
    ctx: CtxModel,
    short: Seq<ReplyModel>,
    long: Seq<ReplyModel>,
    at: nat,
)
    requires
        short.is_prefix_of(long),
        at <= short.len(),
    ensures
        settles(
            process_from(items, from, ctx, short, at),
            process_from(items, from, ctx, long, at),
            at,
            short.len(),
        ),
    decreases items, 0nat, items.len() - from,
{
    reveal(call);
    if from < items.len() {
        law_item_settles(items[from as int], ctx, short, long, at);
        let first = call(items[from as int], ctx, short, at);
        match first.step {
            StepModel::Done(next_ctx) => {
                lemma_process_from_settles(items, from + 1, next_ctx, short, long, first.next);
            },
            _ => {},
        }
    }
}

/// A pipeline run for its last frame settles.
pub proof fn law_process_settles(
    items: Seq<ItemModel>,
    ctx: CtxModel,
    short: Seq<ReplyModel>,
    long: Seq<ReplyModel>,
    at: nat,
)
    requires
        short.is_prefix_of(long),
        at <= short.len(),
    ensures
        settles(process(items, ctx, short, at), process(items, ctx, long, at), at, short.len()),
    decreases items, 1nat, 0nat,
{
    lemma_process_from_settles(items, 0, ctx, short, long, at);
}

/// A pipeline run for its last value settles.
pub proof fn law_process_value_settles(
    items: Seq<ItemModel>,
    ctx: CtxModel,
    short: Seq<ReplyModel>,
    long: Seq<ReplyModel>,
    at: nat,
)
    requires
        short.is_prefix_of(long),
        at <= short.len(),
    ensures
        settles(
            process_value(items, ctx, short, at),
            process_value(items, ctx, long, at),
            at,
            short.len(),
        ),
    decreases items, 2nat, 0nat,
{
    law_process_settles(items, ctx, short, long, at);
}

/// A permission check settles.
pub proof fn law_permission_settles(
    items: Seq<ItemModel>,
    ctx: CtxModel,
    short: Seq<ReplyModel>,
    long: Seq<ReplyModel>,
    at: nat,
)
    requires
        short.is_prefix_of(long),
        at <= short.len(),
    ensures
        settles(permission(items, ctx, short, at), permission(items, ctx, long, at), at, short.len()),
{
    law_process_value_settles(items, ctx, short, long, at);
}

proof fn lemma_resolve_values_settles(
    values: Seq<ValueModel>,
    from: nat,
    resolved: Seq<ValueModel>,
    ctx: CtxModel,
    short: Seq<ReplyModel>,
    long: Seq<ReplyModel>,
    at: nat,
)
    requires
        short.is_prefix_of(long),
        at <= short.len(),
    ensures
        settles(
            resolve_values(values, from, resolved, ctx, short, at),
            resolve_values(values, from, resolved, ctx, long, at),
            at,
            short.len(),
        ),
    decreases values, 0nat, values.len() - from,
{
    if from < values.len() {
        law_resolve_settles(values[from as int], ctx, short, long, at);
        let first = resolve(values[from as int], ctx, short, at);
        match first.step {
            StepModel::Done(value) => {
                lemma_resolve_values_settles(
                    values,
                    from + 1,
                    resolved.push(value),
                    ctx,
                    short,
                    long,
                    first.next,
                );
            },
            _ => {},
        }
    }
}

proof fn lemma_resolve_entries_settles(
    entries: Seq<(Seq<char>, ValueModel)>,
    from: nat,
    resolved: Seq<(Seq<char>, ValueModel)>,
    ctx: CtxModel,
    short: Seq<ReplyModel>,
    long: Seq<ReplyModel>,
    at: nat,
)
    requires
        short.is_prefix_of(long),
        at <= short.len(),
    ensures
        settles(
            resolve_entries(entries, from, resolved, ctx, short, at),
            resolve_entries(entries, from, resolved, ctx, long, at),
            at,
            short.len(),
        ),
    decreases entries, 0nat, entries.len() - from,
{
    if from < entries.len() {
        law_resolve_settles(entries[from as int].1, ctx, short, long, at);
        let first = resolve(entries[from as int].1, ctx, short, at);
        match first.step {
            StepModel::Done(value) => {
                lemma_resolve_entries_settles(
                    entries,
                    from + 1,
                    resolved.push((entries[from as int].0, value)),
                    ctx,
                    short,
                    long,
                    first.next,
                );
            },
            _ => {},
        }
    }
}

/// The resolution of a value settles.
pub proof fn law_resolve_settles(
    value: ValueModel,
    ctx: CtxModel,
    short: Seq<ReplyModel>,
    long: Seq<ReplyModel>,
    at: nat,
)
    requires
        short.is_prefix_of(long),
        at <= short.len(),
    ensures
        settles(resolve(value, ctx, short, at), resolve(value, ctx, long, at), at, short.len()),
    decreases value, 0nat, 0nat,
{
    match value {
        ValueModel::Pipeline(items) => {
            law_process_value_settles(items, ctx, short, long, at);
        },
        ValueModel::Vec(values) => {
            lemma_resolve_values_settles(values, 0, Seq::empty(), ctx, short, long, at);
        },
        ValueModel::Tuple(values) => {
            lemma_resolve_values_settles(values, 0, Seq::empty(), ctx, short, long, at);
        },
        ValueModel::Dictionary(entries) => {
            lemma_resolve_entries_settles(entries, 0, Seq::empty(), ctx, short, long, at);
        },
        ValueModel::Range(range) => {
            law_resolve_settles(*range.start, ctx, short, long, at);
            let first = resolve(*range.start, ctx, short, at);
            if first.step is Done {
                law_resolve_settles(*range.end, ctx, short, long, first.next);
            }
        },
        _ => {},
    }
}

proof fn lemma_take_branch_settles(
    branch: Option<ValueModel>,
    ctx: CtxModel,
    short: Seq<ReplyModel>,
    long: Seq<ReplyModel>,
    at: nat,
)
    requires
        short.is_prefix_of(long),
        at <= short.len(),
    ensures
        settles(
            take_branch(branch, ctx, short, at),
            take_branch(branch, ctx, long, at),
            at,
            short.len(),
        ),
    decreases branch, 0nat, 0nat,
{
    match branch {
        Some(ValueModel::Pipeline(items)) => {
            law_process_value_settles(items, ctx, short, long, at);
        },
        _ => {},
    }
}

proof fn lemma_decide_settles(
    cond: ValueModel,
    ctx: CtxModel,
    short: Seq<ReplyModel>,
    long: Seq<ReplyModel>,
    at: nat,
)
    requires
        short.is_prefix_of(long),
        at <= short.len(),
    ensures
        settles(decide(cond, ctx, short, at), decide(cond, ctx, long, at), at, short.len()),
    decreases cond, 0nat, 0nat,
{
    match cond {
        ValueModel::Pipeline(items) => {
            law_process_value_settles(items, ctx, short, long, at);
        },
        _ => {},
    }
}

proof fn lemma_filter_settles(
    items: Seq<ItemModel>,
    elements: Seq<ValueModel>,
    from: nat,
    kept: Seq<ValueModel>,
    ctx: CtxModel,
    short: Seq<ReplyModel>,
    long: Seq<ReplyModel>,
    at: nat,
)
    requires
        short.is_prefix_of(long),
        at <= short.len(),
    ensures
        settles(
            filter_from(items, elements, from, kept, ctx, short, at),
            filter_from(items, elements, from, kept, ctx, long, at),
            at,
            short.len(),
        ),
    decreases items, 3nat, elements.len() - from,
{
    if from < elements.len() {
        let element = elements[from as int];
        law_process_value_settles(items, ctx.element(from, element), short, long, at);
        let run = process_value(items, ctx.element(from, element), short, at);
        match run.step {
            StepModel::Done(_) => {
                lemma_filter_settles(
                    items,
                    elements,
                    from + 1,
                    kept.push(element),
                    ctx,
                    short,
                    long,
                    run.next,
                );
            },
            StepModel::Failed(error) => {
                if !error.is_fatal() {
                    lemma_filter_settles(items, elements, from + 1, kept, ctx, short, long, run.next);
                }
            },
            StepModel::Suspended(_) => {},
        }
    }
}

proof fn lemma_effects_settle(
    ctx: CtxModel,
    short: Seq<ReplyModel>,
    long: Seq<ReplyModel>,
    at: nat,
)
    requires
        short.is_prefix_of(long),
        at <= short.len(),
    ensures
        forall|label: Option<Seq<char>>|
            settles(
                #[trigger] perform_print(label, ctx, short, at),
                perform_print(label, ctx, long, at),
                at,
                short.len(),
            ),
        forall|query: ValueModel|
            settles(
                #[trigger] perform_query(query, ctx, short, at),
                perform_query(query, ctx, long, at),
                at,
                short.len(),
            ),
{
}

proof fn lemma_argument_item_settles(
    item: ItemModel,
    ctx: CtxModel,
    short: Seq<ReplyModel>,
    long: Seq<ReplyModel>,
    at: nat,
)
    requires
        short.is_prefix_of(long),
        at <= short.len(),
        item is Gte || item is Prepend || item is Truncate || item is PadEnd,
    ensures
        settles(call(item, ctx, short, at), call(item, ctx, long, at), at, short.len()),
    decreases item, 0nat, 0nat,
{
    reveal(call);
    match item {
        ItemModel::Gte { argument } => {
            law_resolve_settles(argument, ctx, short, long, at);
        },
        ItemModel::Prepend { argument } => {
            law_resolve_settles(argument, ctx, short, long, at);
        },
        ItemModel::Truncate { argument } => {
            law_resolve_settles(argument, ctx, short, long, at);
        },
        ItemModel::PadEnd { width, fill } => {
            law_resolve_settles(width, ctx, short, long, at);
        },
        _ => {},
    }
}

proof fn lemma_print_settles(
    item: ItemModel,
    ctx: CtxModel,
    short: Seq<ReplyModel>,
    long: Seq<ReplyModel>,
    at: nat,
)
    requires
        short.is_prefix_of(long),
        at <= short.len(),
        item is Print,
    ensures
        settles(call(item, ctx, short, at), call(item, ctx, long, at), at, short.len()),
    decreases item, 0nat, 0nat,
{
    reveal(call);
    lemma_effects_settle(ctx, short, long, at);
    if let ItemModel::Print { label: Some(value) } = item {
        law_resolve_settles(value, ctx, short, long, at);
        let run = resolve(value, ctx, short, at);
        lemma_effects_settle(ctx, short, long, run.next);
    }
}

proof fn lemma_if_settles(
    item: ItemModel,
    ctx: CtxModel,
    short: Seq<ReplyModel>,
    long: Seq<ReplyModel>,
    at: nat,
)
    requires
        short.is_prefix_of(long),
        at <= short.len(),
        item is If,
    ensures
        settles(call(item, ctx, short, at), call(item, ctx, long, at), at, short.len()),
    decreases item, 0nat, 0nat,
{
    reveal(call);
    if let ItemModel::If { cond, then_branch, else_branch } = item {
        lemma_decide_settles(cond, ctx, short, long, at);
        let decision = decide(cond, ctx, short, at);
        if let StepModel::Done(valid) = decision.step {
            lemma_take_branch_settles(
                if valid {
                    then_branch
                } else {
                    else_branch
                },
                ctx,
                short,
                long,
                decision.next,
            );
        }
    }
}

proof fn lemma_filter_item_settles(
    item: ItemModel,
    ctx: CtxModel,
    short: Seq<ReplyModel>,
    long: Seq<ReplyModel>,
    at: nat,
)
    requires
        short.is_prefix_of(long),
        at <= short.len(),
        item is Filter,
    ensures
        settles(call(item, ctx, short, at), call(item, ctx, long, at), at, short.len()),
    decreases item, 0nat, 0nat,
{
    reveal(call);
    if let ItemModel::Filter { pipeline } = item {
        if let ValueModel::Vec(elements) = ctx.value {
            lemma_filter_settles(pipeline, elements, 0, Seq::empty(), ctx, short, long, at);
        }
    }
}

proof fn lemma_plain_item_settles(
    item: ItemModel,
    ctx: CtxModel,
    short: Seq<ReplyModel>,
    long: Seq<ReplyModel>,
    at: nat,
)
    requires
        short.is_prefix_of(long),
        at <= short.len(),
        item is ToLowerCase || item is ToTitleCase || item is IsAlphabetic || item is IsEmail
            || item is IsNull || item is CtxSelf || item is QueryRaw,
    ensures
        settles(call(item, ctx, short, at), call(item, ctx, long, at), at, short.len()),
{
    reveal(call);
    lemma_effects_settle(ctx, short, long, at);
}

/// The run of an item settles: over more replies it is the same run, unless
/// it stopped for a reply, and that it does only where the replies end.
pub proof fn law_item_settles(
    item: ItemModel,
    ctx: CtxModel,
    short: Seq<ReplyModel>,
    long: Seq<ReplyModel>,
    at: nat,
)
    requires
        short.is_prefix_of(long),
        at <= short.len(),
    ensures
        settles(call(item, ctx, short, at), call(item, ctx, long, at), at, short.len()),
    decreases item, 1nat, 0nat,
{
    if item is Gte || item is Prepend || item is Truncate || item is PadEnd {
        lemma_argument_item_settles(item, ctx, short, long, at);
    } else if item is Print {
        lemma_print_settles(item, ctx, short, long, at);
    } else if item is If {
        lemma_if_settles(item, ctx, short, long, at);
    } else if item is Filter {
        lemma_filter_item_settles(item, ctx, short, long, at);
    } else {
        lemma_plain_item_settles(item, ctx, short, long, at);
    }
}

} // verus!
