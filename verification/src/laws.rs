//! What holds of every evaluation, proved from the semantics.

use vstd::prelude::*;
use crate::error::ErrorType;
use crate::model::{
    CtxModel, ErrorModel, ItemModel, ReplyModel, RequestModel, RunModel, StepModel, ValueModel,
};
use crate::order::{value_order, Order};
use crate::semantics::{
    call, done, ending_value, failed, filter_from, permission, process, process_from, process_value,
    resolve, resolve_entries, resolve_values, shorter, suspended, take_branch,
};
use crate::text::{
    all_alphabetic, can_pad, column_width, lowercase_of, padded_end, regex_compiles,
    regex_matches, title_case_of,
};

verus! {

/// A value that holds no pipeline, at any depth a resolution reaches.
pub open spec fn plain(value: ValueModel) -> bool
    decreases value,
{
    match value {
        ValueModel::Pipeline(_) => false,
        ValueModel::Vec(values) => forall|i: int|
            0 <= i < values.len() ==> plain(#[trigger] values[i]),
        ValueModel::Tuple(values) => forall|i: int|
            0 <= i < values.len() ==> plain(#[trigger] values[i]),
        ValueModel::Dictionary(entries) => forall|i: int|
            0 <= i < entries.len() ==> plain((#[trigger] entries[i]).1),
        ValueModel::Range(range) => plain(*range.start) && plain(*range.end),
        _ => true,
    }
}

proof fn lemma_resolve_plain_values(
    values: Seq<ValueModel>,
    from: nat,
    resolved: Seq<ValueModel>,
    ctx: CtxModel,
    replies: Seq<ReplyModel>,
    at: nat,
)
    requires
        from <= values.len(),
        forall|i: int| 0 <= i < values.len() ==> plain(#[trigger] values[i]),
    ensures
        resolve_values(values, from, resolved, ctx, replies, at) == done(
            resolved + values.skip(from as int),
            at,
        ),
    decreases values, 0nat, values.len() - from,
{
    if from < values.len() {
        law_plain_value_resolves_to_itself(values[from as int], ctx, replies, at);
        lemma_resolve_plain_values(
            values,
            from + 1,
            resolved.push(values[from as int]),
            ctx,
            replies,
            at,
        );
        assert(resolved.push(values[from as int]) + values.skip(from as int + 1) =~= resolved
            + values.skip(from as int));
    }
}

proof fn lemma_resolve_plain_entries(
    entries: Seq<(Seq<char>, ValueModel)>,
    from: nat,
    resolved: Seq<(Seq<char>, ValueModel)>,
    ctx: CtxModel,
    replies: Seq<ReplyModel>,
    at: nat,
)
    requires
        from <= entries.len(),
        forall|i: int| 0 <= i < entries.len() ==> plain((#[trigger] entries[i]).1),
    ensures
        resolve_entries(entries, from, resolved, ctx, replies, at) == done(
            resolved + entries.skip(from as int),
            at,
        ),
    decreases entries, 0nat, entries.len() - from,
{
    if from < entries.len() {
        let entry = entries[from as int];
        law_plain_value_resolves_to_itself(entry.1, ctx, replies, at);
        lemma_resolve_plain_entries(entries, from + 1, resolved.push(entry), ctx, replies, at);
        assert(resolved.push(entry) + entries.skip(from as int + 1) =~= resolved + entries.skip(
            from as int,
        ));
    }
}

/// A value that holds no pipeline resolves to itself, on any frame, and uses
/// no reply.
pub proof fn law_plain_value_resolves_to_itself(
    value: ValueModel,
    ctx: CtxModel,
    replies: Seq<ReplyModel>,
    at: nat,
)
    requires
        plain(value),
    ensures
        resolve(value, ctx, replies, at) == done(value, at),
    decreases value, 1nat, 0nat,
{
    match value {
        ValueModel::Vec(values) => {
            lemma_resolve_plain_values(values, 0, Seq::empty(), ctx, replies, at);
            assert(Seq::<ValueModel>::empty() + values.skip(0) =~= values);
        },
        ValueModel::Tuple(values) => {
            lemma_resolve_plain_values(values, 0, Seq::empty(), ctx, replies, at);
            assert(Seq::<ValueModel>::empty() + values.skip(0) =~= values);
        },
        ValueModel::Dictionary(entries) => {
            lemma_resolve_plain_entries(entries, 0, Seq::empty(), ctx, replies, at);
            assert(Seq::<(Seq<char>, ValueModel)>::empty() + entries.skip(0) =~= entries);
        },
        ValueModel::Range(range) => {
            law_plain_value_resolves_to_itself(*range.start, ctx, replies, at);
            law_plain_value_resolves_to_itself(*range.end, ctx, replies, at);
        },
        _ => {},
    }
}

/// An item with one purpose, built with arguments of the right kind: it reads
/// the value only, and its arguments hold no pipeline.
pub open spec fn well_typed(item: ItemModel) -> bool {
    match item {
        ItemModel::ToLowerCase => true,
        ItemModel::ToTitleCase => true,
        ItemModel::IsAlphabetic => true,
        ItemModel::IsNull => true,
        ItemModel::IsEmail { pattern } => true,
        ItemModel::Gte { argument } => plain(argument),
        ItemModel::Prepend { argument } => plain(argument),
        ItemModel::PadEnd { width, fill } => width matches ValueModel::I64(n) && n >= 0,
        ItemModel::Truncate { argument } => argument matches ValueModel::I64(n) && n >= 0,
        _ => false,
    }
}

/// Whether a value is of the variant the item works on. For `isEmail` the
/// pattern must be a regular expression too: where it is none, no string can
/// be tried on it.
pub open spec fn accepts(item: ItemModel, value: ValueModel) -> bool {
    match item {
        ItemModel::ToLowerCase => value is String,
        ItemModel::ToTitleCase => value is String,
        ItemModel::IsAlphabetic => value is String,
        ItemModel::IsEmail { pattern } => value is String && regex_compiles(pattern),
        ItemModel::IsNull => true,
        ItemModel::Gte { argument } => value_order(value, argument) is Some,
        ItemModel::Prepend { argument } => value is Vec || (value is String && argument is String),
        ItemModel::Truncate { argument } => value is Vec || value is String,
        ItemModel::PadEnd { width, fill } => value matches ValueModel::String(s) && can_pad(
            s.len(),
            width->I64_0 as nat,
        ),
        _ => false,
    }
}

/// Whether a value of the right variant passes the item's check. A transform
/// checks nothing.
pub open spec fn passes(item: ItemModel, value: ValueModel) -> bool {
    match item {
        ItemModel::IsAlphabetic => all_alphabetic(value->String_0),
        ItemModel::IsEmail { pattern } => regex_matches(pattern, value->String_0),
        ItemModel::IsNull => value is Null,
        ItemModel::Gte { argument } => value_order(value, argument) != Some(Order::Less),
        _ => true,
    }
}

/// The value the item leaves where it succeeds. A validator leaves the value
/// it was given.
pub open spec fn leaves(item: ItemModel, value: ValueModel) -> ValueModel {
    match item {
        ItemModel::ToLowerCase => ValueModel::String(lowercase_of(value->String_0)),
        ItemModel::ToTitleCase => ValueModel::String(title_case_of(value->String_0)),
        ItemModel::Prepend { argument } => match value {
            ValueModel::String(s) => ValueModel::String(argument->String_0 + s),
            ValueModel::Vec(values) => ValueModel::Vec(seq![argument] + values),
            _ => value,
        },
        ItemModel::PadEnd { width, fill } => ValueModel::String(
            padded_end(value->String_0, column_width(value->String_0), width->I64_0 as nat, fill),
        ),
        ItemModel::Truncate { argument } => match value {
            ValueModel::String(s) => ValueModel::String(
                s.take(shorter(argument->I64_0 as int, s.len() as int)),
            ),
            ValueModel::Vec(values) => ValueModel::Vec(
                values.take(shorter(argument->I64_0 as int, values.len() as int)),
            ),
            _ => value,
        },
        _ => value,
    }
}

/// A well-typed item with one purpose uses no reply, and
/// - fails fatally on a value of another variant than the one it works on;
/// - succeeds on a value of that variant that passes its check, with the
///   value its transform gives (for a validator, the value itself) and the
///   rest of the frame as it was;
/// - fails with a validation failure on a value of that variant that does not
///   pass.
pub proof fn law_single_purpose_item(
    item: ItemModel,
    ctx: CtxModel,
    replies: Seq<ReplyModel>,
    at: nat,
)
    requires
        well_typed(item),
    ensures
        call(item, ctx, replies, at).next == at,
        !accepts(item, ctx.value) ==> (call(item, ctx, replies, at).step matches StepModel::Failed(
            e,
        ) && e.kind == ErrorType::InternalServerError),
        accepts(item, ctx.value) && passes(item, ctx.value) ==> call(item, ctx, replies, at).step
            == StepModel::Done(ctx.with_value(leaves(item, ctx.value))),
        accepts(item, ctx.value) && !passes(item, ctx.value) ==> (call(
            item,
            ctx,
            replies,
            at,
        ).step matches StepModel::Failed(e) && e.kind == ErrorType::ValidationError),
{
    reveal(call);
    match item {
        ItemModel::Gte { argument } => {
            law_plain_value_resolves_to_itself(argument, ctx, replies, at);
        },
        ItemModel::Prepend { argument } => {
            law_plain_value_resolves_to_itself(argument, ctx, replies, at);
        },
        ItemModel::PadEnd { width, fill } => {
            law_plain_value_resolves_to_itself(width, ctx, replies, at);
        },
        ItemModel::Truncate { argument } => {
            law_plain_value_resolves_to_itself(argument, ctx, replies, at);
        },
        _ => {},
    }
}

/// A raw query sends the value of the frame, whatever query the item was
/// built with. Without a reply the run stops with the request to send it. An
/// answer takes the place of the value and leaves the rest of the frame as it
/// was; a failure of the connection is the outcome as it came.
pub proof fn law_query_raw_sends_the_value(
    query: ValueModel,
    ctx: CtxModel,
    replies: Seq<ReplyModel>,
    at: nat,
)
    ensures
        at >= replies.len() ==> call(ItemModel::QueryRaw { query }, ctx, replies, at) == suspended::<
            CtxModel,
        >(RequestModel::QueryRaw { query: ctx.value }, at),
        forall|answer: ValueModel|
            at < replies.len() && replies[at as int] == ReplyModel::QueryResult(Ok(answer)) ==> call(
                ItemModel::QueryRaw { query },
                ctx,
                replies,
                at,
            ) == done(
                CtxModel { value: answer, path: ctx.path, object: ctx.object, intent: ctx.intent },
                at + 1,
            ),
        forall|error: ErrorModel|
            at < replies.len() && replies[at as int] == ReplyModel::QueryResult(Err(error))
                ==> call(ItemModel::QueryRaw { query }, ctx, replies, at) == failed::<CtxModel>(
                error,
                at + 1,
            ),
{
    reveal(call);
}

/// A print hands on the frame it was given, and fails only over its label:
/// without a label it never does, and with a label that holds no pipeline it
/// does exactly where the label is no string, fatally.
pub proof fn law_print_passes_the_frame(
    label: Option<ValueModel>,
    ctx: CtxModel,
    replies: Seq<ReplyModel>,
    at: nat,
)
    ensures
        call(ItemModel::Print { label }, ctx, replies, at).step matches StepModel::Done(last)
            ==> last == ctx,
        label is None ==> !(call(ItemModel::Print { label }, ctx, replies, at).step is Failed),
        label is Some && plain(label->Some_0) ==> (call(
            ItemModel::Print { label },
            ctx,
            replies,
            at,
        ).step is Failed <==> !(label->Some_0 is String)),
        label is Some && plain(label->Some_0) && !(label->Some_0 is String) ==> call(
            ItemModel::Print { label },
            ctx,
            replies,
            at,
        ) == failed::<CtxModel>(ctx.fatal("print: label is not string"@), at),
{
    reveal(call);
    if let Some(text) = label {
        if plain(text) {
            law_plain_value_resolves_to_itself(text, ctx, replies, at);
        }
    }
}

/// The outcome of `first` followed, where it ran to its end, by `rest` on the
/// frame and from the position it left.
pub open spec fn followed_by(
    first: RunModel<CtxModel>,
    rest: spec_fn(CtxModel, nat) -> RunModel<CtxModel>,
) -> RunModel<CtxModel> {
    match first.step {
        StepModel::Done(ctx) => rest(ctx, first.next),
        _ => first,
    }
}

proof fn lemma_process_suffix(
    head: Seq<ItemModel>,
    tail: Seq<ItemModel>,
    from: nat,
    ctx: CtxModel,
    replies: Seq<ReplyModel>,
    at: nat,
)
    requires
        from <= tail.len(),
    ensures
        process_from(head + tail, head.len() + from, ctx, replies, at) == process_from(
            tail,
            from,
            ctx,
            replies,
            at,
        ),
    decreases tail.len() - from,
{
    reveal(call);
    if from < tail.len() {
        let first = call(tail[from as int], ctx, replies, at);
        match first.step {
            StepModel::Done(next_ctx) => {
                lemma_process_suffix(head, tail, from + 1, next_ctx, replies, first.next);
            },
            _ => {},
        }
    }
}

proof fn lemma_process_prefix(
    head: Seq<ItemModel>,
    tail: Seq<ItemModel>,
    from: nat,
    ctx: CtxModel,
    replies: Seq<ReplyModel>,
    at: nat,
)
    requires
        from <= head.len(),
    ensures
        process_from(head + tail, from, ctx, replies, at) == followed_by(
            process_from(head, from, ctx, replies, at),
            |last: CtxModel, next: nat| process(tail, last, replies, next),
        ),
    decreases head.len() - from,
{
    reveal(call);
    if from < head.len() {
        let first = call(head[from as int], ctx, replies, at);
        match first.step {
            StepModel::Done(next_ctx) => {
                lemma_process_prefix(head, tail, from + 1, next_ctx, replies, first.next);
            },
            _ => {},
        }
    } else {
        lemma_process_suffix(head, tail, 0, ctx, replies, at);
    }
}

/// Running two pipelines one after the other is running the first and, where
/// it runs to its end, the second on the frame and from the position the
/// first left. Where the first fails or stops, that is the outcome: nothing of
/// the second is run.
pub proof fn law_pipelines_compose(
    head: Seq<ItemModel>,
    tail: Seq<ItemModel>,
    ctx: CtxModel,
    replies: Seq<ReplyModel>,
    at: nat,
)
    ensures
        process(head + tail, ctx, replies, at) == followed_by(
            process(head, ctx, replies, at),
            |last: CtxModel, next: nat| process(tail, last, replies, next),
        ),
{
    lemma_process_prefix(head, tail, 0, ctx, replies, at);
}

/// A pipeline of one item is that item.
pub proof fn law_single_item_pipeline(
    item: ItemModel,
    ctx: CtxModel,
    replies: Seq<ReplyModel>,
    at: nat,
)
    ensures
        process(seq![item], ctx, replies, at) == call(item, ctx, replies, at),
{
    reveal(call);
    reveal_with_fuel(process_from, 2);
}

/// A pipeline of two items is the second item run on the frame the first one
/// left. Where the first item fails or stops, that is the outcome, at the
/// position the first item reached: the second item is not run.
pub proof fn law_sequential_composition(
    first: ItemModel,
    second: ItemModel,
    ctx: CtxModel,
    replies: Seq<ReplyModel>,
    at: nat,
)
    ensures
        process(seq![first, second], ctx, replies, at) == followed_by(
            call(first, ctx, replies, at),
            |last: CtxModel, next: nat| call(second, last, replies, next),
        ),
        process_value(seq![first, second], ctx, replies, at) == ending_value(
            followed_by(
                call(first, ctx, replies, at),
                |last: CtxModel, next: nat| call(second, last, replies, next),
            ),
        ),
{
    law_pipelines_compose(seq![first], seq![second], ctx, replies, at);
    law_single_item_pipeline(first, ctx, replies, at);
    let run = call(first, ctx, replies, at);
    match run.step {
        StepModel::Done(last) => {
            law_single_item_pipeline(second, last, replies, run.next);
        },
        _ => {},
    }
}

/// Filtering the empty sequence gives the empty sequence, whatever the
/// pipeline: it is not run, and no reply is used.
pub proof fn law_filter_of_nothing(
    pipeline: Seq<ItemModel>,
    ctx: CtxModel,
    replies: Seq<ReplyModel>,
    at: nat,
)
    requires
        ctx.value == ValueModel::Vec(Seq::empty()),
    ensures
        call(ItemModel::Filter { pipeline }, ctx, replies, at) == done(ctx, at),
{
    reveal(call);
}

proof fn lemma_filter_stops(
    pipeline: Seq<ItemModel>,
    elements: Seq<ValueModel>,
    upto: nat,
    from: nat,
    kept: Seq<ValueModel>,
    ctx: CtxModel,
    replies: Seq<ReplyModel>,
    at: nat,
)
    requires
        from <= upto <= elements.len(),
        !(filter_from(pipeline, elements.take(upto as int), from, kept, ctx, replies, at).step
            is Done),
    ensures
        filter_from(pipeline, elements, from, kept, ctx, replies, at) == filter_from(
            pipeline,
            elements.take(upto as int),
            from,
            kept,
            ctx,
            replies,
            at,
        ),
    decreases upto - from,
{
    let part = elements.take(upto as int);
    if from < upto {
        let run = process_value(pipeline, ctx.element(from, elements[from as int]), replies, at);
        match run.step {
            StepModel::Done(_) => {
                lemma_filter_stops(
                    pipeline,
                    elements,
                    upto,
                    from + 1,
                    kept.push(elements[from as int]),
                    ctx,
                    replies,
                    run.next,
                );
            },
            StepModel::Failed(error) => {
                if !error.is_fatal() {
                    lemma_filter_stops(
                        pipeline,
                        elements,
                        upto,
                        from + 1,
                        kept,
                        ctx,
                        replies,
                        run.next,
                    );
                }
            },
            StepModel::Suspended(_) => {},
        }
    }
}

/// A filter only ever fails with the fatal failure of one of its elements.
pub proof fn law_filter_fails_fatally_only(
    pipeline: Seq<ItemModel>,
    elements: Seq<ValueModel>,
    from: nat,
    kept: Seq<ValueModel>,
    ctx: CtxModel,
    replies: Seq<ReplyModel>,
    at: nat,
)
    ensures
        filter_from(pipeline, elements, from, kept, ctx, replies, at).step matches StepModel::Failed(
            e,
        ) ==> e.is_fatal(),
    decreases elements.len() - from,
{
    if from < elements.len() {
        let run = process_value(pipeline, ctx.element(from, elements[from as int]), replies, at);
        match run.step {
            StepModel::Done(_) => {
                law_filter_fails_fatally_only(
                    pipeline,
                    elements,
                    from + 1,
                    kept.push(elements[from as int]),
                    ctx,
                    replies,
                    run.next,
                );
            },
            StepModel::Failed(error) => {
                if !error.is_fatal() {
                    law_filter_fails_fatally_only(
                        pipeline,
                        elements,
                        from + 1,
                        kept,
                        ctx,
                        replies,
                        run.next,
                    );
                }
            },
            StepModel::Suspended(_) => {},
        }
    }
}

/// Where filtering the first `count` elements of a sequence fails, filtering
/// the whole sequence gives that same failure at that same position: the
/// elements after the one that failed are not run.
pub proof fn law_filter_short_circuit(
    pipeline: Seq<ItemModel>,
    elements: Seq<ValueModel>,
    count: nat,
    ctx: CtxModel,
    replies: Seq<ReplyModel>,
    at: nat,
)
    requires
        count <= elements.len(),
        call(
            ItemModel::Filter { pipeline },
            ctx.with_value(ValueModel::Vec(elements.take(count as int))),
            replies,
            at,
        ).step is Failed,
    ensures
        call(ItemModel::Filter { pipeline }, ctx.with_value(ValueModel::Vec(elements)), replies, at)
            == call(
            ItemModel::Filter { pipeline },
            ctx.with_value(ValueModel::Vec(elements.take(count as int))),
            replies,
            at,
        ),
        call(
            ItemModel::Filter { pipeline },
            ctx.with_value(ValueModel::Vec(elements)),
            replies,
            at,
        ).step matches StepModel::Failed(e) && e.is_fatal(),
{
    reveal(call);
    let whole = ctx.with_value(ValueModel::Vec(elements));
    let part = ctx.with_value(ValueModel::Vec(elements.take(count as int)));
    lemma_filter_frame(pipeline, elements.take(count as int), 0, Seq::empty(), part, whole, replies, at);
    lemma_filter_stops(pipeline, elements, count, 0, Seq::empty(), whole, replies, at);
    law_filter_fails_fatally_only(pipeline, elements, 0, Seq::empty(), whole, replies, at);
}

proof fn lemma_filter_frame(
    pipeline: Seq<ItemModel>,
    elements: Seq<ValueModel>,
    from: nat,
    kept: Seq<ValueModel>,
    one: CtxModel,
    other: CtxModel,
    replies: Seq<ReplyModel>,
    at: nat,
)
    requires
        one.path == other.path,
        one.object == other.object,
        one.intent == other.intent,
    ensures
        filter_from(pipeline, elements, from, kept, one, replies, at).next == filter_from(
            pipeline,
            elements,
            from,
            kept,
            other,
            replies,
            at,
        ).next,
        match filter_from(pipeline, elements, from, kept, one, replies, at).step {
            StepModel::Done(last) => filter_from(
                pipeline,
                elements,
                from,
                kept,
                other,
                replies,
                at,
            ).step == StepModel::Done(other.with_value(last.value)),
            step => filter_from(pipeline, elements, from, kept, other, replies, at).step == step,
        },
    decreases elements.len() - from,
{
    if from < elements.len() {
        let element = elements[from as int];
        let run = process_value(pipeline, one.element(from, element), replies, at);
        match run.step {
            StepModel::Done(_) => {
                lemma_filter_frame(
                    pipeline,
                    elements,
                    from + 1,
                    kept.push(element),
                    one,
                    other,
                    replies,
                    run.next,
                );
            },
            StepModel::Failed(error) => {
                if !error.is_fatal() {
                    lemma_filter_frame(
                        pipeline,
                        elements,
                        from + 1,
                        kept,
                        one,
                        other,
                        replies,
                        run.next,
                    );
                }
            },
            StepModel::Suspended(_) => {},
        }
    }
}

/// Whether `part` is what is left of `whole` once some of its elements are
/// taken out: the same elements in the same order.
pub open spec fn selection_of(part: Seq<ValueModel>, whole: Seq<ValueModel>) -> bool
    decreases whole.len(),
{
    if part.len() == 0 {
        true
    } else if whole.len() == 0 {
        false
    } else {
        (part[0] == whole[0] && selection_of(part.drop_first(), whole.drop_first()))
            || selection_of(part, whole.drop_first())
    }
}

proof fn lemma_filter_selects(
    pipeline: Seq<ItemModel>,
    elements: Seq<ValueModel>,
    from: nat,
    kept: Seq<ValueModel>,
    ctx: CtxModel,
    replies: Seq<ReplyModel>,
    at: nat,
)
    requires
        from <= elements.len(),
        filter_from(pipeline, elements, from, kept, ctx, replies, at).step is Done,
    ensures
        ({
            let last = filter_from(pipeline, elements, from, kept, ctx, replies, at).step->Done_0;
            exists|rest: Seq<ValueModel>|
                last == ctx.with_value(ValueModel::Vec(kept + rest)) && #[trigger] selection_of(
                    rest,
                    elements.skip(from as int),
                )
        }),
    decreases elements.len() - from,
{
    let last = filter_from(pipeline, elements, from, kept, ctx, replies, at).step->Done_0;
    if from >= elements.len() {
        let rest = Seq::<ValueModel>::empty();
        assert(selection_of(rest, elements.skip(from as int)));
    } else {
        let element = elements[from as int];
        let remaining = elements.skip(from as int);
        assert(remaining.drop_first() =~= elements.skip(from as int + 1));
        let run = process_value(pipeline, ctx.element(from, element), replies, at);
        match run.step {
            StepModel::Done(_) => {
                lemma_filter_selects(
                    pipeline,
                    elements,
                    from + 1,
                    kept.push(element),
                    ctx,
                    replies,
                    run.next,
                );
                let tail = choose|rest: Seq<ValueModel>|
                    last == ctx.with_value(ValueModel::Vec(kept.push(element) + rest))
                        && #[trigger] selection_of(rest, elements.skip(from as int + 1));
                let rest = seq![element] + tail;
                assert(kept + rest =~= kept.push(element) + tail);
                assert(rest.drop_first() =~= tail);
                assert(selection_of(rest, remaining));
            },
            StepModel::Failed(error) => {
                lemma_filter_selects(pipeline, elements, from + 1, kept, ctx, replies, run.next);
                let rest = choose|rest: Seq<ValueModel>|
                    last == ctx.with_value(ValueModel::Vec(kept + rest)) && #[trigger] selection_of(
                        rest,
                        elements.skip(from as int + 1),
                    );
                assert(selection_of(rest, remaining));
            },
            StepModel::Suspended(_) => {},
        }
    }
}

/// What a filter hands on is a selection of the sequence it was given: some
/// of its elements, in the order they had. The rest of the frame is as it was.
pub proof fn law_filter_selects_in_order(
    pipeline: Seq<ItemModel>,
    ctx: CtxModel,
    replies: Seq<ReplyModel>,
    at: nat,
)
    requires
        ctx.value is Vec,
        call(ItemModel::Filter { pipeline }, ctx, replies, at).step is Done,
    ensures
        ({
            let last = call(ItemModel::Filter { pipeline }, ctx, replies, at).step->Done_0;
            &&& last.value is Vec
            &&& selection_of(last.value->Vec_0, ctx.value->Vec_0)
            &&& last == ctx.with_value(last.value)
        }),
{
    reveal(call);
    let elements = ctx.value->Vec_0;
    lemma_filter_selects(pipeline, elements, 0, Seq::empty(), ctx, replies, at);
    let last = call(ItemModel::Filter { pipeline }, ctx, replies, at).step->Done_0;
    let rest = choose|rest: Seq<ValueModel>|
        last == ctx.with_value(ValueModel::Vec(Seq::<ValueModel>::empty() + rest))
            && #[trigger] selection_of(rest, elements.skip(0));
    assert(elements.skip(0) =~= elements);
}

/// An `if` whose condition is a pipeline that fails without being fatal takes
/// the `else` branch, from the position the condition reached; with no `else`
/// branch the frame passes as it is. Where the condition fails fatally, that
/// failure is the outcome and no branch is taken.
pub proof fn law_if_on_failing_condition(
    probe: Seq<ItemModel>,
    then_branch: Option<ValueModel>,
    else_branch: Option<ValueModel>,
    ctx: CtxModel,
    replies: Seq<ReplyModel>,
    at: nat,
)
    requires
        process_value(probe, ctx, replies, at).step is Failed,
    ensures
        ({
            let item = ItemModel::If { cond: ValueModel::Pipeline(probe), then_branch, else_branch };
            let condition = process_value(probe, ctx, replies, at);
            let error = condition.step->Failed_0;
            &&& error.is_fatal() ==> call(item, ctx, replies, at) == failed::<CtxModel>(
                error,
                condition.next,
            )
            &&& !error.is_fatal() ==> call(item, ctx, replies, at) == take_branch(
                else_branch,
                ctx,
                replies,
                condition.next,
            )
            &&& !error.is_fatal() && else_branch is None ==> call(item, ctx, replies, at) == done(
                ctx,
                condition.next,
            )
        }),
{
    reveal(call);
}

/// A permission check over a pipeline that fails with a validation failure
/// denies at the path the check started from. The denial is the same whatever
/// the reason of the failure was.
pub proof fn law_permission_translation(
    items: Seq<ItemModel>,
    ctx: CtxModel,
    replies: Seq<ReplyModel>,
    at: nat,
)
    requires
        process_value(items, ctx, replies, at).step matches StepModel::Failed(e) && e.kind
            == ErrorType::ValidationError,
    ensures
        permission(items, ctx, replies, at) == failed::<()>(
            ErrorModel {
                kind: ErrorType::PermissionError,
                message: "permission denied"@,
                path: ctx.path,
            },
            process_value(items, ctx, replies, at).next,
        ),
{
}

/// A permission check allows exactly where the pipeline runs to its end, and
/// hands on a fatal failure as it is.
pub proof fn law_permission_outcomes(
    items: Seq<ItemModel>,
    ctx: CtxModel,
    replies: Seq<ReplyModel>,
    at: nat,
)
    ensures
        permission(items, ctx, replies, at).step is Done <==> process_value(
            items,
            ctx,
            replies,
            at,
        ).step is Done,
        forall|e: ErrorModel|
            process_value(items, ctx, replies, at).step == StepModel::<ValueModel>::Failed(e)
                && e.is_fatal() ==> permission(items, ctx, replies, at).step == StepModel::<
                (),
            >::Failed(e),
{
}

} // verus!


