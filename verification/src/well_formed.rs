//! What makes a value well formed: a dictionary is a map, so no key occurs in
//! it twice, at any depth.

use vstd::prelude::*;
use crate::item::Item;
use crate::model::{
    entries_model, option_value_model, values_model, CtxModel, ItemModel, ReplyModel, StepModel,
    ValueModel,
};
use crate::pipeline::Pipeline;
use crate::semantics::{
    call, filter_from, process, process_from, process_value, resolve, resolve_entries,
    resolve_values, take_branch,
};
use crate::value::Value;

verus! {

/// No key occurs twice.
pub open spec fn distinct_keys(entries: Seq<(Seq<char>, ValueModel)>) -> bool {
    forall|i: int, j: int|
        0 <= i < j < entries.len() ==> (#[trigger] entries[i]).0 != (#[trigger] entries[j]).0
}

/// A value is well formed where every dictionary in it, at any depth and in
/// the arguments of the items of any pipeline in it, has distinct keys.
pub open spec fn value_well_formed(value: ValueModel) -> bool
    decreases value, 1nat,
{
    match value {
        ValueModel::Vec(values) => all_well_formed(values),
        ValueModel::Tuple(values) => all_well_formed(values),
        ValueModel::Dictionary(entries) => distinct_keys(entries) && values_well_formed(entries),
        ValueModel::Range(range) => value_well_formed(*range.start) && value_well_formed(
            *range.end,
        ),
        ValueModel::Pipeline(items) => pipeline_well_formed(items),
        _ => true,
    }
}

/// Every value in a sequence is well formed.
pub open spec fn all_well_formed(values: Seq<ValueModel>) -> bool
    decreases values, 0nat,
{
    forall|i: int| 0 <= i < values.len() ==> value_well_formed(#[trigger] values[i])
}

/// The value of every entry is well formed.
pub open spec fn values_well_formed(entries: Seq<(Seq<char>, ValueModel)>) -> bool
    decreases entries, 0nat,
{
    forall|i: int| 0 <= i < entries.len() ==> value_well_formed((#[trigger] entries[i]).1)
}

/// An optional value is well formed where there is none or the one there is, is.
pub open spec fn option_well_formed(value: Option<ValueModel>) -> bool
    decreases value, 2nat,
{
    match value {
        Some(v) => value_well_formed(v),
        None => true,
    }
}

/// A pipeline is well formed where its items are.
pub open spec fn pipeline_well_formed(items: Seq<ItemModel>) -> bool
    decreases items, 0nat,
{
    forall|i: int| 0 <= i < items.len() ==> item_well_formed(#[trigger] items[i])
}

/// An item is well formed where the values and pipelines it was built with are.
pub open spec fn item_well_formed(item: ItemModel) -> bool
    decreases item, 0nat,
{
    match item {
        ItemModel::Prepend { argument } => value_well_formed(argument),
        ItemModel::Print { label } => option_well_formed(label),
        ItemModel::If { cond, then_branch, else_branch } => value_well_formed(cond)
            && option_well_formed(then_branch) && option_well_formed(else_branch),
        ItemModel::QueryRaw { query } => value_well_formed(query),
        ItemModel::PadEnd { width, fill } => value_well_formed(width),
        ItemModel::Gte { argument } => value_well_formed(argument),
        ItemModel::Truncate { argument } => value_well_formed(argument),
        ItemModel::Filter { pipeline } => pipeline_well_formed(pipeline),
        _ => true,
    }
}

impl ValueModel {
    /// Whether every dictionary in the value is a map.
    pub open spec fn well_formed(self) -> bool {
        value_well_formed(self)
    }
}

/// Whether no key occurs twice among the entries.
pub fn keys_are_distinct(entries: &Vec<(String, Value)>) -> (b: bool)
    ensures
        b == distinct_keys(entries_model(entries@)),
{
    let ghost model = entries_model(entries@);
    let mut j: usize = 0;
    while j < entries.len()
        invariant
            j <= entries.len(),
            model == entries_model(entries@),
            forall|a: int, b: int|
                0 <= a < b < j ==> (#[trigger] model[a]).0 != (#[trigger] model[b]).0,
        decreases entries.len() - j,
    {
        let mut i: usize = 0;
        while i < j
            invariant
                i <= j < entries.len(),
                model == entries_model(entries@),
                forall|a: int| 0 <= a < i ==> (#[trigger] model[a]).0 != model[j as int].0,
            decreases j - i,
        {
            if entries[i].0 == entries[j].0 {
                assert(model[i as int].0 == model[j as int].0);
                return false;
            }
            i += 1;
        }
        j += 1;
    }
    true
}

/// Whether every value of the sequence is well formed.
pub fn values_are_well_formed(values: &Vec<Value>) -> (b: bool)
    ensures
        b == all_well_formed(values_model(values@)),
    decreases values,
{
    let ghost model = values_model(values@);
    let mut i: usize = 0;
    while i < values.len()
        invariant
            i <= values.len(),
            model == values_model(values@),
            forall|j: int| 0 <= j < i ==> value_well_formed(#[trigger] model[j]),
        decreases values.len() - i,
    {
        if !values[i].is_well_formed() {
            assert(!value_well_formed(model[i as int]));
            return false;
        }
        i += 1;
    }
    true
}

/// Whether the entries have distinct keys and well-formed values.
pub fn entries_are_well_formed(entries: &Vec<(String, Value)>) -> (b: bool)
    ensures
        b == (distinct_keys(entries_model(entries@)) && values_well_formed(
            entries_model(entries@),
        )),
    decreases entries,
{
    if !keys_are_distinct(entries) {
        return false;
    }
    let ghost model = entries_model(entries@);
    let mut i: usize = 0;
    while i < entries.len()
        invariant
            i <= entries.len(),
            model == entries_model(entries@),
            forall|j: int| 0 <= j < i ==> value_well_formed((#[trigger] model[j]).1),
        decreases entries.len() - i,
    {
        let entry = &entries[i];
        assert(decreases_to!(entries@[i as int] => entries@[i as int].1));
        if !entry.1.is_well_formed() {
            assert(!value_well_formed(model[i as int].1));
            return false;
        }
        i += 1;
    }
    true
}

/// Whether the value, if there is one, is well formed.
pub fn option_is_well_formed(value: &Option<Value>) -> (b: bool)
    ensures
        b == option_well_formed(option_value_model(*value)),
    decreases value,
{
    match value {
        Some(v) => v.is_well_formed(),
        None => true,
    }
}

impl Pipeline {
    /// Whether every item of the pipeline is well formed.
    pub fn is_well_formed(&self) -> (b: bool)
        ensures
            b == pipeline_well_formed(self@),
        decreases self,
    {
        let ghost model = self@;
        let mut i: usize = 0;
        while i < self.items.len()
            invariant
                i <= self.items.len(),
                model == self@,
                forall|j: int| 0 <= j < i ==> item_well_formed(#[trigger] model[j]),
            decreases self.items.len() - i,
        {
            assert(decreases_to!(self => self.items));
            assert(model[i as int] == self.items@[i as int]@);
            if !self.items[i].is_well_formed() {
                assert(!item_well_formed(model[i as int]));
                return false;
            }
            i += 1;
        }
        true
    }
}

impl Item {
    /// Whether the values and pipelines the item was built with are well formed.
    pub fn is_well_formed(&self) -> (b: bool)
        ensures
            b == item_well_formed(self@),
        decreases self,
    {
        match self {
            Item::Prepend(item) => item.argument.is_well_formed(),
            Item::Print(item) => option_is_well_formed(&item.label),
            Item::If(item) => item.cond.is_well_formed() && option_is_well_formed(
                &item.then_branch,
            ) && option_is_well_formed(&item.else_branch),
            Item::QueryRaw(item) => item.query.is_well_formed(),
            Item::PadEnd(item) => item.width.is_well_formed(),
            Item::Gte(item) => item.argument.is_well_formed(),
            Item::Truncate(item) => item.argument.is_well_formed(),
            Item::Filter(item) => item.pipeline.is_well_formed(),
            _ => true,
        }
    }
}

impl Value {
    /// Whether every dictionary in the value, at any depth, is a map.
    pub fn is_well_formed(&self) -> (b: bool)
        ensures
            b == self@.well_formed(),
        decreases self,
    {
        match self {
            Value::Vec(values) => values_are_well_formed(values),
            Value::Tuple(values) => values_are_well_formed(values),
            Value::Dictionary(entries) => entries_are_well_formed(entries),
            Value::Range(range) => (*range.start).is_well_formed() && (*range.end).is_well_formed(),
            Value::Pipeline(pipeline) => pipeline.is_well_formed(),
            _ => true,
        }
    }

    /// The dictionary of the given entries, in their order, where no key
    /// occurs twice among them; none where one does. The dictionary is well
    /// formed where the values of the entries are.
    pub fn dictionary(entries: Vec<(String, Value)>) -> (made: Option<Value>)
        ensures
            made is Some <==> distinct_keys(entries_model(entries@)),
            made matches Some(value) ==> value == Value::Dictionary(entries),
            made matches Some(value) ==> (value@.well_formed() <==> values_well_formed(
                entries_model(entries@),
            )),
    {
        if keys_are_distinct(&entries) {
            Some(Value::Dictionary(entries))
        } else {
            None
        }
    }
}

proof fn lemma_resolve_keeps_the_keys(
    entries: Seq<(Seq<char>, ValueModel)>,
    from: nat,
    resolved: Seq<(Seq<char>, ValueModel)>,
    ctx: CtxModel,
    replies: Seq<ReplyModel>,
    at: nat,
)
    requires
        from <= entries.len(),
        resolve_entries(entries, from, resolved, ctx, replies, at).step is Done,
    ensures
        ({
            let out = resolve_entries(entries, from, resolved, ctx, replies, at).step->Done_0;
            let all = resolved + entries.skip(from as int);
            &&& out.len() == all.len()
            &&& forall|i: int| 0 <= i < out.len() ==> (#[trigger] out[i]).0 == all[i].0
            &&& forall|i: int| 0 <= i < resolved.len() ==> (#[trigger] out[i]) == resolved[i]
        }),
    decreases entries.len() - from,
{
    if from < entries.len() {
        let first = resolve(entries[from as int].1, ctx, replies, at);
        if let StepModel::Done(value) = first.step {
            let next = resolved.push((entries[from as int].0, value));
            lemma_resolve_keeps_the_keys(entries, from + 1, next, ctx, replies, first.next);
            let out = resolve_entries(entries, from, resolved, ctx, replies, at).step->Done_0;
            let all = resolved + entries.skip(from as int);
            let later = next + entries.skip(from as int + 1);
            assert(later.len() == all.len());
            assert forall|i: int| 0 <= i < out.len() implies (#[trigger] out[i]).0 == all[i].0 by {
                assert(out[i].0 == later[i].0);
                if i < resolved.len() {
                    assert(later[i] == next[i]);
                } else if i == resolved.len() {
                    assert(later[i] == next[i]);
                } else {
                    assert(later[i] == entries[from + 1 + (i - next.len())]);
                    assert(all[i] == entries[from + (i - resolved.len())]);
                }
            }
            assert forall|i: int| 0 <= i < resolved.len() implies (#[trigger] out[i])
                == resolved[i] by {
                assert(out[i] == next[i]);
            }
        }
    }
}

/// Resolving a dictionary keeps its keys: the dictionary that comes out has
/// the keys that went in, in their order, so it is a map where the one that
/// went in was.
pub proof fn law_resolve_keeps_the_keys(
    entries: Seq<(Seq<char>, ValueModel)>,
    ctx: CtxModel,
    replies: Seq<ReplyModel>,
    at: nat,
)
    requires
        resolve(ValueModel::Dictionary(entries), ctx, replies, at).step is Done,
    ensures
        ({
            let out = resolve(ValueModel::Dictionary(entries), ctx, replies, at).step->Done_0;
            &&& out is Dictionary
            &&& out->Dictionary_0.len() == entries.len()
            &&& forall|i: int|
                0 <= i < entries.len() ==> (#[trigger] out->Dictionary_0[i]).0 == entries[i].0
            &&& distinct_keys(entries) ==> distinct_keys(out->Dictionary_0)
        }),
{
    lemma_resolve_keeps_the_keys(entries, 0, Seq::empty(), ctx, replies, at);
    assert(Seq::<(Seq<char>, ValueModel)>::empty() + entries.skip(0) =~= entries);
    let out = resolve(ValueModel::Dictionary(entries), ctx, replies, at).step->Done_0->Dictionary_0;
    if distinct_keys(entries) {
        assert forall|i: int, j: int| 0 <= i < j < out.len() implies (#[trigger] out[i]).0 != (
        #[trigger] out[j]).0 by {
            assert(out[i].0 == entries[i].0);
            assert(out[j].0 == entries[j].0);
        }
    }
}

/// Every answer among the replies is well formed.
pub open spec fn replies_well_formed(replies: Seq<ReplyModel>) -> bool {
    forall|i: int|
        0 <= i < replies.len() ==> ((#[trigger] replies[i]) matches ReplyModel::QueryResult(
            Ok(answer),
        ) ==> value_well_formed(answer))
}

proof fn lemma_process_from_well_formed(
    items: Seq<ItemModel>,
    from: nat,
    ctx: CtxModel,
    replies: Seq<ReplyModel>,
    at: nat,
)
    requires
        pipeline_well_formed(items),
        value_well_formed(ctx.value),
        replies_well_formed(replies),
    ensures
        process_from(items, from, ctx, replies, at).step matches StepModel::Done(last)
            ==> value_well_formed(last.value),
    decreases items, 0nat, items.len() - from,
{
    reveal(call);
    if from < items.len() {
        law_items_keep_values_well_formed(items[from as int], ctx, replies, at);
        let first = call(items[from as int], ctx, replies, at);
        if let StepModel::Done(next_ctx) = first.step {
            lemma_process_from_well_formed(items, from + 1, next_ctx, replies, first.next);
        }
    }
}

/// A well-formed pipeline run on a well-formed value over well-formed replies
/// ends with a well-formed value.
pub proof fn law_pipelines_keep_values_well_formed(
    items: Seq<ItemModel>,
    ctx: CtxModel,
    replies: Seq<ReplyModel>,
    at: nat,
)
    requires
        pipeline_well_formed(items),
        value_well_formed(ctx.value),
        replies_well_formed(replies),
    ensures
        process(items, ctx, replies, at).step matches StepModel::Done(last) ==> value_well_formed(
            last.value,
        ),
        process_value(items, ctx, replies, at).step matches StepModel::Done(value)
            ==> value_well_formed(value),
    decreases items, 2nat, 0nat,
{
    lemma_process_from_well_formed(items, 0, ctx, replies, at);
}

proof fn lemma_resolve_values_well_formed(
    values: Seq<ValueModel>,
    from: nat,
    resolved: Seq<ValueModel>,
    ctx: CtxModel,
    replies: Seq<ReplyModel>,
    at: nat,
)
    requires
        all_well_formed(values),
        all_well_formed(resolved),
        value_well_formed(ctx.value),
        replies_well_formed(replies),
    ensures
        resolve_values(values, from, resolved, ctx, replies, at).step matches StepModel::Done(out)
            ==> all_well_formed(out),
    decreases values, 0nat, values.len() - from,
{
    if from < values.len() {
        law_resolve_keeps_values_well_formed(values[from as int], ctx, replies, at);
        let first = resolve(values[from as int], ctx, replies, at);
        if let StepModel::Done(value) = first.step {
            let next = resolved.push(value);
            assert(all_well_formed(next)) by {
                assert forall|i: int| 0 <= i < next.len() implies value_well_formed(
                    #[trigger] next[i],
                ) by {
                    if i < resolved.len() {
                        assert(next[i] == resolved[i]);
                    }
                }
            }
            lemma_resolve_values_well_formed(values, from + 1, next, ctx, replies, first.next);
        }
    }
}

proof fn lemma_resolve_entries_well_formed(
    entries: Seq<(Seq<char>, ValueModel)>,
    from: nat,
    resolved: Seq<(Seq<char>, ValueModel)>,
    ctx: CtxModel,
    replies: Seq<ReplyModel>,
    at: nat,
)
    requires
        values_well_formed(entries),
        values_well_formed(resolved),
        value_well_formed(ctx.value),
        replies_well_formed(replies),
    ensures
        resolve_entries(entries, from, resolved, ctx, replies, at).step matches StepModel::Done(
            out,
        ) ==> values_well_formed(out),
    decreases entries, 0nat, entries.len() - from,
{
    if from < entries.len() {
        law_resolve_keeps_values_well_formed(entries[from as int].1, ctx, replies, at);
        let first = resolve(entries[from as int].1, ctx, replies, at);
        if let StepModel::Done(value) = first.step {
            let next = resolved.push((entries[from as int].0, value));
            assert(values_well_formed(next)) by {
                assert forall|i: int| 0 <= i < next.len() implies value_well_formed(
                    (#[trigger] next[i]).1,
                ) by {
                    if i < resolved.len() {
                        assert(next[i] == resolved[i]);
                    }
                }
            }
            lemma_resolve_entries_well_formed(entries, from + 1, next, ctx, replies, first.next);
        }
    }
}

/// A well-formed value resolved on a well-formed value over well-formed
/// replies is a well-formed value: every dictionary that comes out is a map.
pub proof fn law_resolve_keeps_values_well_formed(
    value: ValueModel,
    ctx: CtxModel,
    replies: Seq<ReplyModel>,
    at: nat,
)
    requires
        value_well_formed(value),
        value_well_formed(ctx.value),
        replies_well_formed(replies),
    ensures
        resolve(value, ctx, replies, at).step matches StepModel::Done(out) ==> value_well_formed(
            out,
        ),
    decreases value, 1nat, 0nat,
{
    match value {
        ValueModel::Pipeline(items) => {
            law_pipelines_keep_values_well_formed(items, ctx, replies, at);
        },
        ValueModel::Vec(values) => {
            lemma_resolve_values_well_formed(values, 0, Seq::empty(), ctx, replies, at);
        },
        ValueModel::Tuple(values) => {
            lemma_resolve_values_well_formed(values, 0, Seq::empty(), ctx, replies, at);
        },
        ValueModel::Dictionary(entries) => {
            lemma_resolve_entries_well_formed(entries, 0, Seq::empty(), ctx, replies, at);
            if resolve(value, ctx, replies, at).step is Done {
                law_resolve_keeps_the_keys(entries, ctx, replies, at);
            }
        },
        ValueModel::Range(range) => {
            law_resolve_keeps_values_well_formed(*range.start, ctx, replies, at);
            let first = resolve(*range.start, ctx, replies, at);
            if first.step is Done {
                law_resolve_keeps_values_well_formed(*range.end, ctx, replies, first.next);
            }
        },
        _ => {},
    }
}

proof fn lemma_take_branch_well_formed(
    branch: Option<ValueModel>,
    ctx: CtxModel,
    replies: Seq<ReplyModel>,
    at: nat,
)
    requires
        option_well_formed(branch),
        value_well_formed(ctx.value),
        replies_well_formed(replies),
    ensures
        take_branch(branch, ctx, replies, at).step matches StepModel::Done(last)
            ==> value_well_formed(last.value),
    decreases branch, 0nat, 0nat,
{
    if let Some(ValueModel::Pipeline(items)) = branch {
        law_pipelines_keep_values_well_formed(items, ctx, replies, at);
    }
}

proof fn lemma_filter_well_formed(
    items: Seq<ItemModel>,
    elements: Seq<ValueModel>,
    from: nat,
    kept: Seq<ValueModel>,
    ctx: CtxModel,
    replies: Seq<ReplyModel>,
    at: nat,
)
    requires
        all_well_formed(elements),
        all_well_formed(kept),
    ensures
        filter_from(items, elements, from, kept, ctx, replies, at).step matches StepModel::Done(
            last,
        ) ==> value_well_formed(last.value),
    decreases elements.len() - from,
{
    if from < elements.len() {
        let element = elements[from as int];
        let run = process_value(items, ctx.element(from, element), replies, at);
        match run.step {
            StepModel::Done(_) => {
                let next = kept.push(element);
                assert(all_well_formed(next)) by {
                    assert forall|i: int| 0 <= i < next.len() implies value_well_formed(
                        #[trigger] next[i],
                    ) by {
                        if i < kept.len() {
                            assert(next[i] == kept[i]);
                        }
                    }
                }
                lemma_filter_well_formed(items, elements, from + 1, next, ctx, replies, run.next);
            },
            StepModel::Failed(error) => {
                if !error.is_fatal() {
                    lemma_filter_well_formed(items, elements, from + 1, kept, ctx, replies, run.next);
                }
            },
            StepModel::Suspended(_) => {},
        }
    }
}

proof fn lemma_prepended_is_well_formed(argument: ValueModel, ctx: CtxModel)
    requires
        value_well_formed(argument),
        value_well_formed(ctx.value),
    ensures
        crate::semantics::prepend(argument, ctx) matches Ok(last) ==> value_well_formed(last.value),
{
    if let ValueModel::Vec(values) = ctx.value {
        let out = seq![argument] + values;
        assert(all_well_formed(values));
        assert forall|i: int| 0 <= i < out.len() implies value_well_formed(#[trigger] out[i]) by {
            if i > 0 {
                assert(out[i] == values[i - 1]);
            }
        }
        assert(all_well_formed(out));
        assert(value_well_formed(ValueModel::Vec(out)));
    }
}

proof fn lemma_truncated_is_well_formed(length: ValueModel, ctx: CtxModel)
    requires
        value_well_formed(ctx.value),
    ensures
        crate::semantics::truncate(length, ctx) matches Ok(last) ==> value_well_formed(last.value),
{
    if let ValueModel::Vec(values) = ctx.value {
        assert(all_well_formed(values));
        assert forall|n: int| 0 <= n <= values.len() implies #[trigger] all_well_formed(
            values.take(n),
        ) by {
            let part = values.take(n);
            assert forall|i: int| 0 <= i < part.len() implies value_well_formed(
                #[trigger] part[i],
            ) by {
                assert(part[i] == values[i]);
            }
        }
        if let ValueModel::I64(n) = length {
            if n >= 0 {
                let kept = values.take(crate::semantics::shorter(n as int, values.len() as int));
                assert(all_well_formed(kept));
                assert(value_well_formed(ValueModel::Vec(kept)));
            }
        }
    }
}

proof fn lemma_gte_well_formed(
    item: ItemModel,
    ctx: CtxModel,
    replies: Seq<ReplyModel>,
    at: nat,
)
    requires
        item is Gte,
        item_well_formed(item),
        value_well_formed(ctx.value),
        replies_well_formed(replies),
    ensures
        call(item, ctx, replies, at).step matches StepModel::Done(last) ==> value_well_formed(
            last.value,
        ),
    decreases item, 0nat, 0nat,
{
    reveal(call);
    if let ItemModel::Gte { argument } = item {
        law_resolve_keeps_values_well_formed(argument, ctx, replies, at);
    }
}

proof fn lemma_pad_end_well_formed(
    item: ItemModel,
    ctx: CtxModel,
    replies: Seq<ReplyModel>,
    at: nat,
)
    requires
        item is PadEnd,
        item_well_formed(item),
        value_well_formed(ctx.value),
        replies_well_formed(replies),
    ensures
        call(item, ctx, replies, at).step matches StepModel::Done(last) ==> value_well_formed(
            last.value,
        ),
    decreases item, 0nat, 0nat,
{
    reveal(call);
    if let ItemModel::PadEnd { width, fill } = item {
        law_resolve_keeps_values_well_formed(width, ctx, replies, at);
    }
}

proof fn lemma_prepend_well_formed(
    item: ItemModel,
    ctx: CtxModel,
    replies: Seq<ReplyModel>,
    at: nat,
)
    requires
        item is Prepend,
        item_well_formed(item),
        value_well_formed(ctx.value),
        replies_well_formed(replies),
    ensures
        call(item, ctx, replies, at).step matches StepModel::Done(last) ==> value_well_formed(
            last.value,
        ),
    decreases item, 0nat, 0nat,
{
    reveal(call);
    if let ItemModel::Prepend { argument } = item {
        law_resolve_keeps_values_well_formed(argument, ctx, replies, at);
        if let StepModel::Done(first) = resolve(argument, ctx, replies, at).step {
            lemma_prepended_is_well_formed(first, ctx);
        }
    }
}

proof fn lemma_truncate_well_formed(
    item: ItemModel,
    ctx: CtxModel,
    replies: Seq<ReplyModel>,
    at: nat,
)
    requires
        item is Truncate,
        item_well_formed(item),
        value_well_formed(ctx.value),
        replies_well_formed(replies),
    ensures
        call(item, ctx, replies, at).step matches StepModel::Done(last) ==> value_well_formed(
            last.value,
        ),
    decreases item, 0nat, 0nat,
{
    reveal(call);
    if let ItemModel::Truncate { argument } = item {
        law_resolve_keeps_values_well_formed(argument, ctx, replies, at);
        if let StepModel::Done(length) = resolve(argument, ctx, replies, at).step {
            lemma_truncated_is_well_formed(length, ctx);
        }
    }
}

proof fn lemma_branching_items_well_formed(
    item: ItemModel,
    ctx: CtxModel,
    replies: Seq<ReplyModel>,
    at: nat,
)
    requires
        item is If || item is Filter,
        item_well_formed(item),
        value_well_formed(ctx.value),
        replies_well_formed(replies),
    ensures
        call(item, ctx, replies, at).step matches StepModel::Done(last) ==> value_well_formed(
            last.value,
        ),
    decreases item, 0nat, 0nat,
{
    reveal(call);
    match item {
        ItemModel::If { cond, then_branch, else_branch } => {
            let decision = crate::semantics::decide(cond, ctx, replies, at);
            if let StepModel::Done(valid) = decision.step {
                lemma_take_branch_well_formed(
                    if valid {
                        then_branch
                    } else {
                        else_branch
                    },
                    ctx,
                    replies,
                    decision.next,
                );
            }
        },
        ItemModel::Filter { pipeline } => {
            if let ValueModel::Vec(elements) = ctx.value {
                lemma_filter_well_formed(pipeline, elements, 0, Seq::empty(), ctx, replies, at);
            }
        },
        _ => {},
    }
}

proof fn lemma_plain_items_well_formed(
    item: ItemModel,
    ctx: CtxModel,
    replies: Seq<ReplyModel>,
    at: nat,
)
    requires
        !(item is Gte || item is Prepend || item is Truncate || item is PadEnd || item is If
            || item is Filter),
        value_well_formed(ctx.value),
        replies_well_formed(replies),
    ensures
        call(item, ctx, replies, at).step matches StepModel::Done(last) ==> value_well_formed(
            last.value,
        ),
{
    reveal(call);
}

/// A well-formed item run on a well-formed value over well-formed replies
/// hands on a well-formed value: no item makes a dictionary that is no map.
pub proof fn law_items_keep_values_well_formed(
    item: ItemModel,
    ctx: CtxModel,
    replies: Seq<ReplyModel>,
    at: nat,
)
    requires
        item_well_formed(item),
        value_well_formed(ctx.value),
        replies_well_formed(replies),
    ensures
        call(item, ctx, replies, at).step matches StepModel::Done(last) ==> value_well_formed(
            last.value,
        ),
    decreases item, 1nat, 0nat,
{
    if item is Gte {
        lemma_gte_well_formed(item, ctx, replies, at);
    } else if item is PadEnd {
        lemma_pad_end_well_formed(item, ctx, replies, at);
    } else if item is Prepend {
        lemma_prepend_well_formed(item, ctx, replies, at);
    } else if item is Truncate {
        lemma_truncate_well_formed(item, ctx, replies, at);
    } else if item is If || item is Filter {
        lemma_branching_items_well_formed(item, ctx, replies, at);
    } else {
        lemma_plain_items_well_formed(item, ctx, replies, at);
    }
}

} // verus!
