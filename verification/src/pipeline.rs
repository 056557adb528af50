//! An ordered sequence of items, evaluated strictly in order.

use vstd::prelude::*;
use std::sync::Arc;
use vstd::std_specs::cmp::PartialEqSpecImpl;
use crate::context::{clone_path, Ctx};
use crate::error::Error;
use crate::item::Item;
use crate::model::{replies_model, ItemModel};
use crate::semantics;
use crate::transcript::{Reply, Run, Step};
use crate::value::Value;

verus! {

/// An ordered sequence of shared items.
#[derive(Debug)]
pub struct Pipeline {
    pub items: Vec<Arc<Item>>,
}

/// Another handle on a shared item. This is `Arc::clone` of the standard
/// library: the new handle points to the same item, so the two are equal.
#[verifier::external_body]
fn share(item: &Arc<Item>) -> (handle: Arc<Item>)
    ensures
        handle == *item,
{
    Arc::clone(item)
}

impl Pipeline {
    /// The pipeline without items.
    pub fn new() -> (p: Pipeline)
        ensures
            p@ == Seq::<ItemModel>::empty(),
            p.items@ == Seq::<Arc<Item>>::empty(),
    {
        Pipeline { items: Vec::new() }
    }

    /// Whether the pipeline holds an item.
    pub fn has_any_items(&self) -> (b: bool)
        ensures
            b == (self@.len() > 0),
    {
        self.items.len() > 0
    }

    /// Runs the items in order, each on the frame the one before it left, and
    /// hands back the last frame. The first failure ends the run.
    pub fn process_with_ctx_result(&self, ctx: Ctx, replies: &Vec<Reply>, at: usize) -> (run: Run<
        Ctx,
    >)
        ensures
            run@ == semantics::process(self@, ctx@, replies_model(replies@), at as nat),
        decreases self, 0nat, 0nat,
    {
        let ghost items = self@;
        let ghost given = replies_model(replies@);
        let ghost goal = semantics::process(items, ctx@, given, at as nat);
        let mut current = ctx;
        let mut next: usize = at;
        let mut i: usize = 0;
        while i < self.items.len()
            invariant
                i <= self.items.len(),
                items == self@,
                given == replies_model(replies@),
                goal == semantics::process(self@, ctx@, replies_model(replies@), at as nat),
                semantics::process_from(items, i as nat, current@, given, next as nat) == goal,
            decreases self.items.len() - i,
        {
            let run = self.items[i].call(current, replies, next);
            match run.step {
                Step::Done(after) => {
                    current = after;
                },
                Step::Failed(error) => {
                    return Run { step: Step::Failed(error), next: run.next };
                },
                Step::Suspended(request) => {
                    return Run { step: Step::Suspended(request), next: run.next };
                },
            }
            next = run.next;
            i += 1;
        }
        Run { step: Step::Done(current), next }
    }

    /// Runs the pipeline for the value it ends with.
    pub fn process(&self, ctx: Ctx, replies: &Vec<Reply>, at: usize) -> (run: Run<Value>)
        ensures
            run@ == semantics::process_value(self@, ctx@, replies_model(replies@), at as nat),
        decreases self, 1nat, 0nat,
    {
        let run = self.process_with_ctx_result(ctx, replies, at);
        let next = run.next;
        match run.step {
            Step::Done(last) => Run { step: Step::Done(last.value), next },
            Step::Failed(error) => Run { step: Step::Failed(error), next },
            Step::Suspended(request) => Run { step: Step::Suspended(request), next },
        }
    }

    /// Runs the pipeline as a permission check: it allows where it runs to its
    /// end. A fatal failure is handed on; any other failure becomes a denial
    /// at the path of the frame the check started from, with no word of the
    /// reason.
    pub fn process_into_permission_result(&self, ctx: Ctx, replies: &Vec<Reply>, at: usize) -> (run:
        Run<()>)
        ensures
            run@ == semantics::permission(self@, ctx@, replies_model(replies@), at as nat),
    {
        let path = clone_path(&ctx.path);
        let run = self.process(ctx, replies, at);
        let next = run.next;
        match run.step {
            Step::Done(_) => Run { step: Step::Done(()), next },
            Step::Failed(error) => {
                if error.is_server_error() {
                    Run { step: Step::Failed(error), next }
                } else {
                    Run { step: Step::Failed(Error::permission_error(path, "permission denied")), next }
                }
            },
            Step::Suspended(request) => Run { step: Step::Suspended(request), next },
        }
    }
}

/// No pipeline equals a pipeline: not one built from the same items, not one
/// that shares them. Items hold what cannot be compared, so a pipeline can be
/// told apart by identity alone, and a comparison of values never finds it.
impl PartialEq for Pipeline {
    fn eq(&self, other: &Self) -> (equal: bool)
        ensures
            !equal,
    {
        false
    }
}

impl PartialEqSpecImpl for Pipeline {
    open spec fn obeys_eq_spec() -> bool {
        true
    }

    open spec fn eq_spec(&self, other: &Self) -> bool {
        false
    }
}

impl Clone for Pipeline {
    /// A pipeline over the same shared items.
    fn clone(&self) -> (p: Pipeline)
        ensures
            p@ == self@,
    {
        let mut items: Vec<Arc<Item>> = Vec::new();
        let mut i: usize = 0;
        while i < self.items.len()
            invariant
                i <= self.items.len(),
                items@.len() == i,
                forall|j: int| 0 <= j < i ==> items@[j] == self.items@[j],
            decreases self.items.len() - i,
        {
            items.push(share(&self.items[i]));
            i += 1;
        }
        Pipeline { items }
    }
}

} // verus!
