use vstd::prelude::*;
use crate::context::Ctx;
use crate::error::Error;
use crate::model::{outcome_model, replies_model, ItemModel};
use crate::order::Order;
use crate::semantics;
use crate::transcript::{settle, Reply, Run, Step};
use crate::value::Value;

verus! {

/// `gte`: accepts a value that is not below the argument.
#[derive(Debug)]
pub struct GteItem {
    pub argument: Value,
}

impl Clone for GteItem {
    fn clone(&self) -> (item: Self)
        ensures
            item@ == self@,
    {
        GteItem { argument: self.argument.clone() }
    }
}

impl GteItem {
    /// The item that compares with the value given, as it is.
    pub fn from_value(argument: Value) -> (item: Self)
        ensures
            item.argument == argument,
            item@ == (ItemModel::Gte { argument: argument@ }),
    {
        Self { argument }
    }

    /// The item that compares with `argument`.
    pub fn new<T: Into<Value>>(argument: T) -> (item: Self)
        ensures
            call_ensures(<T as Into<Value>>::into, (argument,), item.argument),
    {
        Self { argument: argument.into() }
    }

    /// Resolves the argument on the frame, then compares the frame's value
    /// with it.
    pub fn call(&self, ctx: Ctx, replies: &Vec<Reply>, at: usize) -> (run: Run<Ctx>)
        ensures
            run@ == semantics::call(self@, ctx@, replies_model(replies@), at as nat),
        decreases self, 0nat, 0nat,
    {
        proof {
            reveal(semantics::call);
        }
        let argument = self.argument.resolve(&ctx, replies, at);
        let next = argument.next;
        match argument.step {
            Step::Done(rhs) => settle(Self::compare(&rhs, ctx), next),
            Step::Failed(error) => Run { step: Step::Failed(error), next },
            Step::Suspended(request) => Run { step: Step::Suspended(request), next },
        }
    }

    /// The frame as it is where its value is at least `rhs`; a validation
    /// failure where it is below; a fatal failure where the two have no order.
    pub fn compare(rhs: &Value, ctx: Ctx) -> (result: Result<Ctx, Error>)
        ensures
            outcome_model(result) == semantics::gte(rhs@, ctx@),
    {
        match ctx.value.order(rhs) {
            Some(Order::Less) => Err(
                ctx.with_invalid("gt: value is not greater than or equal to rhs"),
            ),
            Some(_) => Ok(ctx),
            None => Err(ctx.internal_server_error("gte: value cannot be compared with rhs")),
        }
    }
}

} // verus!
