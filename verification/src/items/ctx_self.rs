use vstd::prelude::*;
use crate::context::Ctx;
use crate::error::Error;
use crate::model::{outcome_model, ItemModel};
use crate::semantics;
use crate::value::Value;

verus! {

/// `self`: puts the object the pipeline is evaluated against in place of the value.
#[derive(Clone, Copy, Debug)]
pub struct SelfItem {}

impl SelfItem {
    pub fn new() -> (item: Self)
        ensures
            item@ == ItemModel::CtxSelf,
    {
        Self {  }
    }

    /// The frame with the bound object as its value; a fatal failure where no
    /// object is bound.
    pub fn call(&self, ctx: Ctx) -> (result: Result<Ctx, Error>)
        ensures
            outcome_model(result) == semantics::ctx_self(ctx@),
    {
        match ctx.object {
            Some(object) => Ok(ctx.with_value(Value::Object(object))),
            None => Err(ctx.internal_server_error("self: ctx object does not exist")),
        }
    }
}

} // verus!
