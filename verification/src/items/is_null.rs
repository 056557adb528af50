use vstd::prelude::*;
use crate::context::Ctx;
use crate::error::Error;
use crate::model::{outcome_model, ItemModel};
use crate::semantics;

verus! {

/// `isNull`: accepts the null value only.
#[derive(Clone, Copy, Debug)]
pub struct IsNullItem {}

impl IsNullItem {
    pub fn new() -> (item: Self)
        ensures
            item@ == ItemModel::IsNull,
    {
        Self {  }
    }

    /// The frame as it is where its value is null; a validation failure
    /// where it is anything else.
    pub fn call(&self, ctx: Ctx) -> (result: Result<Ctx, Error>)
        ensures
            outcome_model(result) == semantics::is_null(ctx@),
    {
        if ctx.value.is_null() {
            Ok(ctx)
        } else {
            Err(ctx.with_invalid("isNull: value is not null"))
        }
    }
}

} // verus!
