use vstd::prelude::*;
use crate::context::Ctx;
use crate::error::Error;
use crate::model::{outcome_model, ItemModel};
use crate::semantics;
use crate::text::lowercase;
use crate::value::Value;

verus! {

/// `toLowerCase`: turns a string into its lowercase form.
#[derive(Clone, Copy, Debug)]
pub struct ToLowerCaseItem {}

impl ToLowerCaseItem {
    pub fn new() -> (item: Self)
        ensures
            item@ == ItemModel::ToLowerCase,
    {
        Self {  }
    }

    /// The frame with its string in lowercase; a fatal failure where the value
    /// is no string.
    pub fn call(&self, ctx: Ctx) -> (result: Result<Ctx, Error>)
        ensures
            outcome_model(result) == semantics::to_lower_case(ctx@),
    {
        match ctx.get_value() {
            Value::String(s) => Ok(ctx.with_value(Value::String(lowercase(s.as_str())))),
            _ => Err(ctx.internal_server_error("lowercase: value is not string")),
        }
    }
}

} // verus!
