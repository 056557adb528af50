use vstd::prelude::*;
use crate::context::Ctx;
use crate::error::Error;
use crate::model::{outcome_model, ItemModel};
use crate::semantics;
use crate::text::title_case;
use crate::value::Value;

verus! {

/// `toTitleCase`: turns a string into its title-case form.
#[derive(Clone, Copy, Debug)]
pub struct ToTitleCaseItem {}

impl ToTitleCaseItem {
    pub fn new() -> (item: Self)
        ensures
            item@ == ItemModel::ToTitleCase,
    {
        Self {  }
    }

    /// The frame with its string in title case; a fatal failure where the
    /// value is no string.
    pub fn call(&self, ctx: Ctx) -> (result: Result<Ctx, Error>)
        ensures
            outcome_model(result) == semantics::to_title_case(ctx@),
    {
        match ctx.get_value() {
            Value::String(s) => Ok(ctx.with_value(Value::String(title_case(s.as_str())))),
            _ => Err(ctx.internal_server_error("value is not string")),
        }
    }
}

} // verus!
