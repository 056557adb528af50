use vstd::prelude::*;
use crate::context::Ctx;
use crate::error::Error;
use crate::model::{outcome_model, ItemModel};
use crate::semantics;
use crate::text::is_all_alphabetic;

verus! {

/// `isAlphabetic`: accepts a string of alphabetic characters.
#[derive(Clone, Copy, Debug)]
pub struct IsAlphabeticItem {}

impl IsAlphabeticItem {
    pub fn new() -> (item: Self)
        ensures
            item@ == ItemModel::IsAlphabetic,
    {
        Self {  }
    }

    /// The frame as it is where every character of its string is alphabetic;
    /// a validation failure where one is not; a fatal failure where the value
    /// is no string.
    pub fn call(&self, ctx: Ctx) -> (result: Result<Ctx, Error>)
        ensures
            outcome_model(result) == semantics::is_alphabetic(ctx@),
    {
        match ctx.value.as_str() {
            None => Err(ctx.internal_server_error("isAlphabetic: value is not string")),
            Some(s) => {
                let alphabetic = is_all_alphabetic(s);
                Self::judge(alphabetic, ctx)
            },
        }
    }

    /// What the item answers for a string once its characters have been looked at.
    pub fn judge(alphabetic: bool, ctx: Ctx) -> (result: Result<Ctx, Error>)
        ensures
            outcome_model(result) == (if alphabetic {
                Ok(ctx@)
            } else {
                Err(ctx@.invalid("value is not alphabetic"@))
            }),
    {
        if alphabetic {
            Ok(ctx)
        } else {
            Err(ctx.with_invalid("value is not alphabetic"))
        }
    }
}

} // verus!
