use vstd::prelude::*;
use crate::context::Ctx;
use crate::error::Error;
use crate::model::{outcome_model, ItemModel};
use crate::semantics;
use crate::text::matches_pattern;

verus! {

/// The pattern an e-mail address has to match.
pub open spec fn email_pattern() -> Seq<char> {
    "^\\b[A-Za-z0-9._%+-]+@[A-Za-z0-9.-]+\\.[A-Z|a-z]{2,}\\b$"@
}

/// `isEmail`: accepts a string that has the form of an e-mail address.
#[derive(Debug)]
pub struct IsEmailItem {
    pub pattern: String,
}

impl Clone for IsEmailItem {
    fn clone(&self) -> (item: Self)
        ensures
            item@ == self@,
    {
        IsEmailItem { pattern: self.pattern.clone() }
    }
}

impl IsEmailItem {
    pub fn new() -> (item: Self)
        ensures
            item@ == (ItemModel::IsEmail { pattern: email_pattern() }),
    {
        IsEmailItem {
            pattern: "^\\b[A-Za-z0-9._%+-]+@[A-Za-z0-9.-]+\\.[A-Z|a-z]{2,}\\b$".to_owned(),
        }
    }

    /// The frame as it is where its string matches the pattern; a validation
    /// failure where it does not; a fatal failure where the value is no
    /// string, or the pattern no regular expression.
    pub fn call(&self, ctx: Ctx) -> (result: Result<Ctx, Error>)
        ensures
            outcome_model(result) == semantics::is_email(self.pattern@, ctx@),
    {
        match ctx.value.as_str() {
            Some(s) => {
                let matched = matches_pattern(self.pattern.as_str(), s);
                Self::judge(matched, ctx)
            },
            None => Err(ctx.internal_server_error("isEmail: value is not string")),
        }
    }

    /// What the item answers for a string once the pattern has been tried on it.
    pub fn judge(matched: Option<bool>, ctx: Ctx) -> (result: Result<Ctx, Error>)
        ensures
            outcome_model(result) == (match matched {
                Some(true) => Ok(ctx@),
                Some(false) => Err(ctx@.invalid("string value is not email"@)),
                None => Err(ctx@.fatal("isEmail: pattern is not a regular expression"@)),
            }),
    {
        match matched {
            Some(true) => Ok(ctx),
            Some(false) => Err(ctx.with_invalid("string value is not email")),
            None => Err(ctx.internal_server_error("isEmail: pattern is not a regular expression")),
        }
    }
}

} // verus!
