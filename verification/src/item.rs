//! The closed set of pipeline items.

use vstd::prelude::*;
use crate::context::Ctx;
use crate::model::replies_model;
use crate::semantics;
use crate::transcript::{settle, Reply, Run};
use crate::items::ctx_self::SelfItem;
use crate::items::filter::FilterItem;
use crate::items::gte::GteItem;
use crate::items::if_item::IfItem;
use crate::items::is_alphabetic::IsAlphabeticItem;
use crate::items::is_email::IsEmailItem;
use crate::items::is_null::IsNullItem;
use crate::items::pad_end::PadEndItem;
use crate::items::prepend::PrependItem;
use crate::items::print::PrintItem;
use crate::items::query_raw::QueryRawItem;
use crate::items::to_lower_case::ToLowerCaseItem;
use crate::items::to_title_case::ToTitleCaseItem;
use crate::items::truncate::TruncateItem;

verus! {

/// One atomic step of a pipeline.
#[derive(Debug)]
pub enum Item {
    Prepend(PrependItem),
    Print(PrintItem),
    If(IfItem),
    CtxSelf(SelfItem),
    QueryRaw(QueryRawItem),
    PadEnd(PadEndItem),
    ToLowerCase(ToLowerCaseItem),
    ToTitleCase(ToTitleCaseItem),
    IsAlphabetic(IsAlphabeticItem),
    IsEmail(IsEmailItem),
    Gte(GteItem),
    IsNull(IsNullItem),
    Filter(FilterItem),
    Truncate(TruncateItem),
}

impl Item {
    /// Runs the item on a frame, over the replies given from position `at` on.
    pub fn call(&self, ctx: Ctx, replies: &Vec<Reply>, at: usize) -> (run: Run<Ctx>)
        ensures
            run@ == semantics::call(self@, ctx@, replies_model(replies@), at as nat),
        decreases self, 2nat, 0nat,
    {
        proof {
            reveal(semantics::call);
        }
        match self {
            Item::Prepend(item) => item.call(ctx, replies, at),
            Item::Print(item) => item.call(ctx, replies, at),
            Item::If(item) => item.call(ctx, replies, at),
            Item::CtxSelf(item) => settle(item.call(ctx), at),
            Item::QueryRaw(item) => item.call(ctx, replies, at),
            Item::PadEnd(item) => item.call(ctx, replies, at),
            Item::ToLowerCase(item) => settle(item.call(ctx), at),
            Item::ToTitleCase(item) => settle(item.call(ctx), at),
            Item::IsAlphabetic(item) => settle(item.call(ctx), at),
            Item::IsEmail(item) => settle(item.call(ctx), at),
            Item::Gte(item) => item.call(ctx, replies, at),
            Item::IsNull(item) => settle(item.call(ctx), at),
            Item::Filter(item) => item.call(ctx, replies, at),
            Item::Truncate(item) => item.call(ctx, replies, at),
        }
    }
}

} // verus!
