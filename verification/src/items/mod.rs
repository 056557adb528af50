//! The items, one module each.

pub mod ctx_self;
pub mod filter;
pub mod gte;
pub mod if_item;
pub mod is_alphabetic;
pub mod is_email;
pub mod is_null;
pub mod pad_end;
pub mod prepend;
pub mod print;
pub mod query_raw;
pub mod to_lower_case;
pub mod to_title_case;
pub mod truncate;
