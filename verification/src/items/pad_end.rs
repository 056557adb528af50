use vstd::prelude::*;
use vstd::string::StrSliceExecFns;
use crate::context::Ctx;
use crate::error::Error;
use crate::model::{outcome_model, replies_model, CtxModel, ItemModel};
use crate::semantics;
use crate::text::pad_end;
use crate::transcript::{settle, Reply, Run, Step};
use crate::value::Value;

verus! {

/// `padEnd`: pads a string on the right with a character up to a width.
#[derive(Debug)]
pub struct PadEndItem {
    pub width: Value,
    pub fill: char,
}

impl Clone for PadEndItem {
    fn clone(&self) -> (item: Self)
        ensures
            item@ == self@,
    {
        PadEndItem { width: self.width.clone(), fill: self.fill }
    }
}

/// How a frame that `padEnd` hands on stands to the one it was given: both
/// hold a string, the new one begins with the old one, all that follows is the
/// fill, and the rest of the frame is as it was.
pub open spec fn padded_from(before: CtxModel, after: CtxModel, fill: char) -> bool {
    &&& before.value is String
    &&& after.value is String
    &&& after == before.with_value(after.value)
    &&& ({
        let s = before.value->String_0;
        let t = after.value->String_0;
        s.is_prefix_of(t) && forall|i: int| s.len() <= i < t.len() ==> t[i] == fill
    })
}

impl PadEndItem {
    /// The item that pads with `fill` up to the width given, as it is.
    pub fn from_value(width: Value, fill: char) -> (item: Self)
        ensures
            item.width == width,
            item.fill == fill,
            item@ == (ItemModel::PadEnd { width: width@, fill }),
    {
        Self { width, fill }
    }

    /// The item that pads with `fill` up to `width`.
    pub fn new<T: Into<Value>>(width: T, fill: char) -> (item: Self)
        ensures
            call_ensures(<T as Into<Value>>::into, (width,), item.width),
            item.fill == fill,
    {
        Self { width: width.into(), fill }
    }

    /// Where the frame's value is a string, resolves the width on the frame
    /// and pads the string; a fatal failure where the value is no string.
    /// Where it succeeds, the new string begins with the old one and holds
    /// nothing but the fill after it.
    pub fn call(&self, ctx: Ctx, replies: &Vec<Reply>, at: usize) -> (run: Run<Ctx>)
        ensures
            run@ == semantics::call(self@, ctx@, replies_model(replies@), at as nat),
            run.step matches Step::Done(c) ==> padded_from(ctx@, c@, self.fill),
        decreases self, 0nat, 0nat,
    {
        proof {
            reveal(semantics::call);
        }
        match ctx.value.as_str() {
            None => Run {
                step: Step::Failed(ctx.internal_server_error("padEnd: value is not string")),
                next: at,
            },
            Some(_) => {
                let argument = self.width.resolve(&ctx, replies, at);
                let next = argument.next;
                match argument.step {
                    Step::Done(width) => settle(Self::pad(&width, self.fill, ctx), next),
                    Step::Failed(error) => Run { step: Step::Failed(error), next },
                    Step::Suspended(request) => Run { step: Step::Suspended(request), next },
                }
            },
        }
    }

    /// The frame with its string padded on the right with `fill` up to
    /// `width` columns: the new string begins with the old one and holds
    /// nothing but `fill` after it. A fatal failure where the value is no
    /// string, the width no 64-bit integer, or the width negative or beyond
    /// what can be padded.
    pub fn pad(width: &Value, fill: char, ctx: Ctx) -> (result: Result<Ctx, Error>)
        ensures
            outcome_model(result) == semantics::pad_end(width@, fill, ctx@),
            result matches Ok(c) ==> padded_from(ctx@, c@, fill),
    {
        match ctx.value.as_str() {
            None => Err(ctx.internal_server_error("padEnd: value is not string")),
            Some(s) => match width.as_i64() {
                None => Err(ctx.internal_server_error("padEnd: width is not integer")),
                Some(n) => {
                    let len = s.unicode_len();
                    let limit: usize = (isize::MAX as usize) / 8;
                    if n >= 0 && (n as u64) <= (limit as u64) && len <= limit - (n as usize) {
                        Ok(ctx.with_value(Value::String(pad_end(s, n as usize, fill))))
                    } else {
                        Err(ctx.internal_server_error("padEnd: width is out of range"))
                    }
                },
            },
        }
    }
}

} // verus!
