use vstd::prelude::*;
use vstd::string::StrSliceExecFns;
use crate::context::Ctx;
use crate::error::Error;
use crate::model::{outcome_model, replies_model, values_model, ItemModel};
use crate::semantics;
use crate::transcript::{settle, Reply, Run, Step};
use crate::value::Value;

verus! {

/// `truncate`: cuts a string or a sequence down to a length.
#[derive(Debug)]
pub struct TruncateItem {
    pub argument: Value,
}

impl Clone for TruncateItem {
    fn clone(&self) -> (item: Self)
        ensures
            item@ == self@,
    {
        TruncateItem { argument: self.argument.clone() }
    }
}

impl TruncateItem {
    /// The item that cuts down to the length the value given, as it is.
    pub fn from_value(argument: Value) -> (item: Self)
        ensures
            item.argument == argument,
            item@ == (ItemModel::Truncate { argument: argument@ }),
    {
        Self { argument }
    }

    /// The item that cuts down to the length `argument`.
    pub fn new<T: Into<Value>>(argument: T) -> (item: Self)
        ensures
            call_ensures(<T as Into<Value>>::into, (argument,), item.argument),
    {
        Self { argument: argument.into() }
    }

    /// Resolves the length on the frame, then cuts the frame's value down to it.
    pub fn call(&self, ctx: Ctx, replies: &Vec<Reply>, at: usize) -> (run: Run<Ctx>)
        ensures
            run@ == semantics::call(self@, ctx@, replies_model(replies@), at as nat),
        decreases self, 0nat, 0nat,
    {
        proof {
            reveal(semantics::call);
        }
        let argument = self.argument.resolve(&ctx, replies, at);
        let next = argument.next;
        match argument.step {
            Step::Done(length) => settle(Self::cut(&length, ctx), next),
            Step::Failed(error) => Run { step: Step::Failed(error), next },
            Step::Suspended(request) => Run { step: Step::Suspended(request), next },
        }
    }

    /// The frame with its string cut down to its first `length` characters, or
    /// its sequence to its first `length` elements; a value that is no longer
    /// stays as it is. A fatal failure where the length is no non-negative
    /// 64-bit integer, or the value neither a string nor a sequence.
    pub fn cut(length: &Value, ctx: Ctx) -> (result: Result<Ctx, Error>)
        ensures
            outcome_model(result) == semantics::truncate(length@, ctx@),
    {
        match length.as_i64() {
            None => Err(ctx.internal_server_error("truncate: length is not integer")),
            Some(n) => {
                if n < 0 {
                    return Err(ctx.internal_server_error("truncate: length is negative"));
                }
                match &ctx.value {
                    Value::String(s) => {
                        let len = s.as_str().unicode_len();
                        let keep: usize = if (n as u64) < (len as u64) {
                            n as usize
                        } else {
                            len
                        };
                        let cut = s.as_str().substring_char(0, keep).to_owned();
                        Ok(ctx.with_value(Value::String(cut)))
                    },
                    Value::Vec(values) => {
                        let len = values.len();
                        let keep: usize = if (n as u64) < (len as u64) {
                            n as usize
                        } else {
                            len
                        };
                        let mut out: Vec<Value> = Vec::new();
                        let mut i: usize = 0;
                        while i < keep
                            invariant
                                i <= keep <= values.len(),
                                out@.len() == i,
                                forall|j: int| 0 <= j < i ==> out@[j]@ == values@[j]@,
                            decreases keep - i,
                        {
                            out.push(values[i].clone());
                            i += 1;
                        }
                        assert(values_model(out@) =~= values_model(values@).take(keep as int));
                        Ok(ctx.with_value(Value::Vec(out)))
                    },
                    _ => Err(ctx.internal_server_error("truncate: value is not string or vector")),
                }
            },
        }
    }
}

} // verus!
