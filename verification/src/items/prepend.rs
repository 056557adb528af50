use vstd::prelude::*;
use vstd::string::StringExecFns;
use crate::context::Ctx;
use crate::error::Error;
use crate::model::{outcome_model, replies_model, values_model, ItemModel};
use crate::semantics;
use crate::transcript::{settle, Reply, Run, Step};
use crate::value::Value;

verus! {

/// `prepend`: puts the argument in front of a string or of a sequence.
#[derive(Debug)]
pub struct PrependItem {
    pub argument: Value,
}

impl Clone for PrependItem {
    fn clone(&self) -> (item: Self)
        ensures
            item@ == self@,
    {
        PrependItem { argument: self.argument.clone() }
    }
}

impl PrependItem {
    /// The item that puts in front the value given, as it is.
    pub fn from_value(argument: Value) -> (item: Self)
        ensures
            item.argument == argument,
            item@ == (ItemModel::Prepend { argument: argument@ }),
    {
        Self { argument }
    }

    /// The item that puts `argument` in front.
    pub fn new<T: Into<Value>>(argument: T) -> (item: Self)
        ensures
            call_ensures(<T as Into<Value>>::into, (argument,), item.argument),
    {
        Self { argument: argument.into() }
    }

    /// Resolves the argument on the frame, then puts it in front of the
    /// frame's value.
    pub fn call(&self, ctx: Ctx, replies: &Vec<Reply>, at: usize) -> (run: Run<Ctx>)
        ensures
            run@ == semantics::call(self@, ctx@, replies_model(replies@), at as nat),
        decreases self, 0nat, 0nat,
    {
        proof {
            reveal(semantics::call);
        }
        let argument = self.argument.resolve(&ctx, replies, at);
        let next = argument.next;
        match argument.step {
            Step::Done(value) => settle(Self::put_in_front(value, ctx), next),
            Step::Failed(error) => Run { step: Step::Failed(error), next },
            Step::Suspended(request) => Run { step: Step::Suspended(request), next },
        }
    }

    /// The frame with `argument` in front of its value: joined to a string,
    /// where both are strings, or as the first element of a sequence. A fatal
    /// failure where the value is neither, or a string meets another argument.
    pub fn put_in_front(argument: Value, ctx: Ctx) -> (result: Result<Ctx, Error>)
        ensures
            outcome_model(result) == semantics::prepend(argument@, ctx@),
    {
        match &ctx.value {
            Value::String(s) => match argument.as_str() {
                Some(a) => {
                    let joined = a.to_owned().concat(s.as_str());
                    Ok(ctx.with_value(Value::String(joined)))
                },
                None => Err(ctx.internal_server_error("Argument does not resolve to string.")),
            },
            Value::Vec(values) => {
                let ghost head = argument@;
                let mut out: Vec<Value> = Vec::new();
                out.push(argument);
                let mut i: usize = 0;
                while i < values.len()
                    invariant
                        i <= values.len(),
                        out@.len() == i + 1,
                        out@[0]@ == head,
                        forall|j: int| 0 <= j < i ==> out@[j + 1]@ == values@[j]@,
                    decreases values.len() - i,
                {
                    out.push(values[i].clone());
                    i += 1;
                }
                assert(values_model(out@) =~= seq![head] + values_model(values@));
                Ok(ctx.with_value(Value::Vec(out)))
            },
            _ => Err(ctx.internal_server_error("Value is not string or vector.")),
        }
    }
}

} // verus!
