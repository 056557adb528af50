use vstd::prelude::*;
use crate::context::Ctx;
use crate::model::{label_model, replies_model, ItemModel};
use crate::semantics;
use crate::transcript::{Reply, Request, Run, Step};
use crate::value::{clone_option, Value};

verus! {

/// `print`: has the value printed, after a label if one is given, and hands
/// the frame on as it is.
#[derive(Debug)]
pub struct PrintItem {
    pub label: Option<Value>,
}

impl Clone for PrintItem {
    fn clone(&self) -> (item: Self)
        ensures
            item@ == self@,
    {
        PrintItem { label: clone_option(&self.label) }
    }
}

impl PrintItem {
    pub fn new(label: Option<Value>) -> (item: Self)
        ensures
            item@ == (ItemModel::Print { label: crate::model::option_value_model(label) }),
    {
        Self { label }
    }

    /// Resolves the label, if there is one, then asks for the print. A fatal
    /// failure where the label resolves to anything but a string.
    pub fn call(&self, ctx: Ctx, replies: &Vec<Reply>, at: usize) -> (run: Run<Ctx>)
        ensures
            run@ == semantics::call(self@, ctx@, replies_model(replies@), at as nat),
        decreases self, 0nat, 0nat,
    {
        proof {
            reveal(semantics::call);
        }
        match &self.label {
            None => Self::emit(None, ctx, replies, at),
            Some(label) => {
                let resolved = label.resolve(&ctx, replies, at);
                let next = resolved.next;
                match resolved.step {
                    Step::Done(Value::String(text)) => Self::emit(Some(text), ctx, replies, next),
                    Step::Done(_) => Run {
                        step: Step::Failed(ctx.internal_server_error("print: label is not string")),
                        next,
                    },
                    Step::Failed(error) => Run { step: Step::Failed(error), next },
                    Step::Suspended(request) => Run { step: Step::Suspended(request), next },
                }
            },
        }
    }

    /// The print itself, read off the replies: the frame as it is once the
    /// driver has answered; the request where it has not answered yet.
    pub fn emit(label: Option<String>, ctx: Ctx, replies: &Vec<Reply>, at: usize) -> (run: Run<Ctx>)
        ensures
            run@ == semantics::perform_print(
                label_model(label),
                ctx@,
                replies_model(replies@),
                at as nat,
            ),
    {
        if at >= replies.len() {
            Run { step: Step::Suspended(Request::Print { label, value: ctx.value }), next: at }
        } else {
            Run { step: Step::Done(ctx), next: at + 1 }
        }
    }
}

} // verus!
