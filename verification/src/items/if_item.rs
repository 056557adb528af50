use vstd::prelude::*;
use crate::context::Ctx;
use crate::model::{option_value_model, replies_model, ItemModel};
use crate::semantics;
use crate::transcript::{Reply, Run, Step};
use crate::value::{clone_option, Value};

verus! {

/// `if`: decides a condition on the frame and takes one of two branches.
#[derive(Debug)]
pub struct IfItem {
    pub cond: Value,
    pub then_branch: Option<Value>,
    pub else_branch: Option<Value>,
}

impl Clone for IfItem {
    fn clone(&self) -> (item: Self)
        ensures
            item@ == self@,
    {
        IfItem {
            cond: self.cond.clone(),
            then_branch: clone_option(&self.then_branch),
            else_branch: clone_option(&self.else_branch),
        }
    }
}

impl IfItem {
    pub fn new(cond: Value, then_branch: Option<Value>, else_branch: Option<Value>) -> (item: Self)
        ensures
            item@ == (ItemModel::If {
                cond: cond@,
                then_branch: option_value_model(then_branch),
                else_branch: option_value_model(else_branch),
            }),
    {
        IfItem { cond, then_branch, else_branch }
    }

    /// Decides the condition, then takes the branch it selects. A fatal
    /// failure of a condition pipeline is the outcome, with no branch taken.
    pub fn call(&self, ctx: Ctx, replies: &Vec<Reply>, at: usize) -> (run: Run<Ctx>)
        ensures
            run@ == semantics::call(self@, ctx@, replies_model(replies@), at as nat),
        decreases self, 1nat, 0nat,
    {
        proof {
            reveal(semantics::call);
        }
        let decision = self.decide(&ctx, replies, at);
        let next = decision.next;
        match decision.step {
            Step::Done(valid) => {
                if valid {
                    self.take(true, ctx, replies, next)
                } else {
                    self.take(false, ctx, replies, next)
                }
            },
            Step::Failed(error) => Run { step: Step::Failed(error), next },
            Step::Suspended(request) => Run { step: Step::Suspended(request), next },
        }
    }

    /// The condition decided on the frame.
    pub fn decide(&self, ctx: &Ctx, replies: &Vec<Reply>, at: usize) -> (run: Run<bool>)
        ensures
            run@ == semantics::decide(self.cond@, ctx@, replies_model(replies@), at as nat),
        decreases self, 0nat, 0nat,
    {
        match &self.cond {
            Value::Null => Run { step: Step::Done(false), next: at },
            Value::Bool(b) => Run { step: Step::Done(*b), next: at },
            Value::Pipeline(p) => {
                let probe = p.process(ctx.clone(), replies, at);
                let next = probe.next;
                match probe.step {
                    Step::Done(_) => Run { step: Step::Done(true), next },
                    Step::Failed(error) => {
                        if error.is_server_error() {
                            Run { step: Step::Failed(error), next }
                        } else {
                            Run { step: Step::Done(false), next }
                        }
                    },
                    Step::Suspended(request) => Run { step: Step::Suspended(request), next },
                }
            },
            _ => Run {
                step: Step::Failed(
                    ctx.internal_server_error("if: condition is not null, bool or pipeline"),
                ),
                next: at,
            },
        }
    }

    /// The branch for a decided condition taken on the frame.
    pub fn take(&self, valid: bool, ctx: Ctx, replies: &Vec<Reply>, at: usize) -> (run: Run<Ctx>)
        ensures
            run@ == semantics::take_branch(
                if valid {
                    option_value_model(self.then_branch)
                } else {
                    option_value_model(self.else_branch)
                },
                ctx@,
                replies_model(replies@),
                at as nat,
            ),
        decreases self, 0nat, 0nat,
    {
        let branch = if valid {
            &self.then_branch
        } else {
            &self.else_branch
        };
        match branch {
            None => Run { step: Step::Done(ctx), next: at },
            Some(Value::Pipeline(p)) => {
                let run = p.process(ctx.clone(), replies, at);
                let next = run.next;
                match run.step {
                    Step::Done(value) => Run { step: Step::Done(ctx.with_value(value)), next },
                    Step::Failed(error) => Run { step: Step::Failed(error), next },
                    Step::Suspended(request) => Run { step: Step::Suspended(request), next },
                }
            },
            Some(value) => Run { step: Step::Done(ctx.with_value(value.clone())), next: at },
        }
    }
}

} // verus!
