use vstd::prelude::*;
use crate::context::Ctx;
use crate::model::{replies_model, values_model, ItemModel, ValueModel};
use crate::pipeline::Pipeline;
use crate::semantics;
use crate::transcript::{Reply, Run, Step};
use crate::value::Value;

verus! {

/// `filter`: keeps the elements of a sequence that pass a pipeline.
#[derive(Debug)]
pub struct FilterItem {
    pub pipeline: Pipeline,
}

impl Clone for FilterItem {
    fn clone(&self) -> (item: Self)
        ensures
            item@ == self@,
    {
        FilterItem { pipeline: self.pipeline.clone() }
    }
}

impl FilterItem {
    pub fn new(pipeline: Pipeline) -> (item: Self)
        ensures
            item@ == (ItemModel::Filter { pipeline: pipeline@ }),
    {
        FilterItem { pipeline }
    }

    /// Runs each element of the frame's sequence through the pipeline, in
    /// order, and hands on the frame with the elements that passed. The first
    /// fatal failure ends the run; a fatal failure too where the value is no
    /// sequence.
    pub fn call(&self, ctx: Ctx, replies: &Vec<Reply>, at: usize) -> (run: Run<Ctx>)
        ensures
            run@ == semantics::call(self@, ctx@, replies_model(replies@), at as nat),
        decreases self, 0nat, 0nat,
    {
        proof {
            reveal(semantics::call);
        }
        match ctx.value.as_vec() {
            None => Run {
                step: Step::Failed(ctx.internal_server_error("filter: value is not vector")),
                next: at,
            },
            Some(elements) => {
                let ghost items = self.pipeline@;
                let ghost frame = ctx@;
                let ghost given = replies_model(replies@);
                let ghost all = values_model(elements@);
                let ghost goal = semantics::call(self@, frame, given, at as nat);
                let mut kept: Vec<Value> = Vec::new();
                let mut next: usize = at;
                let mut i: usize = 0;
                assert(values_model(kept@) =~= Seq::<ValueModel>::empty());
                while i < elements.len()
                    invariant
                        i <= elements.len(),
                        items == self.pipeline@,
                        frame == ctx@,
                        given == replies_model(replies@),
                        all == values_model(elements@),
                        ctx.value == Value::Vec(*elements),
                        goal == semantics::call(self@, ctx@, replies_model(replies@), at as nat),
                        semantics::filter_from(
                            items,
                            all,
                            i as nat,
                            values_model(kept@),
                            frame,
                            given,
                            next as nat,
                        ) == goal,
                    decreases elements.len() - i,
                {
                    let element = &elements[i];
                    let element_ctx = ctx.with_value(element.clone()).with_path(
                        ctx.path_at_index(i),
                    );
                    let run = self.pipeline.process(element_ctx, replies, next);
                    let ghost before = values_model(kept@);
                    match run.step {
                        Step::Done(_) => {
                            kept.push(element.clone());
                            assert(values_model(kept@) =~= before.push(all[i as int]));
                        },
                        Step::Failed(error) => {
                            if error.is_server_error() {
                                return Run { step: Step::Failed(error), next: run.next };
                            }
                        },
                        Step::Suspended(request) => {
                            return Run { step: Step::Suspended(request), next: run.next };
                        },
                    }
                    next = run.next;
                    i += 1;
                }
                Run { step: Step::Done(ctx.with_value(Value::Vec(kept))), next }
            },
        }
    }
}

} // verus!
