//! Wrappers that run a pipeline only under a given intent. A modifier routes:
//! it never rejects a frame itself, and what its pipeline reports is handed
//! on beside the frame.

use vstd::prelude::*;
use crate::context::{Ctx, Intent};
use crate::model::{replies_model, CtxModel, ItemModel, ReplyModel, StepModel};
use crate::pipeline::Pipeline;
use crate::semantics::process;
use crate::transcript::{Reply, Step};

verus! {

/// What a modifier hands back: a frame in every case, and beside it how the
/// guarded pipeline fared.
#[derive(Debug)]
pub struct Routed {
    /// The last frame of the guarded pipeline where it ran to its end; the
    /// frame that was given in every other case.
    pub ctx: Ctx,
    /// `Done` where the pipeline ran to its end or was not run; its failure
    /// or its request otherwise.
    pub status: Step<()>,
    /// The position of the first reply that was not used.
    pub next: usize,
}

/// What a [`Routed`] is.
pub struct RoutedModel {
    pub ctx: CtxModel,
    pub status: StepModel<()>,
    pub next: nat,
}

impl View for Routed {
    type V = RoutedModel;

    open spec fn view(&self) -> RoutedModel {
        RoutedModel { ctx: self.ctx@, status: self.status@, next: self.next as nat }
    }
}

/// A frame routed through a pipeline that is guarded by an intent: under that
/// intent the pipeline is run on the frame, under any other the frame passes
/// as it is and no reply is used.
pub open spec fn route(
    target: Intent,
    items: Seq<ItemModel>,
    ctx: CtxModel,
    replies: Seq<ReplyModel>,
    at: nat,
) -> RoutedModel {
    if ctx.intent == target {
        let run = process(items, ctx, replies, at);
        match run.step {
            StepModel::Done(last) => RoutedModel {
                ctx: last,
                status: StepModel::Done(()),
                next: run.next,
            },
            StepModel::Failed(error) => RoutedModel {
                ctx,
                status: StepModel::Failed(error),
                next: run.next,
            },
            StepModel::Suspended(request) => RoutedModel {
                ctx,
                status: StepModel::Suspended(request),
                next: run.next,
            },
        }
    } else {
        RoutedModel { ctx, status: StepModel::Done(()), next: at }
    }
}

fn run_guarded(pipeline: &Pipeline, ctx: Ctx, replies: &Vec<Reply>, at: usize) -> (routed: Routed)
    ensures
        routed@ == route(ctx.intent, pipeline@, ctx@, replies_model(replies@), at as nat),
{
    let run = pipeline.process_with_ctx_result(ctx.clone(), replies, at);
    let next = run.next;
    match run.step {
        Step::Done(last) => Routed { ctx: last, status: Step::Done(()), next },
        Step::Failed(error) => Routed { ctx, status: Step::Failed(error), next },
        Step::Suspended(request) => Routed { ctx, status: Step::Suspended(request), next },
    }
}

/// Runs its pipeline where many results are expected.
#[derive(Debug)]
pub struct WhenManyResultsModifier {
    pub pipeline: Pipeline,
}

impl Clone for WhenManyResultsModifier {
    fn clone(&self) -> (m: Self)
        ensures
            m.pipeline@ == self.pipeline@,
    {
        WhenManyResultsModifier { pipeline: self.pipeline.clone() }
    }
}

impl WhenManyResultsModifier {
    pub fn new(pipeline: Pipeline) -> (m: Self)
        ensures
            m.pipeline == pipeline,
    {
        WhenManyResultsModifier { pipeline }
    }

    pub fn name(&self) -> (name: &'static str)
        ensures
            name@ == "whenManyResults"@,
    {
        "whenManyResults"
    }

    /// Routes the frame: through the pipeline where the intent is
    /// `ManyResult`, past it otherwise.
    pub fn call(&self, ctx: Ctx, replies: &Vec<Reply>, at: usize) -> (routed: Routed)
        ensures
            routed@ == route(
                Intent::ManyResult,
                self.pipeline@,
                ctx@,
                replies_model(replies@),
                at as nat,
            ),
    {
        match ctx.intent {
            Intent::ManyResult => run_guarded(&self.pipeline, ctx, replies, at),
            _ => Routed { ctx, status: Step::Done(()), next: at },
        }
    }
}

/// Runs its pipeline where many results of a nested relation are expected.
#[derive(Debug)]
pub struct WhenNestedManyResultsModifier {
    pub pipeline: Pipeline,
}

impl Clone for WhenNestedManyResultsModifier {
    fn clone(&self) -> (m: Self)
        ensures
            m.pipeline@ == self.pipeline@,
    {
        WhenNestedManyResultsModifier { pipeline: self.pipeline.clone() }
    }
}

impl WhenNestedManyResultsModifier {
    pub fn new(pipeline: Pipeline) -> (m: Self)
        ensures
            m.pipeline == pipeline,
    {
        WhenNestedManyResultsModifier { pipeline }
    }

    pub fn name(&self) -> (name: &'static str)
        ensures
            name@ == "whenNestedManyResults"@,
    {
        "whenNestedManyResults"
    }

    /// Routes the frame: through the pipeline where the intent is
    /// `NestedManyResult`, past it otherwise.
    pub fn call(&self, ctx: Ctx, replies: &Vec<Reply>, at: usize) -> (routed: Routed)
        ensures
            routed@ == route(
                Intent::NestedManyResult,
                self.pipeline@,
                ctx@,
                replies_model(replies@),
                at as nat,
            ),
    {
        match ctx.intent {
            Intent::NestedManyResult => run_guarded(&self.pipeline, ctx, replies, at),
            _ => Routed { ctx, status: Step::Done(()), next: at },
        }
    }
}

} // verus!
