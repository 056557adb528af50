use vstd::prelude::*;
use crate::context::Ctx;
use crate::model::{replies_model, ItemModel};
use crate::semantics;
use crate::transcript::{Reply, Request, Run, Step};
use crate::value::Value;

verus! {

/// `queryRaw`: sends the frame's value to the connection as a query and puts
/// the answer in its place.
///
/// The query the item is built with is what the schema wrote in the item's
/// place. It tells one `queryRaw` item from another and is never sent: the
/// query that is sent is the value the item finds in the frame, so a pipeline
/// that is to send a query of its own puts it there first.
#[derive(Debug)]
pub struct QueryRawItem {
    pub query: Value,
}

impl Clone for QueryRawItem {
    fn clone(&self) -> (item: Self)
        ensures
            item@ == self@,
    {
        QueryRawItem { query: self.query.clone() }
    }
}

impl QueryRawItem {
    /// The item as the schema wrote it, with the query it names.
    pub fn new(query: Value) -> (item: Self)
        ensures
            item@ == (ItemModel::QueryRaw { query: query@ }),
    {
        QueryRawItem { query }
    }

    /// Sends the frame's value as a query, read off the replies: the request
    /// to send it where the driver has not answered yet; the frame with the
    /// connection's answer as its value, the rest of it as it was; the
    /// connection's failure as it came; a fatal failure where the reply at
    /// this position is no answer to a query.
    pub fn call(&self, ctx: Ctx, replies: &Vec<Reply>, at: usize) -> (run: Run<Ctx>)
        ensures
            run@ == semantics::call(self@, ctx@, replies_model(replies@), at as nat),
            run@ == semantics::perform_query(
                ctx@.value,
                ctx@,
                replies_model(replies@),
                at as nat,
            ),
    {
        proof {
            reveal(semantics::call);
        }
        if at >= replies.len() {
            Run { step: Step::Suspended(Request::QueryRaw { query: ctx.value.clone() }), next: at }
        } else {
            match &replies[at] {
                Reply::QueryResult(Ok(answer)) => Run {
                    step: Step::Done(ctx.with_value(answer.clone())),
                    next: at + 1,
                },
                Reply::QueryResult(Err(error)) => Run {
                    step: Step::Failed(error.clone()),
                    next: at + 1,
                },
                Reply::Printed => Run {
                    step: Step::Failed(ctx.internal_server_error("queryRaw: the reply is no answer")),
                    next: at + 1,
                },
            }
        }
    }
}

} // verus!
