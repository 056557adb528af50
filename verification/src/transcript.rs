//! The protocol between an evaluation and whoever drives it. An evaluation
//! performs no side effect itself: where a step needs one, the run stops with
//! the request, the driver performs it and appends the reply, and the run is
//! made again over the longer list of replies.

use vstd::prelude::*;
use crate::context::Ctx;
use crate::error::Error;
use crate::model::outcome_model;
use crate::semantics::settled;
use crate::value::Value;

verus! {

/// A side effect an evaluation asks its driver for.
#[derive(Debug)]
pub enum Request {
    /// Print the value, after the label if there is one.
    Print { label: Option<String>, value: Value },
    /// Send the query to the connection and hand back what it answers.
    QueryRaw { query: Value },
}

/// What the driver answers to a request.
#[derive(Debug)]
pub enum Reply {
    /// The value was printed. A print takes any reply for this one.
    Printed,
    /// The connection's answer to a query, or its failure.
    QueryResult(Result<Value, Error>),
}

/// How far an evaluation got.
#[derive(Debug)]
pub enum Step<T> {
    /// It ran to its end with this result.
    Done(T),
    /// It stopped at this failure.
    Failed(Error),
    /// It needs the reply to this request, which the replies given so far do not hold.
    Suspended(Request),
}

/// The outcome of an evaluation over a list of replies.
#[derive(Debug)]
pub struct Run<T> {
    pub step: Step<T>,
    /// The position of the first reply the evaluation did not use.
    pub next: usize,
}

impl Clone for Request {
    fn clone(&self) -> (r: Request)
        ensures
            r@ == self@,
    {
        match self {
            Request::Print { label, value } => Request::Print {
                label: match label {
                    Some(text) => Some(text.clone()),
                    None => None,
                },
                value: value.clone(),
            },
            Request::QueryRaw { query } => Request::QueryRaw { query: query.clone() },
        }
    }
}

impl Clone for Reply {
    fn clone(&self) -> (r: Reply)
        ensures
            r@ == self@,
    {
        match self {
            Reply::Printed => Reply::Printed,
            Reply::QueryResult(Ok(value)) => Reply::QueryResult(Ok(value.clone())),
            Reply::QueryResult(Err(error)) => Reply::QueryResult(Err(error.clone())),
        }
    }
}

/// The run of an item that needs no reply: it ends where it began.
pub fn settle(result: Result<Ctx, Error>, at: usize) -> (run: Run<Ctx>)
    ensures
        run@ == settled(outcome_model(result), at as nat),
{
    match result {
        Ok(ctx) => Run { step: Step::Done(ctx), next: at },
        Err(error) => Run { step: Step::Failed(error), next: at },
    }
}

} // verus!
