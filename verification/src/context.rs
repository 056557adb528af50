//! The execution frame that is threaded through a pipeline.

use vstd::prelude::*;
use crate::error::Error;
use crate::model::{path_model, CtxModel, PathItemModel};
use crate::value::{Object, Value};

verus! {

/// One step of a path into a record: a field name or a position in a sequence.
#[derive(Debug)]
pub enum PathItem {
    Key(String),
    Index(usize),
}

impl Clone for PathItem {
    fn clone(&self) -> (p: PathItem)
        ensures
            p@ == self@,
    {
        match self {
            PathItem::Key(k) => PathItem::Key(k.clone()),
            PathItem::Index(i) => PathItem::Index(*i),
        }
    }
}

/// A copy of a path.
pub fn clone_path(path: &Vec<PathItem>) -> (p: Vec<PathItem>)
    ensures
        path_model(p@) == path_model(path@),
{
    let mut out: Vec<PathItem> = Vec::new();
    let mut i: usize = 0;
    while i < path.len()
        invariant
            i <= path.len(),
            out@.len() == i,
            forall|j: int| 0 <= j < i ==> out@[j]@ == path@[j]@,
        decreases path.len() - i,
    {
        out.push(path[i].clone());
        i += 1;
    }
    out
}

/// The shape of the operation that surrounds an evaluation.
#[derive(Clone, Copy, Debug, PartialEq, Eq, Structural)]
pub enum Intent {
    SingleResult,
    ManyResult,
    NestedManyResult,
}

/// The frame one pipeline step consumes and the next one receives. A step never
/// changes a frame: it builds a new one.
#[derive(Debug)]
pub struct Ctx {
    pub value: Value,
    pub path: Vec<PathItem>,
    pub object: Option<Object>,
    pub intent: Intent,
}

impl Clone for Ctx {
    fn clone(&self) -> (c: Ctx)
        ensures
            c@ == self@,
    {
        Ctx {
            value: self.value.clone(),
            path: clone_path(&self.path),
            object: self.object,
            intent: self.intent,
        }
    }
}

impl Ctx {
    /// The frame a free-standing evaluation starts from: the given value at the
    /// empty path, no bound object, a single result expected.
    pub fn initial_state_with_value(value: Value) -> (c: Ctx)
        ensures
            c@ == CtxModel::initial(value@),
    {
        let c = Ctx { value, path: Vec::new(), object: None, intent: Intent::SingleResult };
        assert(c@.path =~= Seq::<PathItemModel>::empty());
        c
    }

    /// The value under evaluation.
    pub fn get_value(&self) -> (v: &Value)
        ensures
            *v == self.value,
    {
        &self.value
    }

    /// This frame with another value.
    pub fn with_value(&self, value: Value) -> (c: Ctx)
        ensures
            c@ == self@.with_value(value@),
    {
        Ctx { value, path: clone_path(&self.path), object: self.object, intent: self.intent }
    }

    /// This frame at another path.
    pub fn with_path(&self, path: Vec<PathItem>) -> (c: Ctx)
        ensures
            c@ == self@.with_path(path_model(path@)),
    {
        Ctx { value: self.value.clone(), path, object: self.object, intent: self.intent }
    }

    /// This frame bound to an object, or to none.
    pub fn with_object(&self, object: Option<Object>) -> (c: Ctx)
        ensures
            c@ == self@.with_object(object),
    {
        Ctx { value: self.value.clone(), path: clone_path(&self.path), object, intent: self.intent }
    }

    /// This frame under another intent.
    pub fn with_intent(&self, intent: Intent) -> (c: Ctx)
        ensures
            c@ == self@.with_intent(intent),
    {
        Ctx { value: self.value.clone(), path: clone_path(&self.path), object: self.object, intent }
    }

    /// The path of this frame extended by a position.
    pub fn path_at_index(&self, index: usize) -> (p: Vec<PathItem>)
        ensures
            path_model(p@) == self@.path.push(PathItemModel::Index(index as nat)),
    {
        let mut p = clone_path(&self.path);
        let ghost before = p@;
        p.push(PathItem::Index(index));
        p
    }

    /// A fatal failure at this frame's path.
    pub fn internal_server_error(&self, message: &str) -> (e: Error)
        ensures
            e@ == self@.fatal(message@),
    {
        Error::internal_server_error(clone_path(&self.path), message)
    }

    /// A validation failure at this frame's path.
    pub fn with_invalid(&self, reason: &str) -> (e: Error)
        ensures
            e@ == self@.invalid(reason@),
    {
        Error::validation_error(clone_path(&self.path), reason)
    }
}

} // verus!
