//! Failures of pipeline evaluation and their classes.

use vstd::prelude::*;
use crate::context::{clone_path, PathItem};
use crate::model::{path_model, ErrorModel};

verus! {

/// The class of a failure. Only `InternalServerError` is fatal.
#[derive(Clone, Copy, Debug, PartialEq, Eq, Structural)]
pub enum ErrorType {
    /// A defect of the schema or of the program, or a failure of the connector.
    InternalServerError,
    /// The value under evaluation did not pass a check.
    ValidationError,
    /// A permission pipeline denied the operation.
    PermissionError,
}

/// A failure: its class, a message, and the path of the value it is about.
#[derive(Debug)]
pub struct Error {
    pub kind: ErrorType,
    pub message: String,
    pub path: Vec<PathItem>,
}

impl Error {
    /// A fatal failure with the given message, attributed to `path`.
    pub fn internal_server_error(path: Vec<PathItem>, message: &str) -> (e: Error)
        ensures
            e@ == ErrorModel::internal(path_model(path@), message@),
    {
        Error { kind: ErrorType::InternalServerError, message: message.to_owned(), path }
    }

    /// A recoverable failure: the value at `path` is invalid for the given reason.
    pub fn validation_error(path: Vec<PathItem>, reason: &str) -> (e: Error)
        ensures
            e@ == ErrorModel::invalid(path_model(path@), reason@),
    {
        Error { kind: ErrorType::ValidationError, message: reason.to_owned(), path }
    }

    /// A denial at `path`.
    pub fn permission_error(path: Vec<PathItem>, message: &str) -> (e: Error)
        ensures
            e@ == ErrorModel::denied(path_model(path@), message@),
    {
        Error { kind: ErrorType::PermissionError, message: message.to_owned(), path }
    }

    /// Whether the failure is fatal.
    pub fn is_server_error(&self) -> (b: bool)
        ensures
            b == self@.is_fatal(),
    {
        self.kind == ErrorType::InternalServerError
    }
}

impl Clone for Error {
    fn clone(&self) -> (e: Error)
        ensures
            e@ == self@,
    {
        Error { kind: self.kind, message: self.message.clone(), path: clone_path(&self.path) }
    }
}

} // verus!
