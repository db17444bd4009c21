//! The error kinds that the service reports to its callers.

use vstd::prelude::*;

verus! {

/// What went wrong; it decides the response status.
#[derive(Debug, Clone, Copy, PartialEq, Eq, Structural)]
pub enum ErrorKind {
    /// The request is malformed or breaks a rule (400).
    BadRequest,
    /// No usable credentials were presented (401).
    Unauthorized,
    /// The credentials are known but may not be used (403).
    Forbidden,
    /// The addressed record does not exist or was deleted (404).
    NotFound,
    /// The service configuration is incomplete.
    Config,
    /// Anything else that went wrong inside the service (500).
    Internal,
}

/// An error with the message shown to the caller.
#[derive(Debug)]
pub struct AppError {
    pub kind: ErrorKind,
    pub message: String,
}

impl AppError {
    /// Whether this error has the given kind and message.
    pub open spec fn is(self, kind: ErrorKind, message: Seq<char>) -> bool {
        self.kind == kind && self.message@ == message
    }

    pub fn new(kind: ErrorKind, message: &str) -> (r: AppError)
        ensures
            r.is(kind, message@),
    {
        AppError { kind, message: String::from_str(message) }
    }

    pub fn bad_request(message: &str) -> (r: AppError)
        ensures
            r.is(ErrorKind::BadRequest, message@),
    {
        Self::new(ErrorKind::BadRequest, message)
    }

    pub fn unauthorized(message: &str) -> (r: AppError)
        ensures
            r.is(ErrorKind::Unauthorized, message@),
    {
        Self::new(ErrorKind::Unauthorized, message)
    }

    pub fn forbidden(message: &str) -> (r: AppError)
        ensures
            r.is(ErrorKind::Forbidden, message@),
    {
        Self::new(ErrorKind::Forbidden, message)
    }

    pub fn not_found(message: &str) -> (r: AppError)
        ensures
            r.is(ErrorKind::NotFound, message@),
    {
        Self::new(ErrorKind::NotFound, message)
    }

    pub fn config(message: &str) -> (r: AppError)
        ensures
            r.is(ErrorKind::Config, message@),
    {
        Self::new(ErrorKind::Config, message)
    }

    pub fn internal(message: &str) -> (r: AppError)
        ensures
            r.is(ErrorKind::Internal, message@),
    {
        Self::new(ErrorKind::Internal, message)
    }
}

} // verus!
