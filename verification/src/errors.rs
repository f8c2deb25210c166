//! The library's error type and how each error is reported.

use vstd::prelude::*;
use crate::text::joined;

verus! {

/// What can go wrong while serving a request or running a job.
#[derive(Debug)]
pub enum AppError {
    SubmissionNotFound(String),
    InvalidRequest(String),
    SandboxError(String),
    Internal(String),
}

/// The one-line description of an error.
pub open spec fn error_text(e: AppError) -> Seq<char> {
    match e {
        AppError::SubmissionNotFound(id) => "Submission "@ + id@ + " not found"@,
        AppError::InvalidRequest(m) => "Invalid request: "@ + m@,
        AppError::SandboxError(m) => "Sandbox error: "@ + m@,
        AppError::Internal(m) => "Internal error: "@ + m@,
    }
}

/// The HTTP status an error is answered with.
pub open spec fn error_status(e: AppError) -> u16 {
    match e {
        AppError::SubmissionNotFound(_) => 404,
        AppError::InvalidRequest(_) => 400,
        AppError::SandboxError(_) => 500,
        AppError::Internal(_) => 500,
    }
}

/// The machine-readable error kind in an error response body.
pub open spec fn error_kind(e: AppError) -> Seq<char> {
    match e {
        AppError::SubmissionNotFound(_) => "SUBMISSION_NOT_FOUND"@,
        AppError::InvalidRequest(_) => "INVALID_REQUEST"@,
        AppError::SandboxError(_) => "SANDBOX_ERROR"@,
        AppError::Internal(_) => "INTERNAL_ERROR"@,
    }
}

/// The human-readable message in an error response body.
pub open spec fn error_message(e: AppError) -> Seq<char> {
    match e {
        AppError::SubmissionNotFound(id) => "Submission "@ + id@ + " not found"@,
        AppError::InvalidRequest(m) => m@,
        AppError::SandboxError(m) => m@,
        AppError::Internal(m) => m@,
    }
}

impl AppError {
    /// The one-line description of the error.
    pub fn describe(&self) -> (r: String)
        ensures
            r@ == error_text(*self),
    {
        match self {
            AppError::SubmissionNotFound(id) => {
                let head = joined("Submission ", id.as_str());
                joined(head.as_str(), " not found")
            },
            AppError::InvalidRequest(m) => joined("Invalid request: ", m.as_str()),
            AppError::SandboxError(m) => joined("Sandbox error: ", m.as_str()),
            AppError::Internal(m) => joined("Internal error: ", m.as_str()),
        }
    }

    /// The HTTP status the error is answered with.
    pub fn status_code(&self) -> (r: u16)
        ensures
            r == error_status(*self),
    {
        match self {
            AppError::SubmissionNotFound(_) => 404,
            AppError::InvalidRequest(_) => 400,
            AppError::SandboxError(_) => 500,
            AppError::Internal(_) => 500,
        }
    }

    /// The error kind named in the response body.
    pub fn kind(&self) -> (r: &'static str)
        ensures
            r@ == error_kind(*self),
    {
        match self {
            AppError::SubmissionNotFound(_) => "SUBMISSION_NOT_FOUND",
            AppError::InvalidRequest(_) => "INVALID_REQUEST",
            AppError::SandboxError(_) => "SANDBOX_ERROR",
            AppError::Internal(_) => "INTERNAL_ERROR",
        }
    }

    /// The message in the response body.
    pub fn message(&self) -> (r: String)
        ensures
            r@ == error_message(*self),
    {
        match self {
            AppError::SubmissionNotFound(id) => {
                let head = joined("Submission ", id.as_str());
                joined(head.as_str(), " not found")
            },
            AppError::InvalidRequest(m) => m.clone(),
            AppError::SandboxError(m) => m.clone(),
            AppError::Internal(m) => m.clone(),
        }
    }

    /// The error an I/O failure becomes, given the failure's description.
    pub fn from_io_text(detail: &str) -> (r: AppError)
        ensures
            r matches AppError::Internal(m) && m@ == "I/O Error: "@ + detail@,
    {
        AppError::Internal(joined("I/O Error: ", detail))
    }
}

/// A missing submission is answered 404 and a refused request 400, every
/// other error 500; the body's message is the error's own text, which the
/// one-line description ends with.
pub proof fn law_error_answers(e: AppError)
    ensures
        (error_status(e) == 404) == (e is SubmissionNotFound),
        (error_status(e) == 400) == (e is InvalidRequest),
        (e is SandboxError || e is Internal) ==> error_status(e) == 500,
        error_text(e).len() >= error_message(e).len(),
        error_text(e).subrange(error_text(e).len() - error_message(e).len(), error_text(e).len() as int)
            == error_message(e),
{
    let t = error_text(e);
    let m = error_message(e);
    assert(t.subrange(t.len() - m.len(), t.len() as int) =~= m);
}

} // verus!
