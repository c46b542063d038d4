//! The errors that a request can end in, and the one place where an error
//! becomes an HTTP status.

use crate::storage::{FailureView, StorageFailure};
use vstd::prelude::*;

verus! {

/// The status of a request that was served.
pub const STATUS_OK: u16 = 200;

/// The status of a request whose body is no entry.
pub const STATUS_BAD_REQUEST: u16 = 400;

/// The status of a request that the storage failed.
pub const STATUS_INTERNAL_SERVER_ERROR: u16 = 500;

/// Why a request was not served.
#[derive(Clone, Debug, PartialEq, Eq)]
pub enum ServiceError {
    /// The request body is not valid JSON or lacks a required field.
    MalformedRequest,
    /// The storage failed; the failure says how, for the server's eyes only.
    Storage(StorageFailure),
}

/// The mathematical value of a [`ServiceError`].
pub ghost enum ServiceErrorView {
    MalformedRequest,
    Storage(FailureView),
}

impl View for ServiceError {
    type V = ServiceErrorView;

    open spec fn view(&self) -> ServiceErrorView {
        match self {
            ServiceError::MalformedRequest => ServiceErrorView::MalformedRequest,
            ServiceError::Storage(failure) => ServiceErrorView::Storage(failure@),
        }
    }
}

/// The HTTP status that an error is answered with.
pub open spec fn error_status(error: ServiceErrorView) -> u16 {
    match error {
        ServiceErrorView::MalformedRequest => STATUS_BAD_REQUEST,
        ServiceErrorView::Storage(_) => STATUS_INTERNAL_SERVER_ERROR,
    }
}

impl ServiceError {
    /// The HTTP status that this error is answered with.
    pub fn status(&self) -> (status: u16)
        ensures
            status == error_status(self@),
    {
        match self {
            ServiceError::MalformedRequest => STATUS_BAD_REQUEST,
            ServiceError::Storage(_) => STATUS_INTERNAL_SERVER_ERROR,
        }
    }
}

} // verus!
