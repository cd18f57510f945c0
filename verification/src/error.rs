//! The fixed set of failures that registration and execution report.

use vstd::prelude::*;

verus! {

/// Makes `std::io::Error` known to the verifier as a type without visible
/// content. Nothing is claimed of what such a value holds: it is carried
/// from the report that brings it to the caller and never inspected on the
/// way.
#[verifier::external_type_specification]
#[verifier::external_body]
pub struct ExIoError(std::io::Error);

/// Every way in which registering or running an artifact can fail.
#[derive(Debug)]
pub enum ServiceError {
    /// The process could not be started, or could not be waited for.
    SpawnError(std::io::Error),
    /// The process ran and exited with this nonzero code.
    ExecutionError(i32),
    /// The process ended without an exit code.
    NoStatusCode,
    /// The handle is unknown, or its entry was consumed by an earlier run.
    UploadedFileNotFound { id: String },
    /// The output sink refused a line.
    StreamError,
    /// The artifact could not be written under its handle's directory.
    FileSaveError { id: String, path: String },
}

/// A [`ServiceError`] with its texts as character sequences.
pub enum ServiceErrorView {
    SpawnError(std::io::Error),
    ExecutionError(i32),
    NoStatusCode,
    UploadedFileNotFound { id: Seq<char> },
    StreamError,
    FileSaveError { id: Seq<char>, path: Seq<char> },
}

impl View for ServiceError {
    type V = ServiceErrorView;

    open spec fn view(&self) -> ServiceErrorView {
        match *self {
            ServiceError::SpawnError(e) => ServiceErrorView::SpawnError(e),
            ServiceError::ExecutionError(code) => ServiceErrorView::ExecutionError(code),
            ServiceError::NoStatusCode => ServiceErrorView::NoStatusCode,
            ServiceError::UploadedFileNotFound { id } => ServiceErrorView::UploadedFileNotFound {
                id: id@,
            },
            ServiceError::StreamError => ServiceErrorView::StreamError,
            ServiceError::FileSaveError { id, path } => ServiceErrorView::FileSaveError {
                id: id@,
                path: path@,
            },
        }
    }
}

/// The view of a failure that may have been met.
pub open spec fn failure_view(failure: Option<ServiceError>) -> Option<ServiceErrorView> {
    match failure {
        Some(error) => Some(error@),
        None => None,
    }
}

/// The view of a run's result.
pub open spec fn outcome_view(outcome: Result<(), ServiceError>) -> Result<(), ServiceErrorView> {
    match outcome {
        Ok(()) => Ok(()),
        Err(error) => Err(error@),
    }
}

} // verus!
