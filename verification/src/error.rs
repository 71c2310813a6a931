//! The failures that the daemon reports.

use vstd::prelude::*;

verus! {

/// Why an operation of the daemon failed.
#[derive(Debug, PartialEq, Eq)]
pub enum DaemonError {
    /// A state cell could not be locked.
    StateUnavailable,
    /// Expanding a pattern, reading or writing a device file failed; `path`
    /// is the pattern or file that was tried.
    DeviceIOError { path: String },
    /// A request carried a value outside the range of its enumeration.
    InvalidArgument,
    /// The memory-pressure subsystem failed.
    CollaboratorError,
    /// The bus connection or a registration on it failed.
    TransportError,
}

/// A [`DaemonError`] with its path as a sequence of characters.
pub enum ErrorView {
    StateUnavailable,
    DeviceIOError { path: Seq<char> },
    InvalidArgument,
    CollaboratorError,
    TransportError,
}

impl View for DaemonError {
    type V = ErrorView;

    open spec fn view(&self) -> ErrorView {
        match self {
            DaemonError::StateUnavailable => ErrorView::StateUnavailable,
            DaemonError::DeviceIOError { path } => ErrorView::DeviceIOError { path: path@ },
            DaemonError::InvalidArgument => ErrorView::InvalidArgument,
            DaemonError::CollaboratorError => ErrorView::CollaboratorError,
            DaemonError::TransportError => ErrorView::TransportError,
        }
    }
}

/// A result with its error given by its view.
pub open spec fn failure_view<T>(result: Result<T, DaemonError>) -> Result<T, ErrorView> {
    match result {
        Ok(value) => Ok(value),
        Err(e) => Err(e@),
    }
}

impl Clone for DaemonError {
    fn clone(&self) -> (c: DaemonError)
        ensures
            c@ == self@,
    {
        match self {
            DaemonError::StateUnavailable => DaemonError::StateUnavailable,
            DaemonError::DeviceIOError { path } => DaemonError::DeviceIOError { path: path.clone() },
            DaemonError::InvalidArgument => DaemonError::InvalidArgument,
            DaemonError::CollaboratorError => DaemonError::CollaboratorError,
            DaemonError::TransportError => DaemonError::TransportError,
        }
    }
}

} // verus!
