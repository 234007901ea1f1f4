//! Failures of a cast session or of a single command.

use vstd::prelude::*;

verus! {

/// Why a session could not be started, ended early, or a command was refused.
#[derive(Debug, PartialEq, Eq)]
pub enum CastError {
    /// The device protocol reported a failure; the text is the protocol
    /// layer's own description of it.
    ProtocolError(String),
    /// The device runs no receiver application.
    NoActiveApplication,
    /// The receiver application has no media loaded.
    NoActiveMedia,
    /// A local file or socket could not be set up.
    IoError(String),
    /// An internal invariant was violated.
    CasterError(String),
}

/// Mathematical value of a [`CastError`].
pub enum CastErrorView {
    ProtocolError(Seq<char>),
    NoActiveApplication,
    NoActiveMedia,
    IoError(Seq<char>),
    CasterError(Seq<char>),
}

impl View for CastError {
    type V = CastErrorView;

    open spec fn view(&self) -> CastErrorView {
        match self {
            CastError::ProtocolError(reason) => CastErrorView::ProtocolError(reason@),
            CastError::NoActiveApplication => CastErrorView::NoActiveApplication,
            CastError::NoActiveMedia => CastErrorView::NoActiveMedia,
            CastError::IoError(reason) => CastErrorView::IoError(reason@),
            CastError::CasterError(reason) => CastErrorView::CasterError(reason@),
        }
    }
}

impl CastError {
    /// An independent copy of the error.
    pub fn duplicate(&self) -> (copy: CastError)
        ensures
            copy@ == self@,
    {
        match self {
            CastError::ProtocolError(reason) => CastError::ProtocolError(reason.clone()),
            CastError::NoActiveApplication => CastError::NoActiveApplication,
            CastError::NoActiveMedia => CastError::NoActiveMedia,
            CastError::IoError(reason) => CastError::IoError(reason.clone()),
            CastError::CasterError(reason) => CastError::CasterError(reason.clone()),
        }
    }
}

/// Mathematical value of a command's or a session's outcome.
pub open spec fn outcome_view(outcome: Result<(), CastError>) -> Result<(), CastErrorView> {
    match outcome {
        Ok(()) => Ok(()),
        Err(error) => Err(error@),
    }
}

} // verus!
