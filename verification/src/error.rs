use vstd::prelude::*;

use crate::artifact::{ArtifactId, ArtifactKey};

verus! {

/// Why a workflow call ended without its result. Every failure is final for
/// the call that met it: nothing is retried and nothing is regenerated.
#[derive(Debug, PartialEq, Eq)]
pub enum Error {
    /// A required cached artifact is absent; setup has to run first.
    MissingArtifact(ArtifactKey),
    /// The artifact is cached but its bytes do not decode.
    Corrupt(ArtifactKey),
    /// The proof engine rejected its inputs; the text is the engine's own.
    EngineFailure(String),
}

/// The mathematical content of an [`Error`].
pub enum ErrorView {
    MissingArtifact(ArtifactId),
    Corrupt(ArtifactId),
    EngineFailure(Seq<char>),
}

impl View for Error {
    type V = ErrorView;

    open spec fn view(&self) -> ErrorView {
        match self {
            Error::MissingArtifact(key) => ErrorView::MissingArtifact(key@),
            Error::Corrupt(key) => ErrorView::Corrupt(key@),
            Error::EngineFailure(reason) => ErrorView::EngineFailure(reason@),
        }
    }
}

/// The mathematical content of a result that may carry an [`Error`].
pub open spec fn outcome_view<T: View>(outcome: Result<T, Error>) -> Result<T::V, ErrorView> {
    match outcome {
        Ok(value) => Ok(value@),
        Err(error) => Err(error@),
    }
}

} // verus!
