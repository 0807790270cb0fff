//! Error kinds of the pipeline and the containment policy over them: only
//! `Fatal` may terminate the process, every other kind is absorbed at the
//! strategy boundary.

use vstd::prelude::*;

verus! {

/// Every failure class the pipeline distinguishes.
#[derive(Clone, Copy, PartialEq, Eq, Structural, Debug)]
pub enum ErrorKind {
    /// A network or timeout failure during polling or simulation; the caller
    /// continues on the next tick or retries a bounded number of times.
    TransientIo,
    /// Malformed or inconsistent pool or trade data; the candidate
    /// opportunity is dropped, processing continues.
    InvalidContext,
    /// The solver found no profitable response trade; a normal outcome.
    NoOpportunity,
    /// The bundle failed simulation; the opportunity is dropped.
    SimulationRejected,
    /// An unrecoverable setup failure; the only kind that ends the process.
    Fatal,
}

impl ErrorKind {
    /// Only `Fatal` is allowed to unwind past the dispatcher.
    pub open spec fn is_fatal(self) -> bool {
        self is Fatal
    }

    /// Runtime test matching `is_fatal`.
    pub fn fatal(&self) -> (r: bool)
        ensures
            r == self.is_fatal(),
    {
        matches!(self, ErrorKind::Fatal)
    }
}

/// The solver's failure cases.
#[derive(Clone, Copy, PartialEq, Eq, Structural, Debug)]
pub enum SolveError {
    /// No response trade clears the required margin; frequent and expected.
    NoOpportunity,
    /// The context's pool or trade data is malformed.
    InvalidContext,
}

impl SolveError {
    /// The pipeline-wide kind a solver failure maps to; neither is fatal.
    pub open spec fn kind(self) -> ErrorKind {
        match self {
            SolveError::NoOpportunity => ErrorKind::NoOpportunity,
            SolveError::InvalidContext => ErrorKind::InvalidContext,
        }
    }

    /// Maps the solver failure into the pipeline-wide kind.
    pub fn to_kind(&self) -> (k: ErrorKind)
        ensures
            k == self.kind(),
            !k.is_fatal(),
    {
        match self {
            SolveError::NoOpportunity => ErrorKind::NoOpportunity,
            SolveError::InvalidContext => ErrorKind::InvalidContext,
        }
    }
}

} // verus!
