//! The error taxonomy of the pipeline.
//!
//! `Validation` and `Selection` are recoverable at the point of input: the
//! caller re-prompts.  The other variants propagate to the top of the
//! pipeline and end the run.

use vstd::prelude::*;

verus! {

/// One error type for the whole pipeline, so that the stages compose.
#[derive(Clone, Copy, Debug, PartialEq, Eq, Structural)]
pub enum StatsError {
    /// A malformed or out-of-range season.
    Validation,
    /// A name query that matched no roster candidate.
    NotFound,
    /// An invalid numeric selection from a displayed list.
    Selection,
    /// A short category code unknown to the requested stat group.
    InvalidCategory,
    /// A required stat field that is absent or malformed.
    Decode,
    /// A transport failure or a malformed top-level response.
    Remote,
}

impl StatsError {
    /// A short description, for reporting at the top of the pipeline.
    pub fn describe(&self) -> (r: &'static str)
        ensures
            r@ == self.describe_spec(),
    {
        match self {
            StatsError::Validation => "invalid season",
            StatsError::NotFound => "no matching player",
            StatsError::Selection => "invalid selection",
            StatsError::InvalidCategory => "unknown stat category",
            StatsError::Decode => "malformed stat field",
            StatsError::Remote => "remote call failed",
        }
    }

    pub open spec fn describe_spec(&self) -> Seq<char> {
        match self {
            StatsError::Validation => "invalid season"@,
            StatsError::NotFound => "no matching player"@,
            StatsError::Selection => "invalid selection"@,
            StatsError::InvalidCategory => "unknown stat category"@,
            StatsError::Decode => "malformed stat field"@,
            StatsError::Remote => "remote call failed"@,
        }
    }
}

} // verus!
