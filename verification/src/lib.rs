//! Pipeline orchestration and adaptive encoder selection for concurrent
//! screen-recording and thumbnail-extraction sessions.
//!
//! The crate holds the decision logic of the engine: encoder-tier selection,
//! zero-copy capability hints, declarative pipeline descriptions and their
//! rendering, the session registry with its hardware-stream accounting, and
//! the bounded state machine that drives one-shot frame extraction. The host
//! media runtime that executes the described pipelines is driven by the
//! surrounding, unverified glue.

use vstd::prelude::*;

pub mod auth;
pub mod encoder;
pub mod extractor;
pub mod monitor;
pub mod pipeline;
pub mod platform;
pub mod registry;
pub mod text;

verus! {

/// Errors surfaced by the orchestration engine. None of them is fatal to the
/// registry: a failed operation leaves every other session untouched.
#[derive(Clone, Copy, Debug, PartialEq, Eq)]
pub enum MediaError {
    /// A start request named a session id that is already registered.
    DuplicateSession,
    /// A stop or snapshot request named a session id that is not registered.
    SessionNotFound,
    /// The live tap had no buffer ready, or the pull timed out.
    SnapshotUnavailable,
    /// The host runtime refused to build the described topology.
    PipelineConstructionFailed,
    /// The host runtime rejected a state transition command.
    StateTransitionFailed,
    /// Frame extraction did not finish within its bounded wait.
    ExtractionTimeout,
    /// The host runtime reported a decode or seek failure during extraction.
    ExtractionError,
}

/// What `MediaError::describe` returns for each variant.
pub open spec fn spec_describe(e: MediaError) -> Seq<char> {
    match e {
        MediaError::DuplicateSession => "session id already in use"@,
        MediaError::SessionNotFound => "session not found"@,
        MediaError::SnapshotUnavailable => "no snapshot buffer available"@,
        MediaError::PipelineConstructionFailed => "pipeline construction failed"@,
        MediaError::StateTransitionFailed => "pipeline state transition failed"@,
        MediaError::ExtractionTimeout => "frame extraction timed out"@,
        MediaError::ExtractionError => "frame extraction failed"@,
    }
}

impl MediaError {
    /// A short human-readable description of the error.
    pub fn describe(&self) -> (r: &'static str)
        ensures
            r@ == spec_describe(*self),
    {
        match self {
            MediaError::DuplicateSession => "session id already in use",
            MediaError::SessionNotFound => "session not found",
            MediaError::SnapshotUnavailable => "no snapshot buffer available",
            MediaError::PipelineConstructionFailed => "pipeline construction failed",
            MediaError::StateTransitionFailed => "pipeline state transition failed",
            MediaError::ExtractionTimeout => "frame extraction timed out",
            MediaError::ExtractionError => "frame extraction failed",
        }
    }
}

} // verus!
