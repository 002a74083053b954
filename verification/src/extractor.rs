//! Thumbnail extractor: the one-shot seek-and-grab state machine.
//!
//! Frame extraction drives the host runtime through a fixed command
//! sequence — pause, flush-and-seek to the requested position, play, then a
//! bounded wait on the status channel — and always ends by tearing the
//! pipeline down, whatever the outcome. The decisions live here as a total
//! step function from phase and observed event to next phase and command;
//! the surrounding glue issues each command to the host runtime and feeds
//! the observed outcome back in.

use vstd::prelude::*;
use crate::MediaError;
use crate::pipeline::ThumbnailSpec;
use crate::pipeline::build_thumbnail_spec;

verus! {

/// The bounded wait on the status channel, in milliseconds: extraction that
/// has not completed within this window fails with `ExtractionTimeout`.
pub const EXTRACTION_TIMEOUT_MS: u64 = 5000;

/// Where one extraction stands.
#[derive(Clone, Copy, Debug, PartialEq, Eq)]
pub enum ExtractPhase {
    /// Nothing issued yet.
    Idle,
    /// The pause command (seek-target establishment) is outstanding.
    PausePending,
    /// The flush-and-seek request is outstanding.
    SeekPending,
    /// The play command (decode start) is outstanding.
    PlayPending,
    /// Decoding: waiting, bounded, on the status channel.
    Decoding,
    /// Terminal: the pipeline has been handed over for teardown, with the
    /// extraction's outcome.
    Done(Result<(), MediaError>),
}

/// What the glue observed from the host runtime since the last step.
#[derive(Clone, Copy, Debug, PartialEq, Eq)]
pub enum ExtractEvent {
    /// Start the extraction (only meaningful from `Idle`).
    Begin,
    /// The outstanding command or seek was accepted.
    Accepted,
    /// The outstanding command or seek was rejected.
    Rejected,
    /// The status channel signalled end of stream.
    EndOfStream,
    /// The status channel signalled an error.
    ErrorSignal,
    /// The bounded wait elapsed without a terminal signal.
    TimedOut,
    /// Some other status message arrived; keep waiting.
    OtherMessage,
}

/// The next command the glue must issue to the host runtime.
#[derive(Clone, Copy, Debug, PartialEq, Eq)]
pub enum ExtractAction {
    /// Transition the pipeline to its paused state.
    IssuePause,
    /// Issue the flush-and-seek-to-nearest-keyframe request for the target
    /// position.
    IssueSeek,
    /// Transition the pipeline to its playing state.
    IssuePlay,
    /// Block, bounded by `EXTRACTION_TIMEOUT_MS`, on the status channel.
    AwaitMessage,
    /// Transition the pipeline to its terminal state and release it. Issued
    /// exactly when a terminal phase is entered, on every exit path.
    Teardown,
    /// Nothing remains to be done.
    Halt,
}

/// One step of the extraction machine: the next phase and the command to
/// issue.
#[derive(Clone, Copy, Debug, PartialEq, Eq)]
pub struct ExtractStep {
    pub phase: ExtractPhase,
    pub action: ExtractAction,
}

/// The transition table. Every pair is defined: an event that the current
/// phase cannot produce is treated as a host-runtime protocol fault and
/// tears the pipeline down with `StateTransitionFailed`, so the machine can
/// never wedge a resource. A rejected seek is a decode-side failure
/// (`ExtractionError`); a rejected state transition is
/// `StateTransitionFailed`; in the decoding phase, end of stream completes
/// the extraction, an error signal fails it with `ExtractionError`, an
/// elapsed wait fails it with `ExtractionTimeout`, and any other message
/// keeps the bounded wait going.
pub open spec fn spec_extract_step(p: ExtractPhase, e: ExtractEvent) -> ExtractStep {
    match p {
        ExtractPhase::Idle => match e {
            ExtractEvent::Begin => ExtractStep {
                phase: ExtractPhase::PausePending,
                action: ExtractAction::IssuePause,
            },
            _ => spec_protocol_fault(),
        },
        ExtractPhase::PausePending => match e {
            ExtractEvent::Accepted => ExtractStep {
                phase: ExtractPhase::SeekPending,
                action: ExtractAction::IssueSeek,
            },
            ExtractEvent::Rejected => spec_fail(MediaError::StateTransitionFailed),
            _ => spec_protocol_fault(),
        },
        ExtractPhase::SeekPending => match e {
            ExtractEvent::Accepted => ExtractStep {
                phase: ExtractPhase::PlayPending,
                action: ExtractAction::IssuePlay,
            },
            ExtractEvent::Rejected => spec_fail(MediaError::ExtractionError),
            _ => spec_protocol_fault(),
        },
        ExtractPhase::PlayPending => match e {
            ExtractEvent::Accepted => ExtractStep {
                phase: ExtractPhase::Decoding,
                action: ExtractAction::AwaitMessage,
            },
            ExtractEvent::Rejected => spec_fail(MediaError::StateTransitionFailed),
            _ => spec_protocol_fault(),
        },
        ExtractPhase::Decoding => match e {
            ExtractEvent::EndOfStream => ExtractStep {
                phase: ExtractPhase::Done(Ok(())),
                action: ExtractAction::Teardown,
            },
            ExtractEvent::ErrorSignal => spec_fail(MediaError::ExtractionError),
            ExtractEvent::TimedOut => spec_fail(MediaError::ExtractionTimeout),
            ExtractEvent::OtherMessage => ExtractStep {
                phase: ExtractPhase::Decoding,
                action: ExtractAction::AwaitMessage,
            },
            _ => spec_protocol_fault(),
        },
        ExtractPhase::Done(r) => ExtractStep {
            phase: ExtractPhase::Done(r),
            action: ExtractAction::Halt,
        },
    }
}

/// A failing terminal step.
pub open spec fn spec_fail(e: MediaError) -> ExtractStep {
    ExtractStep { phase: ExtractPhase::Done(Err(e)), action: ExtractAction::Teardown }
}

/// The terminal step for an event the phase cannot produce.
pub open spec fn spec_protocol_fault() -> ExtractStep {
    spec_fail(MediaError::StateTransitionFailed)
}

/// Advances the extraction machine by one observed event.
pub fn extract_step(p: ExtractPhase, e: ExtractEvent) -> (r: ExtractStep)
    ensures
        r == spec_extract_step(p, e),
{
    match p {
        ExtractPhase::Idle => match e {
            ExtractEvent::Begin => ExtractStep {
                phase: ExtractPhase::PausePending,
                action: ExtractAction::IssuePause,
            },
            _ => protocol_fault(),
        },
        ExtractPhase::PausePending => match e {
            ExtractEvent::Accepted => ExtractStep {
                phase: ExtractPhase::SeekPending,
                action: ExtractAction::IssueSeek,
            },
            ExtractEvent::Rejected => fail_step(MediaError::StateTransitionFailed),
            _ => protocol_fault(),
        },
        ExtractPhase::SeekPending => match e {
            ExtractEvent::Accepted => ExtractStep {
                phase: ExtractPhase::PlayPending,
                action: ExtractAction::IssuePlay,
            },
            ExtractEvent::Rejected => fail_step(MediaError::ExtractionError),
            _ => protocol_fault(),
        },
        ExtractPhase::PlayPending => match e {
            ExtractEvent::Accepted => ExtractStep {
                phase: ExtractPhase::Decoding,
                action: ExtractAction::AwaitMessage,
            },
            ExtractEvent::Rejected => fail_step(MediaError::StateTransitionFailed),
            _ => protocol_fault(),
        },
        ExtractPhase::Decoding => match e {
            ExtractEvent::EndOfStream => ExtractStep {
                phase: ExtractPhase::Done(Ok(())),
                action: ExtractAction::Teardown,
            },
            ExtractEvent::ErrorSignal => fail_step(MediaError::ExtractionError),
            ExtractEvent::TimedOut => fail_step(MediaError::ExtractionTimeout),
            ExtractEvent::OtherMessage => ExtractStep {
                phase: ExtractPhase::Decoding,
                action: ExtractAction::AwaitMessage,
            },
            _ => protocol_fault(),
        },
        ExtractPhase::Done(r) => ExtractStep {
            phase: ExtractPhase::Done(r),
            action: ExtractAction::Halt,
        },
    }
}

/// A failing terminal step.
fn fail_step(e: MediaError) -> (r: ExtractStep)
    ensures
        r == spec_fail(e),
{
    ExtractStep { phase: ExtractPhase::Done(Err(e)), action: ExtractAction::Teardown }
}

/// The terminal step for an event the phase cannot produce.
fn protocol_fault() -> (r: ExtractStep)
    ensures
        r == spec_protocol_fault(),
{
    ExtractStep {
        phase: ExtractPhase::Done(Err(MediaError::StateTransitionFailed)),
        action: ExtractAction::Teardown,
    }
}

/// Plans one extraction: the pipeline description for the stored video file
/// and the still-image output path, with the fixed target height. The
/// machine starts in `Idle` and is kicked off with `Begin`.
pub fn plan_extraction(video_path: String, output_path: String) -> (r: ThumbnailSpec)
    ensures
        r.video_path@ == video_path@,
        r.output_path@ == output_path@,
        r.target_height == 360,
{
    build_thumbnail_spec(video_path, output_path)
}

/// The pipeline is torn down on every exit path: a step that enters a
/// terminal phase always commands `Teardown`, and a step that does not
/// never does.
pub proof fn lemma_teardown_on_every_exit(p: ExtractPhase, e: ExtractEvent)
    requires
        !(p is Done),
    ensures
        spec_extract_step(p, e).phase is Done <==> spec_extract_step(p, e).action
            == ExtractAction::Teardown,
{
}

/// A terminal phase is absorbing: no further event changes it, and nothing
/// further is commanded.
pub proof fn lemma_done_is_terminal(r: Result<(), MediaError>, e: ExtractEvent)
    ensures
        spec_extract_step(ExtractPhase::Done(r), e).phase == ExtractPhase::Done(r),
        spec_extract_step(ExtractPhase::Done(r), e).action == ExtractAction::Halt,
{
}

/// Every step moves the machine forward: the only phase a step can repeat
/// is the bounded wait (another message while decoding) — and the
/// absorbing terminal phase.
pub proof fn lemma_progress(p: ExtractPhase, e: ExtractEvent)
    ensures
        spec_extract_step(p, e).phase == p ==> (p is Decoding && e is OtherMessage) || p is Done,
{
}

/// Extraction can only end in completion, a decode or seek failure, a
/// rejected transition, or the bounded timeout — and the bounded wait is
/// the only path to `ExtractionTimeout`.
pub proof fn lemma_outcomes(p: ExtractPhase, e: ExtractEvent)
    requires
        !(p is Done),
    ensures
        spec_extract_step(p, e).phase matches ExtractPhase::Done(Err(err)) ==> (err
            == MediaError::StateTransitionFailed || err == MediaError::ExtractionError || err
            == MediaError::ExtractionTimeout),
        spec_extract_step(p, e).phase == ExtractPhase::Done(
            Err::<(), MediaError>(MediaError::ExtractionTimeout),
        ) ==> (p is Decoding && e is TimedOut),
{
}

} // verus!
