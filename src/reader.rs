//! The reader's decisions, as a state machine from state and event to the
//! next state and the action to perform.
//!
//! The loop that performs the actions (a blocking read, a sleep) lives with
//! the caller; see [`crate::handle::Feeder::step`] for the step that also
//! touches the shared slot.
use vstd::prelude::*;

verus! {

/// What one blocking read of a single byte produced.
#[derive(Clone, Copy, Debug, PartialEq, Eq, Structural)]
pub enum ReadOutcome {
    /// One byte was transferred.
    Byte(u8),
    /// Zero bytes were transferred: the source is exhausted for good.
    End,
    /// The read failed.
    Failed,
}

/// What the reader is told.
#[derive(Clone, Copy, Debug, PartialEq, Eq, Structural)]
pub enum ReaderEvent {
    /// A read that the reader was asked to perform has completed.
    Read(ReadOutcome),
    /// The delay that the reader was asked to wait has passed.
    Tick,
}

/// Where the reader stands.
#[derive(Clone, Copy, Debug, PartialEq, Eq, Structural)]
pub enum ReaderState {
    /// Nothing in flight: the next step is a read.
    Idle,
    /// A byte was read but could not be staged yet.
    Holding(u8),
    /// A byte is staged; the reader waits until the handle has taken it.
    Waiting,
    /// The source is exhausted or failed; nothing more will be staged.
    Finished,
}

/// What the reader is to do next.
#[derive(Clone, Copy, Debug, PartialEq, Eq, Structural)]
pub enum ReaderAction {
    /// Perform one blocking read and report it as [`ReaderEvent::Read`].
    ReadByte,
    /// Wait a short moment, then report [`ReaderEvent::Tick`].
    Retry,
    /// Wait the pacing delay between two reads, then report [`ReaderEvent::Tick`].
    Pace,
    /// Stop for good: the source is exhausted.
    Stop,
    /// Stop for good, abnormally: the read failed or the protocol was broken.
    Abort,
}

/// The byte that the reader must stage on this event, if any.
pub open spec fn byte_to_stage(state: ReaderState, event: ReaderEvent) -> Option<u8> {
    match (state, event) {
        (ReaderState::Idle, ReaderEvent::Read(ReadOutcome::Byte(b))) => Some(b),
        (ReaderState::Holding(b), ReaderEvent::Tick) => Some(b),
        _ => None,
    }
}

/// The reader's transition. `slot_free` tells whether the shared slot held
/// no staged byte when the reader looked at it under the lock.
pub open spec fn transition(state: ReaderState, event: ReaderEvent, slot_free: bool) -> (
    ReaderState,
    ReaderAction,
) {
    match state {
        ReaderState::Finished => (ReaderState::Finished, ReaderAction::Stop),
        ReaderState::Idle => match event {
            ReaderEvent::Tick => (ReaderState::Idle, ReaderAction::ReadByte),
            ReaderEvent::Read(ReadOutcome::End) => (ReaderState::Finished, ReaderAction::Stop),
            ReaderEvent::Read(ReadOutcome::Failed) => (ReaderState::Finished, ReaderAction::Abort),
            ReaderEvent::Read(ReadOutcome::Byte(b)) => if slot_free {
                (ReaderState::Waiting, ReaderAction::Retry)
            } else {
                (ReaderState::Holding(b), ReaderAction::Retry)
            },
        },
        ReaderState::Holding(b) => match event {
            ReaderEvent::Tick => if slot_free {
                (ReaderState::Waiting, ReaderAction::Retry)
            } else {
                (ReaderState::Holding(b), ReaderAction::Retry)
            },
            ReaderEvent::Read(_) => (state, ReaderAction::Abort),
        },
        ReaderState::Waiting => match event {
            ReaderEvent::Tick => if slot_free {
                (ReaderState::Idle, ReaderAction::Pace)
            } else {
                (ReaderState::Waiting, ReaderAction::Retry)
            },
            ReaderEvent::Read(_) => (state, ReaderAction::Abort),
        },
    }
}

/// The byte that the reader must stage on `event` in `state`, if any.
pub fn stage_request(state: ReaderState, event: ReaderEvent) -> (r: Option<u8>)
    ensures
        r == byte_to_stage(state, event),
{
    match (state, event) {
        (ReaderState::Idle, ReaderEvent::Read(ReadOutcome::Byte(b))) => Some(b),
        (ReaderState::Holding(b), ReaderEvent::Tick) => Some(b),
        _ => None,
    }
}

/// Computes the reader's next state and action. `slot_free` tells whether
/// the shared slot held no staged byte when the reader looked at it (and,
/// where a byte was to be staged, whether it was staged).
pub fn next_step(state: ReaderState, event: ReaderEvent, slot_free: bool) -> (r: (
    ReaderState,
    ReaderAction,
))
    ensures
        r == transition(state, event, slot_free),
{
    match state {
        ReaderState::Finished => (ReaderState::Finished, ReaderAction::Stop),
        ReaderState::Idle => match event {
            ReaderEvent::Tick => (ReaderState::Idle, ReaderAction::ReadByte),
            ReaderEvent::Read(ReadOutcome::End) => (ReaderState::Finished, ReaderAction::Stop),
            ReaderEvent::Read(ReadOutcome::Failed) => (ReaderState::Finished, ReaderAction::Abort),
            ReaderEvent::Read(ReadOutcome::Byte(b)) => if slot_free {
                (ReaderState::Waiting, ReaderAction::Retry)
            } else {
                (ReaderState::Holding(b), ReaderAction::Retry)
            },
        },
        ReaderState::Holding(b) => match event {
            ReaderEvent::Tick => if slot_free {
                (ReaderState::Waiting, ReaderAction::Retry)
            } else {
                (ReaderState::Holding(b), ReaderAction::Retry)
            },
            ReaderEvent::Read(_) => (state, ReaderAction::Abort),
        },
        ReaderState::Waiting => match event {
            ReaderEvent::Tick => if slot_free {
                (ReaderState::Idle, ReaderAction::Pace)
            } else {
                (ReaderState::Waiting, ReaderAction::Retry)
            },
            ReaderEvent::Read(_) => (state, ReaderAction::Abort),
        },
    }
}

} // verus!
