//! The two ends of the shared slot: the caller's non-blocking handle and
//! the background reader's end.
use std::sync::Arc;
use vstd::prelude::*;
use vstd::rwlock::{RwLock, RwLockPredicate};

use crate::reader::{
    next_step, stage_request, transition, ReaderAction, ReaderEvent, ReaderState,
};
use crate::slot::Handoff;

verus! {

/// The invariant that the lock keeps of the slot it guards.
pub struct SlotInvariant;

impl RwLockPredicate<Handoff> for SlotInvariant {
    open spec fn inv(self, v: Handoff) -> bool {
        v@.wf()
    }
}

/// The slot, guarded by a lock, as both ends share it.
pub type SharedSlot = RwLock<Handoff, SlotInvariant>;

/// Relies on `Arc::clone`: a second owner of the same shared slot.
#[verifier::external_body]
fn share(a: &Arc<SharedSlot>) -> (r: Arc<SharedSlot>)
    ensures
        *r == **a,
{
    Arc::clone(a)
}

/// A non-blocking view of a byte source that a background reader drains.
///
/// `poll` and `receive` only take the slot's lock for a few steps; they
/// never wait on the source itself.
pub struct EmuNbStdin {
    shared: Arc<SharedSlot>,
}

/// The reader's end of the slot, with the reader's state.
pub struct Feeder {
    shared: Arc<SharedSlot>,
    state: ReaderState,
}

impl EmuNbStdin {
    /// A handle and the reader's end of one fresh slot. Nothing is staged,
    /// and the reader starts idle, about to read.
    pub fn channel() -> (r: (EmuNbStdin, Feeder))
        ensures
            r.1.state() == ReaderState::Idle,
    {
        let shared = Arc::new(RwLock::new(Handoff::new(), Ghost(SlotInvariant)));
        let other = share(&shared);
        (EmuNbStdin { shared }, Feeder { shared: other, state: ReaderState::Idle })
    }

    /// Whether a byte is staged, as the slot stands under the lock; see
    /// [`Handoff::poll`]. Changes nothing.
    pub fn poll(&self) -> (r: bool) {
        let guard = self.shared.acquire_read();
        let r = guard.borrow().poll();
        guard.release_read();
        r
    }

    /// Takes the staged byte, if any, and so frees the reader to read the
    /// next one; see [`Handoff::receive`] for what happens to the slot
    /// under the lock.
    pub fn receive(&mut self) -> (r: Option<u8>) {
        let (mut slot, guard) = self.shared.acquire_write();
        let r = slot.receive();
        guard.release_write(slot);
        r
    }
}

impl Feeder {
    /// The reader's state.
    pub closed spec fn state(&self) -> ReaderState {
        self.state
    }

    /// The reader's state.
    pub fn current(&self) -> (r: ReaderState)
        ensures
            r == self.state(),
    {
        self.state
    }

    /// Takes one event, and answers with the action to perform next.
    ///
    /// Under the lock the reader looks whether the slot is free and, where
    /// the event calls for it, stages its byte there (see [`Handoff::stage`]).
    /// The new state and the action are then [`transition`] of the old state,
    /// the event and what the reader saw.
    pub fn step(&mut self, event: ReaderEvent) -> (r: ReaderAction)
        ensures
            exists|free: bool| (final(self).state(), r) == transition(old(self).state(), event, free),
    {
        let (mut slot, guard) = self.shared.acquire_write();
        let free = !slot.poll();
        match stage_request(self.state, event) {
            Some(b) => {
                slot.stage(b);
            },
            None => {},
        }
        guard.release_write(slot);
        let (state, action) = next_step(self.state, event, free);
        self.state = state;
        action
    }
}

} // verus!
