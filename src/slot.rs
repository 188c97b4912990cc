//! The state shared by the reader and the handle: the ready flag and the
//! staged byte channel, with the protocol's operations on them.
use std::collections::VecDeque;
use vstd::prelude::*;

verus! {

/// Mathematical model of a [`Handoff`]: the ready flag and the bytes
/// currently in the channel, oldest first.
pub ghost struct HandoffModel {
    pub ready: bool,
    pub channel: Seq<u8>,
}

impl HandoffModel {
    /// The protocol's invariant: the flag is set exactly when one byte is
    /// staged and not yet taken, and never more than one byte is in flight.
    pub open spec fn wf(self) -> bool {
        &&& self.channel.len() <= 1
        &&& self.ready <==> self.channel.len() == 1
    }

    /// The state before any byte has been read.
    pub open spec fn empty() -> HandoffModel {
        HandoffModel { ready: false, channel: Seq::empty() }
    }

    /// What `poll` reports.
    pub open spec fn poll(self) -> bool {
        self.ready
    }

    /// The reader stages `b`: accepted only while nothing is staged.
    /// Yields the new state and whether the byte was accepted.
    pub open spec fn stage(self, b: u8) -> (HandoffModel, bool) {
        if self.ready {
            (self, false)
        } else {
            (HandoffModel { ready: true, channel: self.channel.push(b) }, true)
        }
    }

    /// The handle takes the staged byte, if the flag is set and the channel
    /// holds one. Yields the new state and the byte taken.
    pub open spec fn receive(self) -> (HandoffModel, Option<u8>) {
        if self.ready && self.channel.len() > 0 {
            (HandoffModel { ready: false, channel: self.channel.drop_first() }, Some(self.channel[0]))
        } else {
            (self, None)
        }
    }
}

/// The ready flag together with the channel that carries the staged byte.
pub struct Handoff {
    ready: bool,
    channel: VecDeque<u8>,
}

impl View for Handoff {
    type V = HandoffModel;

    closed spec fn view(&self) -> HandoffModel {
        HandoffModel { ready: self.ready, channel: self.channel@ }
    }
}

impl Handoff {
    /// An empty slot: nothing staged, flag clear.
    pub fn new() -> (r: Handoff)
        ensures
            r@ == HandoffModel::empty(),
            r@.wf(),
    {
        Handoff { ready: false, channel: VecDeque::new() }
    }

    /// Whether a byte is staged. Reads only.
    pub fn poll(&self) -> (r: bool)
        ensures
            r == self@.poll(),
    {
        self.ready
    }

    /// Stages `b` and sets the flag, unless a byte is already staged, in
    /// which case nothing changes. Returns whether `b` was staged.
    pub fn stage(&mut self, b: u8) -> (r: bool)
        ensures
            (final(self)@, r) == old(self)@.stage(b),
            old(self)@.wf() ==> final(self)@.wf(),
    {
        if self.ready {
            false
        } else {
            self.channel.push_back(b);
            self.ready = true;
            true
        }
    }

    /// Takes the staged byte and clears the flag. With the flag clear, or
    /// with an empty channel under a set flag, returns `None` and changes
    /// nothing.
    pub fn receive(&mut self) -> (r: Option<u8>)
        ensures
            (final(self)@, r) == old(self)@.receive(),
            old(self)@.wf() ==> final(self)@.wf(),
    {
        if !self.ready {
            return None;
        }
        match self.channel.pop_front() {
            Some(b) => {
                self.ready = false;
                Some(b)
            },
            None => None,
        }
    }
}

} // verus!
