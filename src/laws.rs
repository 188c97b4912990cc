//! The protocol's guarantees, stated over a model of the whole pipeline:
//! the bytes the source has yet to give, the reader's state, the shared
//! slot, and the bytes the caller has received. The caller and the reader
//! take turns in any order; each turn is built from the same spec functions
//! that the executable operations are proved against.
use vstd::prelude::*;

use crate::reader::{
    byte_to_stage, transition, ReadOutcome, ReaderAction, ReaderEvent, ReaderState,
};
use crate::slot::HandoffModel;

verus! {

/// One turn of either party.
pub ghost enum Turn {
    /// The reader handles its next event: a read when idle, a tick otherwise.
    Reader,
    /// The caller polls.
    Poll,
    /// The caller receives.
    Take,
}

/// The whole pipeline at one moment.
pub ghost struct Pipeline {
    /// Bytes the source has not yet given.
    pub unread: Seq<u8>,
    /// The reader's state.
    pub reader: ReaderState,
    /// The shared slot.
    pub slot: HandoffModel,
    /// Bytes the caller has received, in order.
    pub delivered: Seq<u8>,
}

/// The byte the reader holds outside the slot, if any.
pub open spec fn held(r: ReaderState) -> Seq<u8> {
    match r {
        ReaderState::Holding(b) => seq![b],
        _ => Seq::empty(),
    }
}

/// The pipeline before anything happened, over a source that will give `input`.
pub open spec fn start(input: Seq<u8>) -> Pipeline {
    Pipeline {
        unread: input,
        reader: ReaderState::Idle,
        slot: HandoffModel::empty(),
        delivered: Seq::empty(),
    }
}

/// The event the reader handles on its turn: when idle, the outcome of a read
/// (a byte, or the end of the source); otherwise the passing of a delay.
pub open spec fn reader_event(p: Pipeline) -> ReaderEvent {
    if p.reader == ReaderState::Idle {
        if p.unread.len() > 0 {
            ReaderEvent::Read(ReadOutcome::Byte(p.unread[0]))
        } else {
            ReaderEvent::Read(ReadOutcome::End)
        }
    } else {
        ReaderEvent::Tick
    }
}

impl Pipeline {
    /// The pipeline after one turn.
    pub open spec fn advance(self, t: Turn) -> Pipeline {
        match t {
            Turn::Reader => {
                let event = reader_event(self);
                let free = !self.slot.ready;
                let slot = match byte_to_stage(self.reader, event) {
                    Some(b) => self.slot.stage(b).0,
                    None => self.slot,
                };
                let unread = if self.reader == ReaderState::Idle && self.unread.len() > 0 {
                    self.unread.drop_first()
                } else {
                    self.unread
                };
                Pipeline { unread, reader: transition(self.reader, event, free).0, slot, ..self }
            },
            Turn::Poll => self,
            Turn::Take => {
                let (slot, r) = self.slot.receive();
                let delivered = match r {
                    Some(b) => self.delivered.push(b),
                    None => self.delivered,
                };
                Pipeline { slot, delivered, ..self }
            },
        }
    }

    /// Nothing is lost, duplicated or reordered: what was delivered, then
    /// what is staged, then what the reader holds, then what is unread, is
    /// the whole input; and at most one byte is in flight.
    pub open spec fn conserves(self, input: Seq<u8>) -> bool {
        &&& self.delivered + self.slot.channel + held(self.reader) + self.unread == input
        &&& self.slot.wf()
    }
}

/// The pipeline after a sequence of turns, taken from first to last.
pub open spec fn run(p: Pipeline, turns: Seq<Turn>) -> Pipeline
    decreases turns.len(),
{
    if turns.len() == 0 {
        p
    } else {
        run(p.advance(turns[0]), turns.drop_first())
    }
}

/// The schedule in which the caller takes each byte as soon as it is staged:
/// per byte, a read, a take, and the reader's tick that sees the slot free.
pub open spec fn prompt_rounds(n: nat) -> Seq<Turn>
    decreases n,
{
    if n == 0 {
        Seq::empty()
    } else {
        seq![Turn::Reader, Turn::Take, Turn::Reader] + prompt_rounds((n - 1) as nat)
    }
}

proof fn lemma_turn_conserves(p: Pipeline, t: Turn, input: Seq<u8>)
    requires
        p.conserves(input),
    ensures
        p.advance(t).conserves(input),
{
    let q = p.advance(t);
    match t {
        Turn::Reader => {
            if p.reader == ReaderState::Idle && p.unread.len() > 0 {
                assert(p.unread =~= seq![p.unread[0]] + p.unread.drop_first());
                if p.slot.ready {
                    assert(q.delivered + q.slot.channel + held(q.reader) + q.unread
                        =~= p.delivered + p.slot.channel + held(p.reader) + p.unread);
                } else {
                    assert(q.delivered + q.slot.channel + held(q.reader) + q.unread
                        =~= p.delivered + p.slot.channel + held(p.reader) + p.unread);
                }
            } else {
                assert(q.delivered + q.slot.channel + held(q.reader) + q.unread
                    =~= p.delivered + p.slot.channel + held(p.reader) + p.unread);
            }
        },
        Turn::Poll => {},
        Turn::Take => {
            assert(q.delivered + q.slot.channel + held(q.reader) + q.unread
                =~= p.delivered + p.slot.channel + held(p.reader) + p.unread);
        },
    }
}

/// Ordering and single flight: under every schedule of turns, the bytes
/// received so far, followed by the byte in flight and the bytes not yet
/// read, are exactly the input; so the caller receives a prefix of the
/// input, in order, with no byte dropped or repeated, and never more than
/// one byte is staged at once.
pub proof fn lemma_fifo(input: Seq<u8>, turns: Seq<Turn>)
    ensures
        run(start(input), turns).conserves(input),
        input.take(run(start(input), turns).delivered.len() as int) == run(
            start(input),
            turns,
        ).delivered,
{
    assert(start(input).conserves(input)) by {
        assert(Seq::<u8>::empty() + Seq::empty() + Seq::empty() + input =~= input);
    }
    lemma_run_conserves(start(input), turns, input);
    let q = run(start(input), turns);
    assert(input.take(q.delivered.len() as int) =~= q.delivered) by {
        assert(input =~= q.delivered + (q.slot.channel + held(q.reader) + q.unread));
    }
}

proof fn lemma_run_conserves(p: Pipeline, turns: Seq<Turn>, input: Seq<u8>)
    requires
        p.conserves(input),
    ensures
        run(p, turns).conserves(input),
    decreases turns.len(),
{
    if turns.len() > 0 {
        lemma_turn_conserves(p, turns[0], input);
        lemma_run_conserves(p.advance(turns[0]), turns.drop_first(), input);
    }
}

proof fn lemma_prompt_rounds(p: Pipeline, n: nat)
    requires
        p.reader == ReaderState::Idle,
        p.slot == HandoffModel::empty(),
        n <= p.unread.len(),
    ensures
        run(p, prompt_rounds(n)) == (Pipeline {
            unread: p.unread.skip(n as int),
            delivered: p.delivered + p.unread.take(n as int),
            ..p
        }),
    decreases n,
{
    if n == 0 {
        assert(p.unread.skip(0) =~= p.unread);
        assert(p.delivered + p.unread.take(0) =~= p.delivered);
    } else {
        let turns = prompt_rounds(n);
        let rest = prompt_rounds((n - 1) as nat);
        let p1 = p.advance(Turn::Reader);
        let p2 = p1.advance(Turn::Take);
        let p3 = p2.advance(Turn::Reader);
        assert(p1.slot.channel =~= seq![p.unread[0]]);
        assert(p2.slot == HandoffModel::empty()) by {
            assert(p2.slot.channel =~= Seq::<u8>::empty());
        }
        assert(turns.drop_first().drop_first().drop_first() =~= rest);
        assert(turns[0] == Turn::Reader);
        assert(turns.drop_first()[0] == Turn::Take);
        assert(turns.drop_first().drop_first()[0] == Turn::Reader);
        assert(run(p, turns) == run(p1, turns.drop_first()));
        assert(run(p1, turns.drop_first()) == run(p2, turns.drop_first().drop_first()));
        assert(run(p2, turns.drop_first().drop_first()) == run(p3, rest));
        lemma_prompt_rounds(p3, (n - 1) as nat);
        assert(p3.unread.skip((n - 1) as int) =~= p.unread.skip(n as int));
        assert(p3.delivered + p3.unread.take((n - 1) as int) =~= p.delivered + p.unread.take(
            n as int,
        ));
    }
}

/// Ordering, completeness: when the caller takes each byte as soon as it is
/// staged, it receives the whole input, in order, and the slot ends empty.
pub proof fn lemma_prompt_caller_receives_all(input: Seq<u8>)
    ensures
        run(start(input), prompt_rounds(input.len())).delivered == input,
        run(start(input), prompt_rounds(input.len())).slot == HandoffModel::empty(),
{
    lemma_prompt_rounds(start(input), input.len());
    assert(Seq::<u8>::empty() + input.take(input.len() as int) =~= input);
}

/// Single flight: while a byte is staged, the reader's attempt to stage
/// another is refused and leaves the slot as it was.
pub proof fn lemma_single_flight(m: HandoffModel, b: u8)
    requires
        m.wf(),
        m.poll(),
    ensures
        m.stage(b) == (m, false),
{
}

/// Polling is idempotent: a poll changes nothing, and once a byte is staged
/// the flag stays set, and the slot unchanged, through any turns of the
/// reader and any polls, until the caller receives.
pub proof fn lemma_poll_stable(p: Pipeline, turns: Seq<Turn>)
    requires
        p.slot.wf(),
        p.slot.poll(),
        forall|i: int| 0 <= i < turns.len() ==> turns[i] != Turn::Take,
    ensures
        p.advance(Turn::Poll) == p,
        run(p, turns).slot == p.slot,
        run(p, turns).slot.poll(),
    decreases turns.len(),
{
    if turns.len() > 0 {
        let q = p.advance(turns[0]);
        assert(q.slot == p.slot);
        assert forall|i: int| 0 <= i < turns.drop_first().len() implies turns.drop_first()[i]
            != Turn::Take by {
            assert(turns.drop_first()[i] == turns[i + 1]);
        }
        lemma_poll_stable(q, turns.drop_first());
    }
}

/// Drain, then empty: right after a receive that returned a byte, the flag
/// is clear and a second receive returns nothing and changes nothing.
pub proof fn lemma_drain_then_empty(m: HandoffModel)
    requires
        m.wf(),
        m.receive().1 is Some,
    ensures
        !m.receive().0.poll(),
        m.receive().0.receive() == (m.receive().0, None::<u8>),
{
}

/// End of input: once the reader has finished and the last staged byte has
/// been taken, every later poll reports false and every later receive
/// returns nothing, under any schedule of turns.
pub proof fn lemma_end_of_input(p: Pipeline, turns: Seq<Turn>)
    requires
        p.reader == ReaderState::Finished,
        !p.slot.poll(),
    ensures
        run(p, turns).reader == ReaderState::Finished,
        run(p, turns).slot == p.slot,
        run(p, turns).delivered == p.delivered,
        !run(p, turns).slot.poll(),
        run(p, turns).slot.receive().1 is None,
    decreases turns.len(),
{
    if turns.len() > 0 {
        lemma_end_of_input(p.advance(turns[0]), turns.drop_first());
    }
}

/// End of input: on reading the end of the source, the reader finishes,
/// leaves the slot as it was, and stops.
pub proof fn lemma_reader_finishes(p: Pipeline)
    requires
        p.reader == ReaderState::Idle,
        p.unread.len() == 0,
    ensures
        p.advance(Turn::Reader).reader == ReaderState::Finished,
        p.advance(Turn::Reader).slot == p.slot,
        transition(p.reader, reader_event(p), !p.slot.ready).1 == ReaderAction::Stop,
{
}

} // verus!
