use emu_nb_stdin::handle::{EmuNbStdin, Feeder};
use emu_nb_stdin::reader::{next_step, stage_request, ReadOutcome, ReaderAction, ReaderEvent, ReaderState};
use emu_nb_stdin::slot::Handoff;
use ReaderAction as A;
use ReaderEvent as E;
use ReaderState as S;

/// Drives the reader's end as a background loop would, with `input` as the
/// source, until the reader asks for a delay, stops or aborts.
fn feed_until_waiting(feeder: &mut Feeder, input: &mut Vec<u8>) -> ReaderAction {
    let mut action = feeder.step(ReaderEvent::Tick);
    loop {
        match action {
            ReaderAction::ReadByte => {
                let outcome = if input.is_empty() {
                    ReadOutcome::End
                } else {
                    ReadOutcome::Byte(input.remove(0))
                };
                action = feeder.step(ReaderEvent::Read(outcome));
            }
            ReaderAction::Pace => action = feeder.step(ReaderEvent::Tick),
            other => return other,
        }
    }
}

#[test]
fn new_slot_is_empty() {
    let mut h = Handoff::new();
    assert!(!h.poll());
    assert_eq!(h.receive(), None);
    assert!(!h.poll());
}

#[test]
fn stage_then_receive() {
    let mut h = Handoff::new();
    assert!(h.stage(0x41));
    assert!(h.poll());
    assert_eq!(h.receive(), Some(0x41));
    assert!(!h.poll());
}

#[test]
fn second_stage_is_refused_while_staged() {
    let mut h = Handoff::new();
    assert!(h.stage(1));
    assert!(!h.stage(2));
    assert!(h.poll());
    assert_eq!(h.receive(), Some(1));
    assert_eq!(h.receive(), None);
}

#[test]
fn poll_is_idempotent() {
    let mut h = Handoff::new();
    assert_eq!(h.poll(), h.poll());
    h.stage(7);
    assert!(h.poll());
    assert!(h.poll());
    assert!(h.poll());
    assert_eq!(h.receive(), Some(7));
}

#[test]
fn drain_then_empty() {
    let mut h = Handoff::new();
    h.stage(0xff);
    assert_eq!(h.receive(), Some(0xff));
    assert_eq!(h.receive(), None);
    assert!(h.stage(0x00));
    assert_eq!(h.receive(), Some(0x00));
}

#[test]
fn two_bytes_arrive_in_order() {
    let (mut handle, mut feeder) = EmuNbStdin::channel();
    let mut input = vec![0x41u8, 0x42];
    assert!(!handle.poll());
    assert_eq!(feed_until_waiting(&mut feeder, &mut input), ReaderAction::Retry);
    assert!(handle.poll());
    assert_eq!(handle.receive(), Some(0x41));
    assert!(!handle.poll());
    assert_eq!(handle.receive(), None);
    assert_eq!(feed_until_waiting(&mut feeder, &mut input), ReaderAction::Retry);
    assert!(handle.poll());
    assert_eq!(handle.receive(), Some(0x42));
    assert_eq!(feed_until_waiting(&mut feeder, &mut input), ReaderAction::Stop);
    assert_eq!(feeder.current(), ReaderState::Finished);
    assert!(!handle.poll());
    assert_eq!(handle.receive(), None);
}

#[test]
fn reader_waits_until_taken() {
    let (mut handle, mut feeder) = EmuNbStdin::channel();
    assert_eq!(feeder.step(ReaderEvent::Tick), ReaderAction::ReadByte);
    assert_eq!(feeder.step(ReaderEvent::Read(ReadOutcome::Byte(9))), ReaderAction::Retry);
    assert_eq!(feeder.current(), ReaderState::Waiting);
    assert_eq!(feeder.step(ReaderEvent::Tick), ReaderAction::Retry);
    assert_eq!(feeder.step(ReaderEvent::Tick), ReaderAction::Retry);
    assert!(handle.poll());
    assert_eq!(handle.receive(), Some(9));
    assert_eq!(feeder.step(ReaderEvent::Tick), ReaderAction::Pace);
    assert_eq!(feeder.current(), ReaderState::Idle);
}

#[test]
fn many_bytes_arrive_in_order() {
    let (mut handle, mut feeder) = EmuNbStdin::channel();
    let original: Vec<u8> = (0u8..=255).collect();
    let mut input = original.clone();
    let mut received = Vec::new();
    loop {
        let action = feed_until_waiting(&mut feeder, &mut input);
        while handle.poll() {
            received.push(handle.receive().unwrap());
        }
        if action == ReaderAction::Stop {
            break;
        }
    }
    assert_eq!(received, original);
    assert!(!handle.poll());
}

#[test]
fn end_of_input_is_permanent() {
    let (mut handle, mut feeder) = EmuNbStdin::channel();
    assert_eq!(feeder.step(ReaderEvent::Read(ReadOutcome::End)), ReaderAction::Stop);
    for _ in 0..5 {
        assert_eq!(feeder.step(ReaderEvent::Tick), ReaderAction::Stop);
        assert_eq!(feeder.step(ReaderEvent::Read(ReadOutcome::Byte(1))), ReaderAction::Stop);
        assert!(!handle.poll());
        assert_eq!(handle.receive(), None);
    }
}

#[test]
fn read_failure_aborts() {
    let (mut handle, mut feeder) = EmuNbStdin::channel();
    assert_eq!(feeder.step(ReaderEvent::Read(ReadOutcome::Failed)), ReaderAction::Abort);
    assert_eq!(feeder.current(), ReaderState::Finished);
    assert!(!handle.poll());
    assert_eq!(handle.receive(), None);
}

#[test]
fn read_while_in_flight_aborts() {
    let (_handle, mut feeder) = EmuNbStdin::channel();
    feeder.step(ReaderEvent::Read(ReadOutcome::Byte(3)));
    assert_eq!(feeder.step(ReaderEvent::Read(ReadOutcome::Byte(4))), ReaderAction::Abort);
    assert_eq!(feeder.current(), ReaderState::Waiting);
}

#[test]
fn transitions_table() {
    let byte = E::Read(ReadOutcome::Byte(5));
    assert_eq!(next_step(S::Idle, E::Tick, true), (S::Idle, A::ReadByte));
    assert_eq!(next_step(S::Idle, byte, true), (S::Waiting, A::Retry));
    assert_eq!(next_step(S::Idle, byte, false), (S::Holding(5), A::Retry));
    assert_eq!(next_step(S::Idle, E::Read(ReadOutcome::End), false), (S::Finished, A::Stop));
    assert_eq!(next_step(S::Idle, E::Read(ReadOutcome::Failed), true), (S::Finished, A::Abort));
    assert_eq!(next_step(S::Holding(5), E::Tick, false), (S::Holding(5), A::Retry));
    assert_eq!(next_step(S::Holding(5), E::Tick, true), (S::Waiting, A::Retry));
    assert_eq!(next_step(S::Holding(5), byte, true), (S::Holding(5), A::Abort));
    assert_eq!(next_step(S::Waiting, E::Tick, false), (S::Waiting, A::Retry));
    assert_eq!(next_step(S::Waiting, E::Tick, true), (S::Idle, A::Pace));
    assert_eq!(next_step(S::Finished, E::Tick, true), (S::Finished, A::Stop));
}

#[test]
fn stage_requests() {
    assert_eq!(stage_request(ReaderState::Idle, ReaderEvent::Read(ReadOutcome::Byte(8))), Some(8));
    assert_eq!(stage_request(ReaderState::Holding(6), ReaderEvent::Tick), Some(6));
    assert_eq!(stage_request(ReaderState::Idle, ReaderEvent::Tick), None);
    assert_eq!(stage_request(ReaderState::Waiting, ReaderEvent::Tick), None);
    assert_eq!(stage_request(ReaderState::Idle, ReaderEvent::Read(ReadOutcome::End)), None);
}
