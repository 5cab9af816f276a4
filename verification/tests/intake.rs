use midi_sync::dispatch::{dispatch, dispatch_all, frames, Routed};
use midi_sync::intake::{Action, Event, Intake, Phase, READ_BUFFER_LEN};
use midi_sync::packet::{LiveEvent, MidiMessage, UsbMidiPacket};
use midi_sync::sync::MidiSync;
use midi_sync::time::{Duration, Timestamp};

type Sync = MidiSync<1000, 8>;

const CLOCK: [u8; 4] = [0x0F, 0xF8, 0, 0];
const NOTE_ON: [u8; 4] = [0x09, 0x90, 60, 100];
const RESERVED: [u8; 4] = [0x01, 0x12, 0x34, 0x56];

fn at(ticks: u64) -> Timestamp<1000> {
    Timestamp::from_ticks(ticks)
}

fn state(sync: &Sync) -> (Option<u64>, Option<u64>) {
    (
        sync.previous_pulse().map(|t| t.ticks()),
        sync.pulse_duration().map(|d| d.ticks()),
    )
}

fn pulse(ticks: Option<u64>) -> Routed<1000> {
    Routed::Pulse(ticks.map(Duration::from_ticks))
}

#[test]
fn frames_are_cut_by_four() {
    let bytes: Vec<u8> = (0..8).collect();
    assert_eq!(frames(&bytes), vec![[0, 1, 2, 3], [4, 5, 6, 7]]);
    assert_eq!(frames(&[]), Vec::<[u8; 4]>::new());
}

#[test]
fn short_tail_is_left_out() {
    let bytes: Vec<u8> = (0..11).collect();
    assert_eq!(frames(&bytes), vec![[0, 1, 2, 3], [4, 5, 6, 7]]);
    assert_eq!(frames(&[1, 2, 3]), Vec::<[u8; 4]>::new());
    assert_eq!(frames(&[1, 2, 3, 4, 5]), vec![[1, 2, 3, 4]]);
}

#[test]
fn timing_clock_feeds_the_estimator() {
    let mut sync = Sync::new();
    assert_eq!(dispatch(&mut sync, &CLOCK, at(0)), pulse(None));
    assert_eq!(dispatch(&mut sync, &CLOCK, at(1000)), pulse(None));
    assert_eq!(dispatch(&mut sync, &CLOCK, at(2000)), pulse(Some(1000)));
    assert_eq!(state(&sync), (Some(2000), Some(1000)));
}

#[test]
fn other_events_are_forwarded() {
    let mut sync = Sync::new();
    dispatch(&mut sync, &CLOCK, at(0));
    let before = state(&sync);
    let routed = dispatch(&mut sync, &NOTE_ON, at(500));
    let note = LiveEvent::Midi { channel: 0, message: MidiMessage::NoteOn { key: 60, vel: 100 } };
    assert_eq!(routed, Routed::Forwarded(UsbMidiPacket::new(0, note).unwrap()));
    assert_eq!(dispatch(&mut sync, &[0x0F, 0xFA, 0, 0], at(600)), Routed::Forwarded(
        UsbMidiPacket::read(&[0x0F, 0xFA, 0, 0])
    ));
    assert_eq!(state(&sync), before);
}

#[test]
fn unknown_frame_is_dropped_and_changes_nothing() {
    let mut sync = Sync::new();
    dispatch(&mut sync, &CLOCK, at(0));
    dispatch(&mut sync, &CLOCK, at(1000));
    let before = state(&sync);
    assert_eq!(dispatch(&mut sync, &RESERVED, at(1500)), Routed::Dropped);
    assert_eq!(state(&sync), before);
    assert_eq!(dispatch(&mut sync, &CLOCK, at(2000)), pulse(Some(1000)));
}

#[test]
fn unknown_frame_does_not_halt_the_batch() {
    let mut bytes = Vec::new();
    bytes.extend_from_slice(&CLOCK);
    bytes.extend_from_slice(&RESERVED);
    bytes.extend_from_slice(&CLOCK);
    bytes.extend_from_slice(&NOTE_ON);
    bytes.extend_from_slice(&CLOCK);
    bytes.extend_from_slice(&[0x0F, 0xF8]);
    let stamps: Vec<Timestamp<1000>> = [0u64, 10, 1000, 1010, 2000].iter().map(|t| at(*t)).collect();
    let mut sync = Sync::new();
    let routed = dispatch_all(&mut sync, &bytes, &stamps);
    assert_eq!(
        routed,
        vec![
            pulse(None),
            Routed::Dropped,
            pulse(None),
            Routed::Forwarded(UsbMidiPacket::read(&NOTE_ON)),
            pulse(Some(1000)),
        ]
    );
    assert_eq!(state(&sync), (Some(2000), Some(1000)));
}

#[test]
fn batch_stops_where_the_timestamps_end() {
    let mut bytes = Vec::new();
    for _ in 0..3 {
        bytes.extend_from_slice(&CLOCK);
    }
    let mut sync = Sync::new();
    let routed = dispatch_all(&mut sync, &bytes, &[at(0), at(100)]);
    assert_eq!(routed, vec![pulse(None), pulse(None)]);
    assert_eq!(state(&sync), (Some(100), Some(100)));
    let none = dispatch_all(&mut sync, &bytes, &[]);
    assert_eq!(none, Vec::new());
    assert_eq!(state(&sync), (Some(100), Some(100)));
}

#[test]
fn interrupt_with_nothing_pending_returns() {
    let mut intake = Intake::new();
    assert_eq!(intake.phase(), Phase::Idle);
    assert!(!intake.busy());
    assert_eq!(intake.action(), Action::Return);
    assert_eq!(intake.handle(Event::Interrupt), Action::Poll);
    assert!(intake.busy());
    assert_eq!(intake.handle(Event::Polled { pending: false }), Action::Return);
    assert!(!intake.busy());
    assert_eq!(intake.phase(), Phase::Idle);
}

#[test]
fn one_read_is_processed_then_relayed() {
    let mut intake = Intake::new();
    intake.handle(Event::Interrupt);
    assert_eq!(intake.handle(Event::Polled { pending: true }), Action::Read { max: 64 });
    assert_eq!(intake.handle(Event::Read { count: Some(8) }), Action::Process { count: 8 });
    assert_eq!(intake.handle(Event::Processed), Action::Write { from: 0, to: 8 });
    assert_eq!(intake.handle(Event::Written { count: Some(3) }), Action::Write { from: 3, to: 8 });
    assert_eq!(intake.handle(Event::Written { count: Some(0) }), Action::Write { from: 3, to: 8 });
    assert_eq!(intake.handle(Event::Written { count: None }), Action::Write { from: 3, to: 8 });
    assert_eq!(intake.handle(Event::Written { count: Some(4) }), Action::Write { from: 7, to: 8 });
    assert_eq!(intake.handle(Event::Written { count: Some(1) }), Action::Poll);
    assert!(intake.busy());
    assert_eq!(intake.handle(Event::Polled { pending: false }), Action::Return);
}

#[test]
fn empty_or_failed_read_goes_back_to_the_poll() {
    for count in [Some(0), None, Some(READ_BUFFER_LEN + 1), Some(usize::MAX)] {
        let mut intake = Intake::new();
        intake.handle(Event::Interrupt);
        intake.handle(Event::Polled { pending: true });
        assert_eq!(intake.handle(Event::Read { count }), Action::Poll);
        assert_eq!(intake.phase(), Phase::Polling);
    }
    let mut intake = Intake::new();
    intake.handle(Event::Interrupt);
    intake.handle(Event::Polled { pending: true });
    assert_eq!(intake.handle(Event::Read { count: Some(64) }), Action::Process { count: 64 });
    assert_eq!(intake.handle(Event::Read { count: Some(1) }), Action::Process { count: 64 });
}

#[test]
fn write_that_takes_too_much_ends_the_relay() {
    let mut intake = Intake::new();
    intake.handle(Event::Interrupt);
    intake.handle(Event::Polled { pending: true });
    intake.handle(Event::Read { count: Some(5) });
    intake.handle(Event::Processed);
    assert_eq!(intake.handle(Event::Written { count: Some(usize::MAX) }), Action::Poll);
}

#[test]
fn event_out_of_turn_changes_nothing() {
    let mut intake = Intake::new();
    assert_eq!(intake.handle(Event::Processed), Action::Return);
    assert_eq!(intake.handle(Event::Polled { pending: true }), Action::Return);
    assert_eq!(intake.handle(Event::Written { count: Some(1) }), Action::Return);
    intake.handle(Event::Interrupt);
    assert_eq!(intake.handle(Event::Interrupt), Action::Poll);
    assert_eq!(intake.handle(Event::Read { count: Some(4) }), Action::Poll);
    intake.handle(Event::Polled { pending: true });
    assert_eq!(intake.handle(Event::Polled { pending: false }), Action::Read { max: 64 });
    intake.handle(Event::Read { count: Some(4) });
    assert_eq!(intake.handle(Event::Written { count: Some(4) }), Action::Process { count: 4 });
    assert_eq!(intake.phase(), Phase::Processing { count: 4 });
}

/// Runs the intake over `input`, with an endpoint that hands out at most one
/// buffer per read and takes `takes[k]` bytes at most in the write number k,
/// failing where that is `None`. Gives what the endpoint took, in order.
fn echo(input: &[u8], takes: &[Option<usize>]) -> Vec<u8> {
    let mut intake = Intake::new();
    let mut buffer = [0u8; 64];
    let mut read_at = 0usize;
    let mut write_no = 0usize;
    let mut output = Vec::new();
    let mut action = intake.handle(Event::Interrupt);
    loop {
        let event = match action {
            Action::Return => break,
            Action::Poll => Event::Polled { pending: read_at < input.len() },
            Action::Read { max } => {
                let count = max.min(input.len() - read_at);
                buffer[..count].copy_from_slice(&input[read_at..read_at + count]);
                read_at += count;
                Event::Read { count: Some(count) }
            }
            Action::Process { .. } => Event::Processed,
            Action::Write { from, to } => {
                let take = takes[write_no % takes.len()];
                write_no += 1;
                let count = take.map(|n| n.min(to - from));
                if let Some(n) = count {
                    output.extend_from_slice(&buffer[from..from + n]);
                }
                Event::Written { count }
            }
        };
        action = intake.handle(event);
    }
    assert!(!intake.busy());
    output
}

#[test]
fn echo_is_faithful_under_partial_writes() {
    let input: Vec<u8> = (0..150u32).map(|i| (i * 7 + 3) as u8).collect();
    assert_eq!(echo(&input, &[Some(1)]), input);
    assert_eq!(echo(&input, &[Some(3), Some(0), None, Some(1), Some(2)]), input);
    assert_eq!(echo(&input, &[Some(64)]), input);
    assert_eq!(echo(&input, &[Some(1000)]), input);
    assert_eq!(echo(&input, &[None, Some(63), Some(5)]), input);
}

#[test]
fn echo_of_short_batches_is_faithful() {
    for len in [0usize, 1, 3, 4, 63, 64, 65, 127, 129] {
        let input: Vec<u8> = (0..len).map(|i| (255 - i % 251) as u8).collect();
        assert_eq!(echo(&input, &[Some(2), Some(0), Some(5)]), input);
    }
}
