//! What the intake does with the bytes of one read: it cuts them into frames,
//! decodes each frame, hands timing clock pulses to the tempo estimator and
//! passes every other known event on.

use vstd::prelude::*;
use crate::packet::{LiveEvent, SystemRealtime, UsbMidiPacket, FRAME_LEN};
use crate::sync::{MidiSync, SyncClock, Tempo};
use crate::time::{Duration, Timestamp};

verus! {

/// Where one frame goes, with every time in ticks.
pub enum Route {
    /// A timing clock pulse: it went to the estimator, which reported this.
    Pulse(Option<u64>),
    /// Any other known event: it is passed on.
    Forwarded(UsbMidiPacket),
    /// An unknown event: it is dropped.
    Dropped,
}

/// Where one frame went.
#[derive(Clone, Copy, Debug, PartialEq, Eq)]
pub enum Routed<const TIMER_HZ: u32> {
    /// A timing clock pulse: it went to the estimator, which reported this.
    Pulse(Option<Duration<TIMER_HZ>>),
    /// Any other known event: it is for the application.
    Forwarded(UsbMidiPacket),
    /// An unknown event: it was dropped.
    Dropped,
}

impl<const TIMER_HZ: u32> Routed<TIMER_HZ> {
    pub open spec fn view(&self) -> Route {
        match *self {
            Routed::Pulse(Some(estimate)) => Route::Pulse(Some(estimate@)),
            Routed::Pulse(None) => Route::Pulse(None),
            Routed::Forwarded(packet) => Route::Forwarded(packet),
            Routed::Dropped => Route::Dropped,
        }
    }
}

/// Whether `frame` carries a timing clock pulse.
pub open spec fn is_pulse(frame: Seq<u8>) -> bool {
    UsbMidiPacket::decode(frame).event == LiveEvent::Realtime(SystemRealtime::TimingClock)
}

/// Where `frame` goes when it is processed at tick `now` by an estimator in
/// the state `tempo`.
pub open spec fn route(tempo: Tempo, frame: Seq<u8>, now: u64) -> Route {
    if is_pulse(frame) {
        Route::Pulse(tempo.estimate_at(now))
    } else if UsbMidiPacket::decode(frame).event == LiveEvent::Unknown {
        Route::Dropped
    } else {
        Route::Forwarded(UsbMidiPacket::decode(frame))
    }
}

/// The state of the estimator after `frame` was processed at tick `now`:
/// only a timing clock pulse reaches it.
pub open spec fn tempo_after_frame(tempo: Tempo, frame: Seq<u8>, now: u64) -> Tempo {
    if is_pulse(frame) {
        tempo.after(now)
    } else {
        tempo
    }
}

/// The number of whole frames in `bytes`. What is left after the last whole
/// frame is not processed.
pub open spec fn frame_count(bytes: Seq<u8>) -> nat {
    bytes.len() / FRAME_LEN as nat
}

/// The frame of `bytes` with the index `i`.
pub open spec fn frame_at(bytes: Seq<u8>, i: int) -> Seq<u8> {
    bytes.subrange(FRAME_LEN * i, FRAME_LEN * i + FRAME_LEN)
}

/// The state of the estimator after the first `n` frames of `bytes` were
/// processed in order, the frame with index `i` at tick `stamps[i]`.
pub open spec fn tempo_after_frames(tempo: Tempo, bytes: Seq<u8>, stamps: Seq<u64>, n: nat) -> Tempo
    decreases n,
{
    if n == 0 {
        tempo
    } else {
        tempo_after_frame(
            tempo_after_frames(tempo, bytes, stamps, (n - 1) as nat),
            frame_at(bytes, n - 1),
            stamps[n - 1],
        )
    }
}

/// Where the frame of `bytes` with the index `i` goes when the frames are
/// processed in order, each at its tick.
pub open spec fn route_at(tempo: Tempo, bytes: Seq<u8>, stamps: Seq<u64>, i: int) -> Route {
    route(tempo_after_frames(tempo, bytes, stamps, i as nat), frame_at(bytes, i), stamps[i])
}

/// The ticks of a run of timestamps.
pub open spec fn ticks_of<const TIMER_HZ: u32>(stamps: Seq<Timestamp<TIMER_HZ>>) -> Seq<u64> {
    Seq::new(stamps.len(), |i: int| stamps[i]@)
}

/// An unknown frame is dropped and leaves the estimator as it was.
pub proof fn unknown_frame_changes_nothing(tempo: Tempo, frame: Seq<u8>, now: u64)
    requires
        UsbMidiPacket::decode(frame).event == LiveEvent::Unknown,
    ensures
        route(tempo, frame, now) == Route::Dropped,
        tempo_after_frame(tempo, frame, now) == tempo,
{
}

/// Only a timing clock pulse changes the estimator: a batch without one
/// leaves it as it was, whatever else the batch holds.
pub proof fn batch_without_pulse_changes_nothing(
    tempo: Tempo,
    bytes: Seq<u8>,
    stamps: Seq<u64>,
    n: nat,
)
    requires
        forall|i: int| 0 <= i < n ==> !is_pulse(#[trigger] frame_at(bytes, i)),
    ensures
        tempo_after_frames(tempo, bytes, stamps, n) == tempo,
    decreases n,
{
    if n > 0 {
        batch_without_pulse_changes_nothing(tempo, bytes, stamps, (n - 1) as nat);
        assert(!is_pulse(frame_at(bytes, n - 1)));
    }
}

/// A frame that is not a timing clock pulse does not stop the batch, and
/// what comes after it is processed as if the frame had not been there: the
/// frame after it goes where it would go from the state before it.
pub proof fn batch_goes_on_after_frame(tempo: Tempo, bytes: Seq<u8>, stamps: Seq<u64>, i: nat)
    requires
        !is_pulse(frame_at(bytes, i as int)),
    ensures
        tempo_after_frames(tempo, bytes, stamps, i + 1) == tempo_after_frames(
            tempo,
            bytes,
            stamps,
            i,
        ),
        route_at(tempo, bytes, stamps, i as int + 1) == route(
            tempo_after_frames(tempo, bytes, stamps, i),
            frame_at(bytes, i as int + 1),
            stamps[i as int + 1],
        ),
{
}

/// Cuts `bytes` into frames of four bytes, in order. Bytes after the last
/// whole frame are left out.
pub fn frames(bytes: &[u8]) -> (out: Vec<[u8; 4]>)
    ensures
        out.len() == frame_count(bytes@),
        forall|i: int| 0 <= i < out.len() ==> (#[trigger] out[i])@ == frame_at(bytes@, i),
{
    let count: usize = bytes.len() / FRAME_LEN;
    let mut out: Vec<[u8; 4]> = Vec::new();
    let mut i: usize = 0;
    while i < count
        invariant
            count == bytes@.len() / FRAME_LEN as nat,
            bytes@.len() <= usize::MAX,
            i <= count,
            out.len() == i,
            forall|k: int| 0 <= k < i ==> (#[trigger] out[k])@ == frame_at(bytes@, k),
        decreases count - i,
    {
        let at: usize = i * FRAME_LEN;
        let frame = [bytes[at], bytes[at + 1], bytes[at + 2], bytes[at + 3]];
        assert(frame@ =~= frame_at(bytes@, i as int));
        out.push(frame);
        i += 1;
    }
    out
}

/// Processes one frame at the time `now`. A timing clock pulse goes to the
/// estimator, with `now` as its sample. Every other known event is handed
/// back for the application, and an unknown one is dropped; neither touches
/// the estimator.
pub fn dispatch<const TIMER_HZ: u32, const BUF_SIZE: usize>(
    sync: &mut MidiSync<TIMER_HZ, BUF_SIZE>,
    frame: &[u8; 4],
    now: Timestamp<TIMER_HZ>,
) -> (routed: Routed<TIMER_HZ>)
    ensures
        routed@ == route(old(sync)@, frame@, now@),
        final(sync)@ == tempo_after_frame(old(sync)@, frame@, now@),
{
    let packet = UsbMidiPacket::read(frame);
    if packet.event.is_timing_clock() {
        Routed::Pulse(sync.add_sample(now))
    } else {
        match packet.event {
            LiveEvent::Unknown => Routed::Dropped,
            _ => Routed::Forwarded(packet),
        }
    }
}

/// Processes the frames of `bytes` in order, the frame with index `i` at the
/// time `stamps[i]`, and says where each went. Every whole frame that has a
/// timestamp is processed, whatever the frames before it held.
pub fn dispatch_all<const TIMER_HZ: u32, const BUF_SIZE: usize>(
    sync: &mut MidiSync<TIMER_HZ, BUF_SIZE>,
    bytes: &[u8],
    stamps: &[Timestamp<TIMER_HZ>],
) -> (routed: Vec<Routed<TIMER_HZ>>)
    ensures
        routed.len() == if frame_count(bytes@) <= stamps@.len() {
            frame_count(bytes@)
        } else {
            stamps@.len()
        },
        forall|i: int|
            0 <= i < routed.len() ==> (#[trigger] routed[i])@ == route_at(
                old(sync)@,
                bytes@,
                ticks_of(stamps@),
                i,
            ),
        final(sync)@ == tempo_after_frames(
            old(sync)@,
            bytes@,
            ticks_of(stamps@),
            routed.len() as nat,
        ),
{
    let cut = frames(bytes);
    let count: usize = if cut.len() <= stamps.len() {
        cut.len()
    } else {
        stamps.len()
    };
    let ghost start = sync@;
    let ghost ticks = ticks_of(stamps@);
    let mut routed: Vec<Routed<TIMER_HZ>> = Vec::new();
    let mut i: usize = 0;
    while i < count
        invariant
            count <= cut.len(),
            count <= stamps@.len(),
            cut.len() == frame_count(bytes@),
            forall|k: int| 0 <= k < cut.len() ==> (#[trigger] cut[k])@ == frame_at(bytes@, k),
            ticks == ticks_of(stamps@),
            i <= count,
            routed.len() == i,
            forall|k: int|
                0 <= k < i ==> (#[trigger] routed[k])@ == route_at(start, bytes@, ticks, k),
            sync@ == tempo_after_frames(start, bytes@, ticks, i as nat),
        decreases count - i,
    {
        let went = dispatch(sync, &cut[i], stamps[i]);
        routed.push(went);
        i += 1;
    }
    routed
}

} // verus!
