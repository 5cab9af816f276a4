//! The tempo estimator: it takes the timestamps of MIDI clock pulses one by
//! one and keeps a smoothed estimate of the time between two pulses.

use vstd::prelude::*;
use crate::time::{ticks_between, Duration, Timestamp, MAX_GAP};

verus! {

/// Pulses per quarter note of the MIDI standard.
pub const DEFAULT_PULSES_PER_QUARTER_NOTE: u32 = 24;

/// What an estimator holds, with every time in ticks.
pub struct Tempo {
    /// The last pulse that was taken in, if any.
    pub previous_pulse: Option<u64>,
    /// The smoothed time between two pulses, once two pulses were taken in.
    pub pulse_duration: Option<u64>,
    /// The time of one quarter note. Kept in the state, not yet derived.
    pub beat_duration: Option<u64>,
    /// How many pulses make a quarter note.
    pub pulses_per_quarter_note: u32,
}

impl Tempo {
    /// The state of an estimator that has seen no pulse.
    pub open spec fn initial() -> Tempo {
        Tempo {
            previous_pulse: None,
            pulse_duration: None,
            beat_duration: None,
            pulses_per_quarter_note: DEFAULT_PULSES_PER_QUARTER_NOTE,
        }
    }

    /// Every state that an estimator can reach is of this form: an estimate
    /// needs a reference pulse, and never exceeds the largest gap that the
    /// clock reports.
    pub open spec fn wf(self) -> bool {
        &&& self.pulse_duration is Some ==> self.previous_pulse is Some
        &&& self.pulse_duration matches Some(d) ==> d <= MAX_GAP
    }

    /// The time from the previous pulse to a pulse at tick `t`, where there is
    /// a previous pulse and the clock can tell the time between the two.
    pub open spec fn interval(self, t: u64) -> Option<u64> {
        match self.previous_pulse {
            Some(p) => ticks_between(t, p),
            None => None,
        }
    }

    /// A pulse at tick `t` is taken in: it is the first one, or the clock can
    /// tell its distance from the previous one.
    pub open spec fn accepts(self, t: u64) -> bool {
        self.previous_pulse is None || self.interval(t) is Some
    }

    /// The mean of the estimate held and a new interval, rounded down.
    pub open spec fn smooth(estimate: u64, interval: u64) -> u64 {
        ((estimate + interval) / 2) as u64
    }

    /// The state after a pulse at tick `t`. A pulse that is not taken in
    /// changes nothing. One that is becomes the previous pulse; its interval
    /// seeds the estimate where there was none, and is blended into it
    /// otherwise.
    pub open spec fn after(self, t: u64) -> Tempo {
        match self.interval(t) {
            Some(interval) => Tempo {
                previous_pulse: Some(t),
                pulse_duration: Some(
                    match self.pulse_duration {
                        Some(estimate) => Self::smooth(estimate, interval),
                        None => interval,
                    },
                ),
                ..self
            },
            None => if self.previous_pulse is None {
                Tempo { previous_pulse: Some(t), ..self }
            } else {
                self
            },
        }
    }

    /// What a pulse at tick `t` reports: the new estimate, where the pulse is
    /// taken in and there was an estimate to blend its interval into.
    pub open spec fn estimate_at(self, t: u64) -> Option<u64> {
        match (self.interval(t), self.pulse_duration) {
            (Some(interval), Some(estimate)) => Some(Self::smooth(estimate, interval)),
            _ => None,
        }
    }
}

impl Tempo {
    /// The state after the pulses of `pulses`, taken in from first to last.
    pub open spec fn after_all(self, pulses: Seq<u64>) -> Tempo
        decreases pulses.len(),
    {
        if pulses.len() == 0 {
            self
        } else {
            self.after_all(pulses.drop_last()).after(pulses.last())
        }
    }

    /// The distance between an estimate and a period.
    pub open spec fn error(estimate: u64, period: u64) -> int {
        if estimate >= period {
            estimate - period
        } else {
            period - estimate
        }
    }

    /// A pulse never breaks the form of the state.
    pub proof fn after_keeps_wf(self, t: u64)
        requires
            self.wf(),
        ensures
            self.after(t).wf(),
    {
    }

    /// Only the previous pulse and the estimate ever change, and the previous
    /// pulse changes exactly when the pulse is taken in.
    pub proof fn after_touches_two_fields(self, t: u64)
        ensures
            self.after(t).beat_duration == self.beat_duration,
            self.after(t).pulses_per_quarter_note == self.pulses_per_quarter_note,
            self.accepts(t) ==> self.after(t).previous_pulse == Some(t),
            !self.accepts(t) ==> self.after(t) == self,
    {
    }

    /// A pulse before the previous one changes nothing and reports nothing.
    pub proof fn earlier_pulse_is_ignored(self, t: u64)
        requires
            self.previous_pulse matches Some(p) && t < p,
        ensures
            self.after(t) == self,
            self.estimate_at(t) is None,
    {
    }

    /// A fresh estimator reports nothing at its first pulse, whatever the
    /// pulse, and holds no estimate after it.
    pub proof fn first_pulse_sets_reference(t: u64)
        ensures
            Tempo::initial().estimate_at(t) is None,
            Tempo::initial().after(t).previous_pulse == Some(t),
            Tempo::initial().after(t).pulse_duration is None,
    {
    }

    /// The second pulse reports nothing either, though its interval can be
    /// told: that interval becomes the estimate.
    pub proof fn second_pulse_seeds_estimate(self, t: u64)
        requires
            self.pulse_duration is None,
            self.interval(t) is Some,
        ensures
            self.estimate_at(t) is None,
            self.after(t).pulse_duration == self.interval(t),
    {
    }

    /// Once there is an estimate, every pulse that is taken in reports one,
    /// and it is the estimate held from then on.
    pub proof fn later_pulses_report(self, t: u64)
        requires
            self.pulse_duration is Some,
            self.interval(t) is Some,
        ensures
            self.estimate_at(t) is Some,
            self.estimate_at(t) == self.after(t).pulse_duration,
    {
    }

    /// After a run of pulses from a fresh estimator, each of them taken in,
    /// there is an estimate exactly when there were two pulses or more.
    pub proof fn estimate_needs_two_pulses(pulses: Seq<u64>)
        requires
            forall|i: int|
                0 <= i < pulses.len() ==> #[trigger] Tempo::initial().after_all(
                    pulses.take(i),
                ).accepts(pulses[i]),
        ensures
            Tempo::initial().after_all(pulses).previous_pulse is Some <==> pulses.len() >= 1,
            Tempo::initial().after_all(pulses).pulse_duration is Some <==> pulses.len() >= 2,
            pulses.len() >= 1 ==> Tempo::initial().after_all(pulses).previous_pulse == Some(
                pulses.last(),
            ),
        decreases pulses.len(),
    {
        if pulses.len() > 0 {
            let front = pulses.drop_last();
            assert forall|i: int| 0 <= i < front.len() implies #[trigger] Tempo::initial().after_all(
                front.take(i),
            ).accepts(front[i]) by {
                assert(front.take(i) == pulses.take(i));
            }
            Self::estimate_needs_two_pulses(front);
            assert(pulses.take(pulses.len() - 1) == front);
            assert(Tempo::initial().after_all(front).accepts(pulses[pulses.len() - 1]));
        }
    }

    /// Each pulse that is taken in moves the estimate toward the interval that
    /// the pulse shows, never away from it: the distance between the two is
    /// halved, rounded up. An estimate that equals the interval stays.
    pub proof fn estimate_approaches_interval(self, t: u64)
        requires
            self.pulse_duration is Some,
            self.interval(t) is Some,
        ensures
            ({
                let held = self.pulse_duration.unwrap();
                let interval = self.interval(t).unwrap();
                let next = self.after(t).pulse_duration.unwrap();
                &&& self.after(t).pulse_duration is Some
                &&& Self::error(next, interval) <= Self::error(held, interval)
                &&& 2 * Self::error(next, interval) <= Self::error(held, interval) + 1
                &&& held == interval ==> next == interval
            }),
    {
    }

    /// A distance after it was halved `times` times, rounded up each time.
    pub open spec fn halved(distance: int, times: nat) -> int
        decreases times,
    {
        if times == 0 {
            distance
        } else {
            (Self::halved(distance, (times - 1) as nat) + 1) / 2
        }
    }

    /// Ten halvings bring any distance down to a 1024th of it, or to one tick.
    pub proof fn ten_halvings(distance: int)
        requires
            distance >= 0,
        ensures
            0 <= Self::halved(distance, 10) <= distance / 1024 + 1,
    {
        reveal_with_fuel(Tempo::halved, 11);
    }

    /// The pulses of a train that starts at `start` and has `period` ticks
    /// between one pulse and the next.
    pub open spec fn train(start: u64, period: u64, len: nat) -> Seq<u64> {
        Seq::new(len, |i: int| (start + i * period) as u64)
    }

    /// On a train of constant period that the counter can hold, the estimate
    /// is the period itself from the second pulse on, and every pulse from the
    /// third on reports exactly the period.
    pub proof fn periodic_train_is_exact(start: u64, period: u64, len: nat)
        requires
            len >= 2,
            period <= MAX_GAP,
            start + (len - 1) * period <= u64::MAX,
        ensures
            Tempo::initial().after_all(Self::train(start, period, len)) == (Tempo {
                previous_pulse: Some((start + (len - 1) * period) as u64),
                pulse_duration: Some(period),
                ..Tempo::initial()
            }),
            len >= 3 ==> Tempo::initial().after_all(
                Self::train(start, period, (len - 1) as nat),
            ).estimate_at(Self::train(start, period, len).last()) == Some(period),
        decreases len,
    {
        let pulses = Self::train(start, period, len);
        let front = Self::train(start, period, (len - 1) as nat);
        assert(pulses.drop_last() == front);
        assert((len - 2) * period + period == (len - 1) * period) by (nonlinear_arith);
        assert(0 <= (len - 2) * period) by (nonlinear_arith)
            requires
                len >= 2,
                period >= 0,
        ;
        let last = (start + (len - 1) * period) as u64;
        let before = (start + (len - 2) * period) as u64;
        assert(pulses.last() == last);
        assert(ticks_between(last, before) == Some(period));
        if len == 2 {
            assert(front.drop_last() == Seq::<u64>::empty());
            assert(front.last() == start);
            assert(Tempo::initial().after_all(front.drop_last()) == Tempo::initial());
            assert(Tempo::initial().after_all(front) == Tempo::initial().after(start));
        } else {
            Self::periodic_train_is_exact(start, period, (len - 1) as nat);
        }
    }

    /// On a train of constant period that goes on from the previous pulse,
    /// whatever the estimate was, its distance from the period is halved with
    /// every pulse, so that it never grows and is within one tick of the
    /// period as soon as the halvings have used it up.
    pub proof fn train_halves_error(self, period: u64, len: nat)
        requires
            self.previous_pulse is Some,
            self.pulse_duration is Some,
            period <= MAX_GAP,
            self.previous_pulse.unwrap() + len * period <= u64::MAX,
        ensures
            ({
                let previous = self.previous_pulse.unwrap();
                let pulses = Self::train((previous + period) as u64, period, len);
                let end = self.after_all(pulses);
                &&& end.previous_pulse == Some((previous + len * period) as u64)
                &&& end.pulse_duration is Some
                &&& Self::error(end.pulse_duration.unwrap(), period) <= Self::halved(
                    Self::error(self.pulse_duration.unwrap(), period),
                    len,
                )
                &&& Self::halved(Self::error(self.pulse_duration.unwrap(), period), len)
                    <= Self::error(self.pulse_duration.unwrap(), period)
            }),
        decreases len,
    {
        let previous = self.previous_pulse.unwrap();
        let start = (previous + period) as u64;
        let pulses = Self::train(start, period, len);
        if len == 0 {
            assert(len * period == 0) by (nonlinear_arith)
                requires
                    len == 0,
            ;
        } else {
            let shorter = (len - 1) as nat;
            assert(shorter * period + period == len * period) by (nonlinear_arith)
                requires
                    shorter == len - 1,
            ;
            assert(0 <= shorter * period) by (nonlinear_arith)
                requires
                    shorter >= 0,
                    period >= 0,
            ;
            self.train_halves_error(period, shorter);
            let front = Self::train(start, period, shorter);
            assert(pulses.drop_last() == front);
            let before = self.after_all(front);
            let last = (previous + len * period) as u64;
            assert(pulses.last() == (start + shorter * period) as u64);
            assert(pulses.last() == last);
            assert(before.interval(last) == Some(period));
            before.estimate_approaches_interval(last);
        }
    }
}

/// A clock that is synchronised by samples of an outside pulse.
pub trait SyncClock<const TIMER_HZ: u32> {
    /// The pulse period that the clock holds, in ticks.
    spec fn period(&self) -> Option<u64>;

    /// Takes in the time of one pulse. Where it returns an estimate, that is
    /// the period the clock holds from then on.
    fn add_sample(&mut self, instant: Timestamp<TIMER_HZ>) -> (estimate: Option<
        Duration<TIMER_HZ>,
    >)
        ensures
            estimate matches Some(d) ==> final(self).period() == Some(d@),
    ;
}

/// Estimates the period of MIDI clock pulses by an exponential moving average
/// with a smoothing factor of one half. It holds one timestamp and one
/// estimate, however long the stream.
pub struct MidiSync<const TIMER_HZ: u32, const BUF_SIZE: usize> {
    pulse_duration: Option<Duration<TIMER_HZ>>,
    beat_duration: Option<Duration<TIMER_HZ>>,
    previous_sample: Option<Timestamp<TIMER_HZ>>,
    pulses_per_quarter_note: u32,
}

impl<const TIMER_HZ: u32, const BUF_SIZE: usize> MidiSync<TIMER_HZ, BUF_SIZE> {
    /// What the estimator holds.
    pub closed spec fn view(&self) -> Tempo {
        Tempo {
            previous_pulse: match self.previous_sample {
                Some(t) => Some(t@),
                None => None,
            },
            pulse_duration: match self.pulse_duration {
                Some(d) => Some(d@),
                None => None,
            },
            beat_duration: match self.beat_duration {
                Some(d) => Some(d@),
                None => None,
            },
            pulses_per_quarter_note: self.pulses_per_quarter_note,
        }
    }

    #[verifier::type_invariant]
    closed spec fn inv(&self) -> bool {
        self@.wf()
    }

    /// An estimator that has seen no pulse, at 24 pulses per quarter note.
    pub fn new() -> (sync: Self)
        ensures
            sync@ == Tempo::initial(),
            sync@.wf(),
    {
        MidiSync {
            pulse_duration: None,
            beat_duration: None,
            previous_sample: None,
            pulses_per_quarter_note: DEFAULT_PULSES_PER_QUARTER_NOTE,
        }
    }

    /// The last pulse that was taken in.
    pub fn previous_pulse(&self) -> (pulse: Option<Timestamp<TIMER_HZ>>)
        ensures
            pulse is Some == self@.previous_pulse is Some,
            pulse matches Some(t) ==> self@.previous_pulse == Some(t@),
    {
        self.previous_sample
    }

    /// The current estimate of the time between two pulses.
    pub fn pulse_duration(&self) -> (estimate: Option<Duration<TIMER_HZ>>)
        ensures
            estimate is Some == self@.pulse_duration is Some,
            estimate matches Some(d) ==> self@.pulse_duration == Some(d@),
    {
        self.pulse_duration
    }

    /// The time of one quarter note, where it has been derived.
    pub fn beat_duration(&self) -> (beat: Option<Duration<TIMER_HZ>>)
        ensures
            beat is Some == self@.beat_duration is Some,
            beat matches Some(d) ==> self@.beat_duration == Some(d@),
    {
        self.beat_duration
    }

    /// How many pulses make a quarter note.
    pub fn pulses_per_quarter_note(&self) -> (pulses: u32)
        ensures
            pulses == self@.pulses_per_quarter_note,
    {
        self.pulses_per_quarter_note
    }

}

impl<const TIMER_HZ: u32, const BUF_SIZE: usize> SyncClock<TIMER_HZ> for MidiSync<
    TIMER_HZ,
    BUF_SIZE,
> {
    open spec fn period(&self) -> Option<u64> {
        self@.pulse_duration
    }

    /// Takes in the pulse at `sample`. The first pulse only sets the reference
    /// point and the second only seeds the estimate, so neither reports one. A
    /// sample from which the clock can tell no time since the previous pulse
    /// (it lies before it, or too far after it) changes nothing and reports
    /// nothing.
    fn add_sample(&mut self, sample: Timestamp<TIMER_HZ>) -> (estimate: Option<
        Duration<TIMER_HZ>,
    >)
        ensures
            final(self)@ == old(self)@.after(sample@),
            final(self)@.wf(),
            estimate is Some == old(self)@.estimate_at(sample@) is Some,
            estimate matches Some(d) ==> Some(d@) == old(self)@.estimate_at(sample@),
    {
        proof {
            use_type_invariant(&*self);
        }
        match self.previous_sample {
            Some(previous) => {
                match sample.checked_duration_since(previous) {
                    Some(interval) => {
                        self.previous_sample = Some(sample);
                        match self.pulse_duration {
                            Some(held) => {
                                match held.checked_add(interval) {
                                    Some(sum) => {
                                        let blended = sum.div(2);
                                        self.pulse_duration = Some(blended);
                                        Some(blended)
                                    },
                                    None => None,
                                }
                            },
                            None => {
                                self.pulse_duration = Some(interval);
                                None
                            },
                        }
                    },
                    None => None,
                }
            },
            None => {
                self.previous_sample = Some(sample);
                None
            },
        }
    }
}

} // verus!

