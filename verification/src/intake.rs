//! The decisions of the packet intake, which runs on the USB interrupt. It
//! polls the USB stack until nothing is pending; whenever there is something,
//! it reads up to one buffer of bytes, has their frames processed, and relays
//! the same bytes back in as many writes as the endpoint needs.
//!
//! The intake itself touches no hardware: it is told what happened and says
//! what to do next.

use vstd::prelude::*;

verus! {

/// The size of the buffer that one read fills, in bytes.
pub const READ_BUFFER_LEN: usize = 64;

/// Where the intake stands.
#[derive(Clone, Copy, Debug, PartialEq, Eq, Structural)]
pub enum Phase {
    /// Outside the interrupt.
    Idle,
    /// About to ask the USB stack whether anything is pending.
    Polling,
    /// About to read from the endpoint.
    Reading,
    /// The first `count` bytes of the buffer were read and wait to be
    /// processed.
    Processing { count: usize },
    /// Of the `count` bytes that were read, those before `offset` have been
    /// relayed.
    Writing { offset: usize, count: usize },
}

/// What happened since the intake last said what to do.
#[derive(Clone, Copy, Debug, PartialEq, Eq, Structural)]
pub enum Event {
    /// The USB interrupt fired.
    Interrupt,
    /// The USB stack was polled and said whether anything is pending.
    Polled { pending: bool },
    /// The endpoint was read: it gave this many bytes, or failed.
    Read { count: Option<usize> },
    /// The frames of the bytes that were read have been processed.
    Processed,
    /// The endpoint was written to: it took this many bytes, or failed.
    Written { count: Option<usize> },
}

/// What to do next.
#[derive(Clone, Copy, Debug, PartialEq, Eq, Structural)]
pub enum Action {
    /// Nothing: leave the interrupt.
    Return,
    /// Poll the USB stack.
    Poll,
    /// Read at most `max` bytes from the endpoint into the buffer.
    Read { max: usize },
    /// Process the frames of the first `count` bytes of the buffer.
    Process { count: usize },
    /// Write the bytes of the buffer from index `from` up to `to` to the
    /// endpoint.
    Write { from: usize, to: usize },
}

/// The offset after a write that took `taken` bytes of those from `offset`
/// up to `count`. The endpoint takes no more than it is offered.
pub open spec fn offset_after(offset: int, count: int, taken: int) -> int {
    if offset + taken < count {
        offset + taken
    } else {
        count
    }
}

impl Phase {
    /// The numbers of the phase fit the buffer, and there is something left
    /// to process or to write.
    pub open spec fn wf(self) -> bool {
        match self {
            Phase::Processing { count } => 0 < count <= READ_BUFFER_LEN,
            Phase::Writing { offset, count } => offset < count <= READ_BUFFER_LEN,
            _ => true,
        }
    }

    /// Whether the busy indicator is on: it is for as long as the interrupt
    /// is being served.
    pub open spec fn busy(self) -> bool {
        self != Phase::Idle
    }

    /// What the intake asks for in this phase.
    pub open spec fn action(self) -> Action {
        match self {
            Phase::Idle => Action::Return,
            Phase::Polling => Action::Poll,
            Phase::Reading => Action::Read { max: READ_BUFFER_LEN },
            Phase::Processing { count } => Action::Process { count },
            Phase::Writing { offset, count } => Action::Write { from: offset, to: count },
        }
    }

    /// The phase after `event`. An event that does not answer what the phase
    /// asked for changes nothing.
    ///
    /// A poll that finds nothing pending ends the interrupt, and any other
    /// leads to a read. A read that gives no byte, fails, or claims more than
    /// the buffer holds leads back to the poll. A write that takes nothing or
    /// fails is tried again; one that takes some bytes moves the offset, and
    /// the last one leads back to the poll.
    pub open spec fn next(self, event: Event) -> Phase {
        match (self, event) {
            (Phase::Idle, Event::Interrupt) => Phase::Polling,
            (Phase::Polling, Event::Polled { pending }) => if pending {
                Phase::Reading
            } else {
                Phase::Idle
            },
            (Phase::Reading, Event::Read { count }) => match count {
                Some(count) if 0 < count <= READ_BUFFER_LEN => Phase::Processing { count },
                _ => Phase::Polling,
            },
            (Phase::Processing { count }, Event::Processed) => Phase::Writing { offset: 0, count },
            (Phase::Writing { offset, count }, Event::Written { count: Some(taken) }) => {
                if offset_after(offset as int, count as int, taken as int) < count {
                    Phase::Writing {
                        offset: offset_after(offset as int, count as int, taken as int) as usize,
                        count,
                    }
                } else {
                    Phase::Polling
                }
            },
            _ => self,
        }
    }

    /// The phase after a run of events.
    pub open spec fn after_all(self, events: Seq<Event>) -> Phase
        decreases events.len(),
    {
        if events.len() == 0 {
            self
        } else {
            self.after_all(events.drop_last()).next(events.last())
        }
    }

    /// The bytes of `buffer` that the endpoint has taken in the course of a
    /// run of events, in the order in which it took them: each write that
    /// takes some bytes takes them from the offset on.
    pub open spec fn relayed(self, buffer: Seq<u8>, events: Seq<Event>) -> Seq<u8>
        decreases events.len(),
    {
        if events.len() == 0 {
            Seq::empty()
        } else {
            let before = self.relayed(buffer, events.drop_last());
            match (self.after_all(events.drop_last()), events.last()) {
                (Phase::Writing { offset, count }, Event::Written { count: Some(taken) }) => before
                    + buffer.subrange(
                    offset as int,
                    offset_after(offset as int, count as int, taken as int),
                ),
                _ => before,
            }
        }
    }

    /// No event breaks the form of the phase.
    pub proof fn next_keeps_wf(self, event: Event)
        requires
            self.wf(),
        ensures
            self.next(event).wf(),
    {
    }

    /// The interrupt is left only after a poll that found nothing pending:
    /// the intake polls again after every read and every relay.
    pub proof fn returns_only_when_drained(self, event: Event)
        requires
            self.busy(),
            !self.next(event).busy(),
        ensures
            self == Phase::Polling,
            event == (Event::Polled { pending: false }),
    {
    }

    /// A write that takes at least one byte moves the relay forward, so the
    /// relay of one read ends after at most as many such writes as it has
    /// bytes.
    pub proof fn write_makes_progress(offset: usize, count: usize, taken: usize)
        requires
            offset < count,
            taken > 0,
        ensures
            match (Phase::Writing { offset, count }).next(Event::Written { count: Some(taken) }) {
                Phase::Writing { offset: moved, count: same } => offset < moved && same == count,
                after => after == Phase::Polling,
            },
    {
    }

    /// While the bytes of one read are relayed, whatever the endpoint takes in
    /// each write, what it has taken so far is the start of those bytes, in
    /// order and without a gap; and when the relay is over it has taken all of
    /// them.
    pub proof fn relay_is_faithful(buffer: Seq<u8>, count: usize, writes: Seq<Event>)
        requires
            0 < count <= buffer.len(),
            forall|i: int| 0 <= i < writes.len() ==> #[trigger] writes[i] is Written,
        ensures
            ({
                let start = Phase::Writing { offset: 0, count };
                match start.after_all(writes) {
                    Phase::Writing { offset, count: same } => same == count && offset < count
                        && start.relayed(buffer, writes) == buffer.subrange(0, offset as int),
                    after => after == Phase::Polling && start.relayed(buffer, writes)
                        == buffer.subrange(0, count as int),
                }
            }),
        decreases writes.len(),
    {
        let start = Phase::Writing { offset: 0, count };
        if writes.len() == 0 {
            assert(start.relayed(buffer, writes) =~= buffer.subrange(0, 0));
        } else {
            let front = writes.drop_last();
            Self::relay_is_faithful(buffer, count, front);
            let before = start.relayed(buffer, front);
            match (start.after_all(front), writes.last()) {
                (Phase::Writing { offset, count: same }, Event::Written { count: Some(taken) }) => {
                    let moved = offset_after(offset as int, count as int, taken as int);
                    assert(before + buffer.subrange(offset as int, moved) =~= buffer.subrange(
                        0,
                        moved,
                    ));
                },
                _ => {},
            }
        }
    }
}

/// The bytes of a run of reads, one after the other.
pub open spec fn joined(reads: Seq<Seq<u8>>) -> Seq<u8>
    decreases reads.len(),
{
    if reads.len() == 0 {
        Seq::empty()
    } else {
        joined(reads.drop_last()) + reads.last()
    }
}

/// What the endpoint has taken over a run of reads, where `writes[i]` are the
/// writes that relayed the bytes of `reads[i]`.
pub open spec fn relayed_over(reads: Seq<Seq<u8>>, writes: Seq<Seq<Event>>) -> Seq<u8>
    decreases reads.len(),
{
    if reads.len() == 0 {
        Seq::empty()
    } else {
        relayed_over(reads.drop_last(), writes.drop_last()) + (Phase::Writing {
            offset: 0,
            count: reads.last().len() as usize,
        }).relayed(reads.last(), writes.last())
    }
}

/// However many reads the bytes of a batch arrive in, and in however small
/// pieces the endpoint takes them back, once the relay of every read is over
/// the endpoint has taken the bytes of the batch, each once and in order.
pub proof fn echo_is_faithful(reads: Seq<Seq<u8>>, writes: Seq<Seq<Event>>)
    requires
        reads.len() == writes.len(),
        forall|i: int| 0 <= i < reads.len() ==> 0 < (#[trigger] reads[i]).len() <= READ_BUFFER_LEN,
        forall|i: int, k: int|
            0 <= i < writes.len() && 0 <= k < writes[i].len() ==> (#[trigger] writes[i][k])
                is Written,
        forall|i: int|
            0 <= i < reads.len() ==> (Phase::Writing {
                offset: 0,
                count: reads[i].len() as usize,
            }).after_all(#[trigger] writes[i]) == Phase::Polling,
    ensures
        relayed_over(reads, writes) == joined(reads),
    decreases reads.len(),
{
    if reads.len() > 0 {
        echo_is_faithful(reads.drop_last(), writes.drop_last());
        let last = reads.last();
        let count = last.len() as usize;
        assert(writes.last() == writes[writes.len() - 1]);
        assert(last == reads[reads.len() - 1]);
        Phase::relay_is_faithful(last, count, writes.last());
        assert(last.subrange(0, count as int) =~= last);
    }
}

/// The packet intake: it holds the phase it is in and moves from one to the
/// next as events come.
#[derive(Clone, Copy, Debug, PartialEq, Eq)]
pub struct Intake {
    phase: Phase,
}

impl Intake {
    /// The phase the intake is in.
    pub closed spec fn view(&self) -> Phase {
        self.phase
    }

    #[verifier::type_invariant]
    closed spec fn inv(&self) -> bool {
        self.phase.wf()
    }

    /// An intake outside the interrupt.
    pub fn new() -> (intake: Self)
        ensures
            intake@ == Phase::Idle,
    {
        Intake { phase: Phase::Idle }
    }

    /// The phase the intake is in.
    pub fn phase(&self) -> (phase: Phase)
        ensures
            phase == self@,
            phase.wf(),
    {
        proof {
            use_type_invariant(self);
        }
        self.phase
    }

    /// Whether the busy indicator is to be on.
    pub fn busy(&self) -> (busy: bool)
        ensures
            busy == self@.busy(),
    {
        match self.phase {
            Phase::Idle => false,
            _ => true,
        }
    }

    /// What the intake asks for as it stands.
    pub fn action(&self) -> (action: Action)
        ensures
            action == self@.action(),
    {
        match self.phase {
            Phase::Idle => Action::Return,
            Phase::Polling => Action::Poll,
            Phase::Reading => Action::Read { max: READ_BUFFER_LEN },
            Phase::Processing { count } => Action::Process { count },
            Phase::Writing { offset, count } => Action::Write { from: offset, to: count },
        }
    }

    /// Takes in what happened and says what to do next.
    pub fn handle(&mut self, event: Event) -> (action: Action)
        ensures
            final(self)@ == old(self)@.next(event),
            final(self)@.wf(),
            action == final(self)@.action(),
    {
        proof {
            use_type_invariant(&*self);
        }
        let phase = match (self.phase, event) {
            (Phase::Idle, Event::Interrupt) => Phase::Polling,
            (Phase::Polling, Event::Polled { pending }) => {
                if pending {
                    Phase::Reading
                } else {
                    Phase::Idle
                }
            },
            (Phase::Reading, Event::Read { count: Some(count) }) => {
                if 0 < count && count <= READ_BUFFER_LEN {
                    Phase::Processing { count }
                } else {
                    Phase::Polling
                }
            },
            (Phase::Reading, Event::Read { count: None }) => Phase::Polling,
            (Phase::Processing { count }, Event::Processed) => Phase::Writing { offset: 0, count },
            (Phase::Writing { offset, count }, Event::Written { count: Some(taken) }) => {
                if taken < count - offset {
                    Phase::Writing { offset: offset + taken, count }
                } else {
                    Phase::Polling
                }
            },
            (phase, _) => phase,
        };
        self.phase = phase;
        self.action()
    }
}

} // verus!
