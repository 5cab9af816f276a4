//! The status indicator: the two tasks that blink it in turn, and the rule by
//! which tasks of different priorities share its output line.

use vstd::prelude::*;

verus! {

/// The time between one indicator task and the next, in milliseconds.
pub const BLINK_INTERVAL_MILLIS: u64 = 1000;

/// The level of an output line.
#[derive(Clone, Copy, Debug, PartialEq, Eq, Structural)]
pub enum Level {
    Low,
    High,
}

/// One of the two tasks that blink the indicator.
#[derive(Clone, Copy, Debug, PartialEq, Eq, Structural)]
pub enum IndicatorTask {
    /// Drives the line high.
    SetHigh,
    /// Drives the line low.
    SetLow,
}

/// What one run of an indicator task does.
#[derive(Clone, Copy, Debug, PartialEq, Eq, Structural)]
pub struct Turn {
    /// The level to drive the line to, inside one critical section.
    pub level: Level,
    /// The task to schedule before this one ends.
    pub next: IndicatorTask,
    /// How long from now `next` is to run, in milliseconds.
    pub delay_millis: u64,
}

impl IndicatorTask {
    /// What one run does: it sets its level and schedules the
    /// other task one interval later.
    pub open spec fn turn(self) -> Turn {
        match self {
            IndicatorTask::SetHigh => Turn {
                level: Level::High,
                next: IndicatorTask::SetLow,
                delay_millis: BLINK_INTERVAL_MILLIS,
            },
            IndicatorTask::SetLow => Turn {
                level: Level::Low,
                next: IndicatorTask::SetHigh,
                delay_millis: BLINK_INTERVAL_MILLIS,
            },
        }
    }

    /// The task that runs first after start-up.
    pub fn first() -> (task: IndicatorTask)
        ensures
            task == IndicatorTask::SetHigh,
    {
        IndicatorTask::SetHigh
    }

    /// Runs the task: says which level to set and which task to schedule.
    pub fn run(self) -> (turn: Turn)
        ensures
            turn == self.turn(),
    {
        match self {
            IndicatorTask::SetHigh => Turn {
                level: Level::High,
                next: IndicatorTask::SetLow,
                delay_millis: BLINK_INTERVAL_MILLIS,
            },
            IndicatorTask::SetLow => Turn {
                level: Level::Low,
                next: IndicatorTask::SetHigh,
                delay_millis: BLINK_INTERVAL_MILLIS,
            },
        }
    }

    /// The two tasks take turns: each schedules the other, the level changes
    /// with every run, and after two runs the same task is due again.
    pub proof fn tasks_alternate(self)
        ensures
            self.turn().next != self,
            self.turn().next.turn().next == self,
            self.turn().next.turn().level != self.turn().level,
            self.turn().delay_millis == BLINK_INTERVAL_MILLIS,
    {
    }
}

} // verus!
