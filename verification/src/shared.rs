//! A line that tasks of different priorities share, guarded by a priority
//! ceiling. On one core, a task runs until it ends or a task of higher
//! priority preempts it. While a task is inside the critical section of the
//! line, the system priority is raised to the ceiling of the line, so no other
//! task that may use the line can start: the section needs no waiting and is
//! never entered twice.

use vstd::prelude::*;
use crate::indicator::Level;

verus! {

/// One step of the system.
#[derive(Clone, Copy, Debug, PartialEq, Eq, Structural)]
pub enum Step {
    /// A task of this priority is due and asks to run.
    Start { priority: u8 },
    /// The running task ends.
    End,
    /// The running task enters the critical section of the line.
    Lock,
    /// The running task leaves the critical section.
    Unlock,
    /// The running task drives the line to a level.
    Drive { level: Level },
}

/// The line and the tasks around it.
pub struct Line {
    /// The level of the line.
    pub level: Level,
    /// The highest priority among the tasks that may use the line.
    pub ceiling: u8,
    /// The priorities of the tasks that have started and not ended, from the
    /// one that started first. The last one runs; the others are preempted.
    pub running: Seq<u8>,
    /// The place in `running` of the task inside the critical section.
    pub holder: Option<int>,
}

impl Line {
    /// The place in `running` of the task that runs.
    pub open spec fn top(self) -> int {
        self.running.len() - 1
    }

    /// The form of every state that the steps can reach: each task preempted
    /// the one before it, the holder may use the line, and whatever started
    /// after the holder is above the ceiling.
    pub open spec fn wf(self) -> bool {
        &&& forall|i: int, j: int|
            0 <= i < j < self.running.len() ==> self.running[i] < self.running[j]
        &&& self.holder matches Some(h) ==> {
            &&& 0 <= h < self.running.len()
            &&& self.running[h] <= self.ceiling
            &&& forall|j: int| h < j < self.running.len() ==> self.running[j] > self.ceiling
        }
    }

    /// The system priority: that of the running task, raised to the ceiling
    /// while the line is held. With no task running it is 0.
    pub open spec fn threshold(self) -> int {
        let base: int = if self.running.len() > 0 {
            self.running.last() as int
        } else {
            0
        };
        if self.holder is Some && self.ceiling > base {
            self.ceiling as int
        } else {
            base
        }
    }

    /// Whether the running task is inside the critical section.
    pub open spec fn held_by_running(self) -> bool {
        self.running.len() > 0 && self.holder == Some(self.top())
    }

    /// Whether `step` can be taken. A task starts only above the system
    /// priority. Only a task that may use the line enters the section, and
    /// only while nobody is inside. Only the task inside drives the line or
    /// leaves the section, and it does not end inside.
    pub open spec fn allows(self, step: Step) -> bool {
        match step {
            Step::Start { priority } => priority > self.threshold(),
            Step::End => self.running.len() > 0 && !self.held_by_running(),
            Step::Lock => self.running.len() > 0 && self.running.last() <= self.ceiling
                && self.holder is None,
            Step::Unlock => self.held_by_running(),
            Step::Drive { level } => self.held_by_running(),
        }
    }

    /// The state after `step`. A step that cannot be taken changes nothing.
    pub open spec fn after(self, step: Step) -> Line {
        if !self.allows(step) {
            self
        } else {
            match step {
                Step::Start { priority } => Line { running: self.running.push(priority), ..self },
                Step::End => Line { running: self.running.drop_last(), ..self },
                Step::Lock => Line { holder: Some(self.top()), ..self },
                Step::Unlock => Line { holder: None, ..self },
                Step::Drive { level } => Line { level, ..self },
            }
        }
    }

    /// The state after a run of steps.
    pub open spec fn after_all(self, steps: Seq<Step>) -> Line
        decreases steps.len(),
    {
        if steps.len() == 0 {
            self
        } else {
            self.after_all(steps.drop_last()).after(steps.last())
        }
    }

    /// No step breaks the form of the state.
    pub proof fn after_keeps_wf(self, step: Step)
        requires
            self.wf(),
        ensures
            self.after(step).wf(),
    {
    }

    /// The section is never contended: whenever the running task may use the
    /// line and is not inside itself, nobody is inside, so it can enter at
    /// once.
    pub proof fn lock_is_never_contended(self)
        requires
            self.wf(),
            self.running.len() > 0,
            self.running.last() <= self.ceiling,
            !self.held_by_running(),
        ensures
            self.holder is None,
            self.allows(Step::Lock),
    {
    }

    /// While a task is inside the section, no task that may use the line can
    /// start.
    pub proof fn ceiling_masks_sharers(self, priority: u8)
        requires
            self.wf(),
            self.holder is Some,
            priority <= self.ceiling,
        ensures
            !self.allows(Step::Start { priority }),
    {
    }

    /// A section is exclusive. From the step after a task entered until it
    /// leaves, whatever steps are tried: the same task stays inside and stays
    /// started, only it leaves the section, and the level changes only by a
    /// step that it takes itself, as the running task.
    pub proof fn section_is_exclusive(self, step: Step)
        requires
            self.wf(),
            self.holder is Some,
        ensures
            self.after(step).ceiling == self.ceiling,
            self.after(step).holder != self.holder ==> step == Step::Unlock
                && self.held_by_running() && self.after(step).holder is None,
            self.after(step).level != self.level ==> step is Drive && self.held_by_running(),
            self.after(step).running.len() > self.holder.unwrap(),
            self.after(step).running[self.holder.unwrap()] == self.running[self.holder.unwrap()],
    {
    }

    /// Outside a section the line keeps its level, whatever steps are tried.
    pub proof fn level_changes_only_inside(self, step: Step)
        requires
            self.holder is None,
        ensures
            self.after(step).level == self.level,
    {
    }
}

/// The shared line with the tasks that run around it.
pub struct SharedLine {
    level: Level,
    ceiling: u8,
    running: Vec<u8>,
    holder: Option<usize>,
}

impl SharedLine {
    /// The state of the line and its tasks.
    pub closed spec fn view(&self) -> Line {
        Line {
            level: self.level,
            ceiling: self.ceiling,
            running: self.running@,
            holder: match self.holder {
                Some(h) => Some(h as int),
                None => None,
            },
        }
    }

    /// A line at `level` that tasks up to the priority `ceiling` may use,
    /// with no task running.
    pub fn new(ceiling: u8, level: Level) -> (line: Self)
        ensures
            line@ == (Line { level, ceiling, running: Seq::empty(), holder: None }),
            line@.wf(),
    {
        SharedLine { level, ceiling, running: Vec::new(), holder: None }
    }

    /// The level of the line.
    pub fn level(&self) -> (level: Level)
        ensures
            level == self@.level,
    {
        self.level
    }

    /// The system priority.
    pub fn threshold(&self) -> (priority: u8)
        ensures
            priority == self@.threshold(),
    {
        let base: u8 = if self.running.len() > 0 {
            self.running[self.running.len() - 1]
        } else {
            0
        };
        if self.holder.is_some() && self.ceiling > base {
            self.ceiling
        } else {
            base
        }
    }

    /// Whether the running task is inside the critical section.
    pub fn held_by_running(&self) -> (held: bool)
        ensures
            held == self@.held_by_running(),
    {
        match self.holder {
            Some(h) => self.running.len() > 0 && h == self.running.len() - 1,
            None => false,
        }
    }

    /// Whether `step` can be taken as things stand.
    pub fn allows(&self, step: Step) -> (allowed: bool)
        ensures
            allowed == self@.allows(step),
    {
        match step {
            Step::Start { priority } => priority > self.threshold(),
            Step::End => self.running.len() > 0 && !self.held_by_running(),
            Step::Lock => self.running.len() > 0 && self.running[self.running.len() - 1]
                <= self.ceiling && self.holder.is_none(),
            Step::Unlock => self.held_by_running(),
            Step::Drive { level: _ } => self.held_by_running(),
        }
    }

    /// Takes `step` if it can be taken, and says whether it was.
    pub fn take(&mut self, step: Step) -> (taken: bool)
        requires
            old(self)@.wf(),
        ensures
            taken == old(self)@.allows(step),
            final(self)@ == old(self)@.after(step),
            final(self)@.wf(),
    {
        if !self.allows(step) {
            return false;
        }
        match step {
            Step::Start { priority } => {
                self.running.push(priority);
            },
            Step::End => {
                self.running.pop();
            },
            Step::Lock => {
                self.holder = Some(self.running.len() - 1);
            },
            Step::Unlock => {
                self.holder = None;
            },
            Step::Drive { level } => {
                self.level = level;
            },
        }
        true
    }
}

} // verus!
