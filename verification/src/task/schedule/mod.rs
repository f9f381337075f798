//! The scheduler: which ready task runs next, and when the running one
//! has had its share. It does not tell a process from a guest.

use vstd::prelude::*;
use crate::task::structs::{Process, ProcessView, TaskId};

pub mod round_robin;

pub use round_robin::{RRScheduler, RRSchedulerState};

verus! {

/// What the task manager asks of a scheduler.
pub trait SchedulerTrait: Sized {
    /// The ready tasks, the next to run first.
    spec fn ready(&self) -> Seq<TaskId>;

    /// The time slice left to a task after one more timer tick.
    spec fn slice_after_tick(current: ProcessView) -> SchedulerState;

    /// Whether a task is asked to give way after one more timer tick.
    spec fn resched_after_tick(current: ProcessView) -> bool;

    fn new() -> (r: Self)
        ensures
            r.ready() == Seq::<TaskId>::empty(),
    ;

    /// Puts a task ahead of all ready tasks: it runs next.
    fn push_ready_task_front(&mut self, t: TaskId)
        ensures
            final(self).ready() == seq![t] + old(self).ready(),
    ;

    /// Puts a task behind all ready tasks.
    fn push_ready_task_back(&mut self, t: TaskId)
        ensures
            final(self).ready() == old(self).ready().push(t),
    ;

    /// Takes the first ready task, if there is one.
    fn pick_next_task(&mut self) -> (r: Option<TaskId>)
        ensures
            old(self).ready().len() == 0 ==> r is None && final(self).ready() == old(self).ready(),
            old(self).ready().len() > 0 ==> r == Some(old(self).ready()[0]) && final(self).ready()
                == old(self).ready().drop_first(),
    ;

    /// Accounts one timer tick to the running task. Only its time slice
    /// and its reschedule flag may change; no task is switched.
    fn timer_tick(&mut self, current: &mut Process)
        ensures
            final(self).ready() == old(self).ready(),
            final(current)@ == (ProcessView {
                sched_state: Self::slice_after_tick(old(current)@),
                need_resched: Self::resched_after_tick(old(current)@),
                ..old(current)@
            }),
    ;
}

/// The state that the scheduler in use keeps for each task.
pub type SchedulerState = RRSchedulerState;

/// The scheduler in use.
pub type Scheduler = RRScheduler;

} // verus!
