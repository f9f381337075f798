//! Round robin: ready tasks run in the order in which they became ready,
//! each for a fixed number of timer ticks.

use vstd::prelude::*;
use std::collections::VecDeque;
use crate::config::MAX_TIME_SLICE;
use crate::task::structs::{Process, ProcessView, TaskId};
use super::SchedulerTrait;

verus! {

/// What the scheduler keeps for each task: the timer ticks left of its
/// time slice.
#[derive(Clone, Copy, Debug, PartialEq, Eq, Structural)]
pub struct RRSchedulerState {
    pub ticks_left: usize,
}

impl RRSchedulerState {
    /// A full time slice.
    pub open spec fn full() -> Self {
        RRSchedulerState { ticks_left: MAX_TIME_SLICE }
    }

    /// The state after one timer tick: one tick less, and never below none.
    pub open spec fn ticked(self) -> Self {
        RRSchedulerState {
            ticks_left: if self.ticks_left > 0 {
                (self.ticks_left - 1) as usize
            } else {
                0
            },
        }
    }

    /// Whether the time slice is used up.
    pub open spec fn exhausted(self) -> bool {
        self.ticks_left == 0
    }

    /// Gives the task a full time slice again.
    pub fn reset(&mut self)
        ensures
            *final(self) == Self::full(),
    {
        self.ticks_left = MAX_TIME_SLICE;
    }
}

impl Default for RRSchedulerState {
    fn default() -> (r: Self)
        ensures
            r == RRSchedulerState::full(),
    {
        RRSchedulerState { ticks_left: MAX_TIME_SLICE }
    }
}

/// The round-robin scheduler: a queue of the ready tasks.
pub struct RRScheduler {
    pub ready_queue: VecDeque<TaskId>,
}

impl SchedulerTrait for RRScheduler {
    open spec fn ready(&self) -> Seq<TaskId> {
        self.ready_queue@
    }

    open spec fn slice_after_tick(current: ProcessView) -> RRSchedulerState {
        current.sched_state.ticked()
    }

    open spec fn resched_after_tick(current: ProcessView) -> bool {
        current.need_resched || current.sched_state.ticked().exhausted()
    }

    fn new() -> (r: Self) {
        RRScheduler { ready_queue: VecDeque::new() }
    }

    fn push_ready_task_front(&mut self, t: TaskId) {
        self.ready_queue.push_front(t);
    }

    fn push_ready_task_back(&mut self, t: TaskId) {
        self.ready_queue.push_back(t);
    }

    fn pick_next_task(&mut self) -> (r: Option<TaskId>) {
        self.ready_queue.pop_front()
    }

    fn timer_tick(&mut self, current: &mut Process) {
        if current.sched_state.ticks_left > 0 {
            current.sched_state.ticks_left = current.sched_state.ticks_left - 1;
        }
        if current.sched_state.ticks_left == 0 {
            current.need_resched = true;
        }
    }
}

/// The ready queue after the tasks `ts` were put behind `q`, one after
/// the other.
pub open spec fn after_pushes(q: Seq<TaskId>, ts: Seq<TaskId>) -> Seq<TaskId>
    decreases ts.len(),
{
    if ts.len() == 0 {
        q
    } else {
        after_pushes(q.push(ts[0]), ts.drop_first())
    }
}

/// The ready queue after `n` tasks were picked from `q`.
pub open spec fn after_picks(q: Seq<TaskId>, n: nat) -> Seq<TaskId>
    decreases n,
{
    if n == 0 || q.len() == 0 {
        q
    } else {
        after_picks(q.drop_first(), (n - 1) as nat)
    }
}

/// The ready queue after `n` turns in which the first task was picked,
/// ran for its time slice and was put behind the others.
pub open spec fn after_turns(q: Seq<TaskId>, n: nat) -> Seq<TaskId>
    decreases n,
{
    if n == 0 || q.len() == 0 {
        q
    } else {
        after_turns(q.drop_first().push(q[0]), (n - 1) as nat)
    }
}

/// What a process is after `n` timer ticks were accounted to it.
pub open spec fn after_ticks(p: ProcessView, n: nat) -> ProcessView
    decreases n,
{
    if n == 0 {
        p
    } else {
        after_ticks(
            ProcessView {
                sched_state: RRScheduler::slice_after_tick(p),
                need_resched: RRScheduler::resched_after_tick(p),
                ..p
            },
            (n - 1) as nat,
        )
    }
}

/// Tasks that are put behind a queue stand behind it in the order in
/// which they came.
pub proof fn lemma_after_pushes(q: Seq<TaskId>, ts: Seq<TaskId>)
    ensures
        after_pushes(q, ts) == q + ts,
    decreases ts.len(),
{
    if ts.len() == 0 {
        assert(q + ts =~= q);
    } else {
        lemma_after_pushes(q.push(ts[0]), ts.drop_first());
        assert(q.push(ts[0]) + ts.drop_first() =~= q + ts);
    }
}

/// Picking `n` tasks takes the first `n` tasks away.
pub proof fn lemma_after_picks(q: Seq<TaskId>, n: nat)
    requires
        n <= q.len(),
    ensures
        after_picks(q, n) == q.subrange(n as int, q.len() as int),
    decreases n,
{
    if n == 0 {
        assert(q.subrange(0, q.len() as int) =~= q);
    } else {
        lemma_after_picks(q.drop_first(), (n - 1) as nat);
        assert(q.drop_first().subrange(n - 1, q.len() - 1) =~= q.subrange(
            n as int,
            q.len() as int,
        ));
    }
}

/// Round robin is fair: of tasks that were put behind an empty queue one
/// after the other, the pick after `i` earlier picks is the task that
/// came as number `i`, and after as many picks as there are tasks the
/// queue is empty.
pub proof fn lemma_picks_follow_pushes(ts: Seq<TaskId>, i: nat)
    requires
        i < ts.len(),
    ensures
        after_picks(after_pushes(Seq::empty(), ts), i).len() > 0,
        after_picks(after_pushes(Seq::empty(), ts), i)[0] == ts[i as int],
        after_picks(after_pushes(Seq::empty(), ts), ts.len()).len() == 0,
{
    lemma_after_pushes(Seq::empty(), ts);
    assert(Seq::<TaskId>::empty() + ts =~= ts);
    lemma_after_picks(ts, i);
    lemma_after_picks(ts, ts.len());
}

/// After `n` turns in which nothing else becomes ready, the queue is the
/// one at the start, turned by `n` places.
pub proof fn lemma_after_turns(q: Seq<TaskId>, n: nat)
    requires
        n <= q.len(),
    ensures
        after_turns(q, n) == q.subrange(n as int, q.len() as int) + q.subrange(0, n as int),
    decreases n,
{
    if n == 0 || q.len() == 0 {
        assert(q.subrange(0, q.len() as int) + q.subrange(0, 0) =~= q);
    } else {
        let q1 = q.drop_first().push(q[0]);
        lemma_after_turns(q1, (n - 1) as nat);
        assert(q1.subrange(n - 1, q1.len() as int) + q1.subrange(0, n - 1) =~= q.subrange(
            n as int,
            q.len() as int,
        ) + q.subrange(0, n as int));
    }
}

/// Round robin repeats: when nothing else becomes ready and each task is
/// put behind the others after its turn, the tasks take their turns in
/// the order of the queue, and after each has had one the queue is as it
/// was at the start.
pub proof fn lemma_turns_repeat(q: Seq<TaskId>, i: nat)
    requires
        i < q.len(),
    ensures
        after_turns(q, i).len() == q.len(),
        after_turns(q, i)[0] == q[i as int],
        after_turns(q, q.len()) == q,
{
    lemma_after_turns(q, i);
    lemma_after_turns(q, q.len());
    assert(q.subrange(q.len() as int, q.len() as int) + q.subrange(0, q.len() as int) =~= q);
}

/// Timer ticks count the time slice down and ask the task to give way
/// exactly when it is used up. For a task that has `ticks_left` ticks, at
/// least one, and is not yet asked to give way: after fewer ticks it is
/// still not asked; after `ticks_left` ticks it is asked; after more
/// ticks it is still asked, and its time slice stays used up. Nothing
/// else of the task changes.
pub proof fn lemma_after_ticks(p: ProcessView, n: nat)
    requires
        !p.need_resched,
        p.sched_state.ticks_left >= 1,
    ensures
        after_ticks(p, n).need_resched == (n >= p.sched_state.ticks_left),
        after_ticks(p, n).sched_state.ticks_left == if n >= p.sched_state.ticks_left {
            0
        } else {
            p.sched_state.ticks_left - n
        },
        after_ticks(p, n) == (ProcessView {
            need_resched: after_ticks(p, n).need_resched,
            sched_state: after_ticks(p, n).sched_state,
            ..p
        }),
{
    lemma_after_ticks_any(p, n);
}

/// The same for any task: after `n` ticks it is asked to give way if it
/// was asked before, or if at least one tick came and its time slice was
/// used up by the last of them or before.
pub proof fn lemma_after_ticks_any(p: ProcessView, n: nat)
    ensures
        after_ticks(p, n).need_resched == (p.need_resched || (n >= 1 && n
            >= p.sched_state.ticks_left)),
        after_ticks(p, n).sched_state.ticks_left == if n >= p.sched_state.ticks_left {
            0
        } else {
            p.sched_state.ticks_left - n
        },
        after_ticks(p, n) == (ProcessView {
            need_resched: after_ticks(p, n).need_resched,
            sched_state: after_ticks(p, n).sched_state,
            ..p
        }),
    decreases n,
{
    if n > 0 {
        let p1 = ProcessView {
            sched_state: RRScheduler::slice_after_tick(p),
            need_resched: RRScheduler::resched_after_tick(p),
            ..p
        };
        lemma_after_ticks_any(p1, (n - 1) as nat);
    }
}

} // verus!
