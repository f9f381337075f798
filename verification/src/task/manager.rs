//! The task manager: the registry of all live tasks, the task that runs
//! now, and the moves between them.
//!
//! The manager decides; it does not touch the hart. Where a move ends in
//! another task, it says so in a `Switch`, and the caller switches the
//! contexts.

use vstd::prelude::*;
use crate::arch::frame::ProcessTrapFrame;
use crate::mm::{PhysAddr, VirtAddr};
use crate::task::schedule::{Scheduler, SchedulerState, SchedulerTrait};
use crate::task::structs::{Process, ProcessView, Task, TaskId, TaskState};

verus! {

/// Whether one of `tasks` has the number `id`.
pub open spec fn has_id(tasks: Seq<Process>, id: TaskId) -> bool {
    exists|i: int| 0 <= i < tasks.len() && (#[trigger] tasks[i]).id == id
}

/// Where in `tasks` the task with the number `id` stands.
pub open spec fn index_of(tasks: Seq<Process>, id: TaskId) -> int {
    choose|i: int| 0 <= i < tasks.len() && (#[trigger] tasks[i]).id == id
}

/// No two of `tasks` have the same number.
pub open spec fn distinct_ids(tasks: Seq<Process>) -> bool {
    forall|i: int, j: int|
        0 <= i < j < tasks.len() ==> (#[trigger] tasks[i]).id != (#[trigger] tasks[j]).id
}

/// The tasks by their numbers.
pub open spec fn procs_of(tasks: Seq<Process>) -> Map<TaskId, ProcessView> {
    Map::new(|id: TaskId| has_id(tasks, id), |id: TaskId| tasks[index_of(tasks, id)]@)
}

/// Each task is found under its own number.
pub proof fn lemma_lookup(tasks: Seq<Process>, i: int)
    requires
        distinct_ids(tasks),
        0 <= i < tasks.len(),
    ensures
        has_id(tasks, tasks[i].id),
        index_of(tasks, tasks[i].id) == i,
        procs_of(tasks).dom().contains(tasks[i].id),
        procs_of(tasks)[tasks[i].id] == tasks[i]@,
{
    let j = index_of(tasks, tasks[i].id);
    assert(0 <= j < tasks.len() && tasks[j].id == tasks[i].id);
    if j < i {
        assert(tasks[j].id != tasks[i].id);
    } else if i < j {
        assert(tasks[i].id != tasks[j].id);
    }
}

/// A task with a new number joins the others.
pub proof fn lemma_push(tasks: Seq<Process>, p: Process)
    requires
        distinct_ids(tasks),
        !has_id(tasks, p.id),
    ensures
        distinct_ids(tasks.push(p)),
        procs_of(tasks.push(p)) =~= procs_of(tasks).insert(p.id, p@),
{
    let t2 = tasks.push(p);
    assert forall|i: int, j: int| 0 <= i < j < t2.len() implies (#[trigger] t2[i]).id != (
    #[trigger] t2[j]).id by {
        if j == tasks.len() {
            assert(tasks[i].id != p.id);
        } else {
            assert(tasks[i].id != tasks[j].id);
        }
    }
    assert forall|id: TaskId| has_id(t2, id) <==> (id == p.id || has_id(tasks, id)) by {
        if has_id(t2, id) {
            let i = index_of(t2, id);
            if i < tasks.len() {
                assert(tasks[i].id == id);
            }
        }
        if id == p.id {
            assert(t2[tasks.len() as int].id == id);
        }
        if has_id(tasks, id) {
            let i = index_of(tasks, id);
            assert(t2[i].id == id);
        }
    }
    assert forall|id: TaskId| has_id(t2, id) implies procs_of(t2)[id] == procs_of(tasks).insert(
        p.id,
        p@,
    )[id] by {
        let i = index_of(t2, id);
        lemma_lookup(t2, i);
        if i < tasks.len() {
            lemma_lookup(tasks, i);
        }
    }
}

/// A task that changes, but not its number, changes under its number
/// alone.
pub proof fn lemma_update(tasks: Seq<Process>, i: int, p: Process)
    requires
        distinct_ids(tasks),
        0 <= i < tasks.len(),
        p.id == tasks[i].id,
    ensures
        distinct_ids(tasks.update(i, p)),
        procs_of(tasks.update(i, p)) =~= procs_of(tasks).insert(p.id, p@),
{
    let t2 = tasks.update(i, p);
    assert forall|a: int, b: int| 0 <= a < b < t2.len() implies (#[trigger] t2[a]).id != (
    #[trigger] t2[b]).id by {
        assert(tasks[a].id != tasks[b].id);
    }
    assert forall|id: TaskId| has_id(t2, id) <==> has_id(tasks, id) by {
        if has_id(t2, id) {
            let k = index_of(t2, id);
            assert(tasks[k].id == id);
        }
        if has_id(tasks, id) {
            let k = index_of(tasks, id);
            assert(t2[k].id == id);
        }
    }
    lemma_lookup(tasks, i);
    assert forall|id: TaskId| has_id(t2, id) implies procs_of(t2)[id] == procs_of(tasks).insert(
        p.id,
        p@,
    )[id] by {
        let k = index_of(t2, id);
        lemma_lookup(t2, k);
        lemma_lookup(tasks, k);
    }
}

/// A task that leaves takes its number with it.
pub proof fn lemma_remove(tasks: Seq<Process>, i: int)
    requires
        distinct_ids(tasks),
        0 <= i < tasks.len(),
    ensures
        distinct_ids(tasks.remove(i)),
        procs_of(tasks.remove(i)) =~= procs_of(tasks).remove(tasks[i].id),
{
    let t2 = tasks.remove(i);
    assert forall|a: int, b: int| 0 <= a < b < t2.len() implies (#[trigger] t2[a]).id != (
    #[trigger] t2[b]).id by {
        let a1 = if a < i { a } else { a + 1 };
        let b1 = if b < i { b } else { b + 1 };
        assert(tasks[a1].id != tasks[b1].id);
    }
    assert forall|id: TaskId| has_id(t2, id) <==> (has_id(tasks, id) && id != tasks[i].id) by {
        if has_id(t2, id) {
            let k = index_of(t2, id);
            let k1 = if k < i { k } else { k + 1 };
            assert(tasks[k1].id == id);
            lemma_lookup(tasks, k1);
        }
        if has_id(tasks, id) && id != tasks[i].id {
            let k = index_of(tasks, id);
            let k2 = if k < i { k } else { k - 1 };
            assert(t2[k2].id == id);
        }
    }
    assert forall|id: TaskId| has_id(t2, id) implies procs_of(t2)[id] == procs_of(tasks).remove(
        tasks[i].id,
    )[id] by {
        let k = index_of(t2, id);
        lemma_lookup(t2, k);
        let k1 = if k < i { k } else { k + 1 };
        lemma_lookup(tasks, k1);
    }
}

/// What a sequence holds after a push: what it held, and the new item.
pub proof fn lemma_push_contains<T>(s: Seq<T>, x: T, y: T)
    ensures
        s.push(x).contains(y) <==> (s.contains(y) || y == x),
{
    let t = s.push(x);
    if t.contains(y) {
        let k = choose|k: int| 0 <= k < t.len() && t[k] == y;
        if k < s.len() {
            assert(s[k] == y);
        }
    }
    if s.contains(y) {
        let k = choose|k: int| 0 <= k < s.len() && s[k] == y;
        assert(t[k] == y);
    }
    if y == x {
        assert(t[s.len() as int] == y);
    }
}

/// A push of an item that is not there yet keeps a sequence free of
/// duplicates.
pub proof fn lemma_push_no_duplicates<T>(s: Seq<T>, x: T)
    requires
        s.no_duplicates(),
        !s.contains(x),
    ensures
        s.push(x).no_duplicates(),
{
    let t = s.push(x);
    assert forall|a: int, b: int| 0 <= a < t.len() && 0 <= b < t.len() && a != b implies t[a]
        != t[b] by {
        if a < s.len() {
            assert(s.contains(s[a]));
        }
        if b < s.len() {
            assert(s.contains(s[b]));
        }
    }
}

/// What the task manager is to the contracts.
pub struct TaskManagerView {
    /// The live tasks by their numbers: the idle task, the tasks that can
    /// run, and the zombies that nobody has collected yet.
    pub procs: Map<TaskId, ProcessView>,
    /// The ready tasks, the next to run first.
    pub ready: Seq<TaskId>,
    /// The task that runs now.
    pub current: TaskId,
    /// The number that the next new task gets.
    pub next_pid: usize,
    /// Whether the lock of the manager is still held for a switch that
    /// was ordered and is not finished.
    pub lock_held: bool,
}

/// The move of the hart from one task to another that the caller has to
/// carry out.
#[derive(Clone, Copy, Debug, PartialEq, Eq, Structural)]
pub struct Switch {
    pub from: TaskId,
    pub to: TaskId,
}

impl TaskManagerView {
    /// Whether a live task has the number `id`.
    pub open spec fn has(self, id: TaskId) -> bool {
        self.procs.dom().contains(id)
    }

    /// The task that runs now.
    pub open spec fn cur(self) -> ProcessView {
        self.procs[self.current]
    }

    /// The live task `p` lists `c` among its children.
    pub open spec fn lists(self, p: TaskId, c: TaskId) -> bool {
        self.has(p) && self.procs[p].children.contains(c)
    }

    /// The live task `c` names `p` as its parent.
    pub open spec fn is_parent(self, p: TaskId, c: TaskId) -> bool {
        self.has(c) && self.procs[c].parent == Some(p)
    }

    /// The idle task is there and is a kernel task, every task is filed
    /// under its own number, every number in use was handed out by the
    /// counter, and the root task is there once its number was handed out.
    #[verifier::opaque]
    pub open spec fn ids_wf(self) -> bool {
        &&& self.has(TaskId(0))
        &&& forall|id: TaskId|
            #[trigger] self.has(id) ==> self.procs[id].id == id && id.0 < self.next_pid
        &&& self.next_pid >= 2 ==> self.has(TaskId(1))
        &&& self.procs[TaskId(0)].is_kernel
    }

    /// Exactly the current task is running, and the idle task neither
    /// sleeps nor exits.
    #[verifier::opaque]
    pub open spec fn states_wf(self) -> bool {
        &&& self.has(self.current)
        &&& forall|id: TaskId|
            #[trigger] self.has(id) ==> (self.procs[id].state == TaskState::Running <==> id
                == self.current)
        &&& self.procs[TaskId(0)].state != TaskState::Sleeping
        &&& self.procs[TaskId(0)].state != TaskState::Zombie
    }

    /// The ready queue holds each ready task but the idle task once, and
    /// nothing else.
    #[verifier::opaque]
    pub open spec fn ready_wf(self) -> bool {
        &&& self.ready.no_duplicates()
        &&& forall|id: TaskId|
            #[trigger] self.ready.contains(id) <==> self.has(id) && self.procs[id].state
                == TaskState::Ready && id != TaskId(0)
    }

    /// Parents and children agree: a task lists exactly the live tasks
    /// that name it as their parent, each once, and no task is its own
    /// parent. A zombie other than the root task has no children. The idle
    /// task and the root task have no parent, and the idle task has no
    /// children.
    #[verifier::opaque]
    pub open spec fn tree_wf(self) -> bool {
        &&& forall|p: TaskId, c: TaskId|
            #![trigger self.lists(p, c)]
            #![trigger self.is_parent(p, c)]
            self.lists(p, c) <==> self.is_parent(p, c)
        &&& forall|c: TaskId|
            #[trigger] self.has(c) && self.procs[c].parent is Some ==> self.has(
                self.procs[c].parent->0,
            )
        &&& forall|p: TaskId| #[trigger] self.has(p) ==> self.procs[p].children.no_duplicates()
        &&& forall|p: TaskId|
            #[trigger] self.has(p) && self.procs[p].state == TaskState::Zombie && p != TaskId(1)
                ==> self.procs[p].children.len() == 0
        &&& forall|c: TaskId| #[trigger] self.has(c) ==> self.procs[c].parent != Some(c)
        &&& self.procs[TaskId(0)].parent is None
        &&& self.procs[TaskId(0)].children.len() == 0
        &&& self.has(TaskId(1)) ==> self.procs[TaskId(1)].parent is None
    }

    /// What holds of the manager between any two of its moves.
    pub open spec fn wf(self) -> bool {
        &&& self.ids_wf()
        &&& self.states_wf()
        &&& self.ready_wf()
        &&& self.tree_wf()
    }

    /// What holds while the current task has stepped back and no task has
    /// taken over yet: as between two moves, but no task is running, and
    /// the idle task is ready.
    #[verifier::opaque]
    pub open spec fn nobody_runs(self) -> bool {
        &&& self.has(self.current)
        &&& forall|id: TaskId| #[trigger] self.has(id) ==> self.procs[id].state != TaskState::Running
        &&& self.procs[TaskId(0)].state == TaskState::Ready
    }

    /// All that holds of the manager while nobody runs.
    pub open spec fn parked(self) -> bool {
        &&& self.ids_wf()
        &&& self.nobody_runs()
        &&& self.ready_wf()
        &&& self.tree_wf()
    }

    /// The task that runs next: the first ready task, or else the idle
    /// task.
    pub open spec fn next_task(self) -> TaskId {
        if self.ready.len() > 0 {
            self.ready[0]
        } else {
            TaskId(0)
        }
    }

    /// The next task takes over. When it is another task than the one that
    /// ran, a switch is ordered, and the lock of the manager stays held
    /// until the task that takes over releases it.
    pub open spec fn rescheduled(self) -> Self {
        let next = self.next_task();
        TaskManagerView {
            procs: self.procs.insert(
                next,
                ProcessView { state: TaskState::Running, ..self.procs[next] },
            ),
            ready: if self.ready.len() > 0 {
                self.ready.drop_first()
            } else {
                self.ready
            },
            current: next,
            lock_held: next != self.current,
            ..self
        }
    }

    /// The task that took over has released the lock of the manager.
    pub open spec fn unlocked(self) -> Self {
        TaskManagerView { lock_held: false, ..self }
    }

    /// The current task steps back to the end of the ready queue, unless
    /// it is the idle task, which only steps back. It is no longer asked
    /// to give way, and has a full time slice for its next turn.
    pub open spec fn requeued(self) -> Self {
        TaskManagerView {
            procs: self.procs.insert(
                self.current,
                ProcessView {
                    state: TaskState::Ready,
                    need_resched: false,
                    sched_state: SchedulerState::full(),
                    ..self.cur()
                },
            ),
            ready: if self.current != TaskId(0) {
                self.ready.push(self.current)
            } else {
                self.ready
            },
            ..self
        }
    }

    /// The current task gives way: it steps back, and the next task takes
    /// over.
    pub open spec fn yielded(self) -> Self {
        self.requeued().rescheduled()
    }

    /// The current task falls asleep; no task has taken over yet.
    pub open spec fn asleep(self) -> Self {
        TaskManagerView {
            procs: self.procs.insert(
                self.current,
                ProcessView { state: TaskState::Sleeping, ..self.cur() },
            ),
            ..self
        }
    }

    /// The current task goes to sleep, and the next task takes over.
    pub open spec fn slept(self) -> Self {
        self.asleep().rescheduled()
    }

    /// The task `id` is woken: if it sleeps, it becomes ready and joins
    /// the end of the ready queue; otherwise nothing changes.
    pub open spec fn woken(self, id: TaskId) -> Self {
        if self.has(id) && self.procs[id].state == TaskState::Sleeping {
            TaskManagerView {
                procs: self.procs.insert(
                    id,
                    ProcessView { state: TaskState::Ready, ..self.procs[id] },
                ),
                ready: self.ready.push(id),
                ..self
            }
        } else {
            self
        }
    }

    /// One timer tick is accounted to the current task.
    pub open spec fn ticked(self) -> Self {
        TaskManagerView {
            procs: self.procs.insert(
                self.current,
                ProcessView {
                    sched_state: Scheduler::slice_after_tick(self.cur()),
                    need_resched: Scheduler::resched_after_tick(self.cur()),
                    ..self.cur()
                },
            ),
            ..self
        }
    }

    /// Two managers with the same tasks under the same numbers.
    pub open spec fn same_ids(self, other: Self) -> bool {
        &&& self.procs.dom() == other.procs.dom()
        &&& forall|id: TaskId|
            #[trigger] self.has(id) ==> self.procs[id].id == other.procs[id].id
                && self.procs[id].is_kernel == other.procs[id].is_kernel
    }

    /// Two managers whose tasks have the same parents and children, where
    /// the second has no zombie that the first has not.
    pub open spec fn same_tree(self, other: Self) -> bool {
        &&& self.procs.dom() == other.procs.dom()
        &&& forall|id: TaskId|
            #[trigger] self.has(id) ==> {
                &&& self.procs[id].parent == other.procs[id].parent
                &&& self.procs[id].children == other.procs[id].children
                &&& (other.procs[id].state == TaskState::Zombie ==> self.procs[id].state
                    == TaskState::Zombie || id == TaskId(1))
            }
    }

    /// Two managers whose tasks are in the same states, with the same
    /// ready queue and the same current task.
    pub open spec fn same_states(self, other: Self) -> bool {
        &&& self.procs.dom() == other.procs.dom()
        &&& self.ready == other.ready
        &&& self.current == other.current
        &&& forall|id: TaskId| #[trigger] self.has(id) ==> self.procs[id].state == other.procs[id].state
    }

    /// What is said of states and of the ready queue carries over to a
    /// manager with the same states and the same queue.
    pub proof fn lemma_states_frame(self, other: Self)
        requires
            self.has(TaskId(0)),
            self.same_states(other),
        ensures
            self.states_wf() ==> other.states_wf(),
            self.ready_wf() ==> other.ready_wf(),
            self.nobody_runs() ==> other.nobody_runs(),
    {
        reveal(TaskManagerView::states_wf);
        reveal(TaskManagerView::ready_wf);
        reveal(TaskManagerView::nobody_runs);
        if self.states_wf() {
            assert forall|id: TaskId| #[trigger] other.has(id) implies (other.procs[id].state
                == TaskState::Running <==> id == other.current) by {
                assert(self.has(id));
            }
        }
        if self.ready_wf() {
            assert forall|id: TaskId| #[trigger] other.ready.contains(id) <==> other.has(id)
                && other.procs[id].state == TaskState::Ready && id != TaskId(0) by {
                assert(self.ready.contains(id) <==> self.has(id) && self.procs[id].state
                    == TaskState::Ready && id != TaskId(0));
                if other.has(id) {
                    assert(self.has(id));
                }
            }
        }
        if self.nobody_runs() {
            assert forall|id: TaskId| #[trigger] other.has(id) implies other.procs[id].state
                != TaskState::Running by {
                assert(self.has(id));
            }
        }
    }

    /// What is said of numbers carries over to a manager with the same
    /// tasks under the same numbers.
    pub proof fn lemma_ids_frame(self, other: Self)
        requires
            self.ids_wf(),
            self.same_ids(other),
            self.next_pid == other.next_pid,
        ensures
            other.ids_wf(),
    {
        reveal(TaskManagerView::ids_wf);
        assert forall|id: TaskId| #[trigger] other.has(id) implies other.procs[id].id == id && id.0
            < other.next_pid by {
            assert(self.has(id));
        }
        assert(self.has(TaskId(0)));
    }

    /// What is said of parents and children carries over to a manager
    /// with the same parents and children.
    pub proof fn lemma_tree_frame(self, other: Self)
        requires
            self.tree_wf(),
            self.has(TaskId(0)),
            self.same_tree(other),
        ensures
            other.tree_wf(),
    {
        reveal(TaskManagerView::tree_wf);
        assert forall|p: TaskId, c: TaskId|
            #![trigger other.lists(p, c)]
            #![trigger other.is_parent(p, c)]
            other.lists(p, c) <==> other.is_parent(p, c) by {
            if other.has(p) {
                assert(self.has(p));
            }
            if other.has(c) {
                assert(self.has(c));
            }
            assert(self.lists(p, c) <==> self.is_parent(p, c));
        }
        assert forall|c: TaskId| #[trigger] other.has(c) && other.procs[c].parent is Some implies other.has(
            other.procs[c].parent->0,
        ) by {
            assert(self.has(c));
        }
        assert forall|p: TaskId| #[trigger] other.has(p) implies other.procs[p].children.no_duplicates() by {
            assert(self.has(p));
        }
        assert forall|p: TaskId|
            #[trigger] other.has(p) && other.procs[p].state == TaskState::Zombie && p != TaskId(1)
            implies other.procs[p].children.len() == 0 by {
            assert(self.has(p));
        }
        assert forall|c: TaskId| #[trigger] other.has(c) implies other.procs[c].parent != Some(c) by {
            assert(self.has(c));
        }
        assert(self.has(TaskId(0)));
        if self.has(TaskId(1)) {
        }
    }

    /// A manager that differs from this one only in what none of the
    /// rules between moves speaks of is as good as this one.
    pub proof fn lemma_frames_wf(self, other: Self)
        requires
            self.wf(),
            self.same_ids(other),
            self.same_tree(other),
            self.same_states(other),
            self.next_pid == other.next_pid,
        ensures
            other.wf(),
    {
        assert(self.has(TaskId(0))) by {
            reveal(TaskManagerView::ids_wf);
        }
        self.lemma_ids_frame(other);
        self.lemma_tree_frame(other);
        self.lemma_states_frame(other);
    }

    /// When nobody runs and the next task takes over, all is well again:
    /// the next task is live, and it is the one that runs.
    pub proof fn lemma_rescheduled_wf(self)
        requires
            self.parked(),
        ensures
            self.rescheduled().wf(),
            self.has(self.next_task()),
            self.rescheduled().current == self.next_task(),
    {
        let r = self.rescheduled();
        let next = self.next_task();
        assert(self.has(TaskId(0))) by {
            reveal(TaskManagerView::ids_wf);
        }
        assert(self.has(next) && self.procs[next].state == TaskState::Ready) by {
            reveal(TaskManagerView::ready_wf);
            reveal(TaskManagerView::nobody_runs);
            if self.ready.len() > 0 {
                assert(self.ready.contains(self.ready[0]));
            }
        }
        assert(self.procs[next].id == next) by {
            reveal(TaskManagerView::ids_wf);
        }
        assert(self.same_ids(r)) by {
            assert(self.procs.dom() =~= r.procs.dom());
        }
        self.lemma_ids_frame(r);
        assert(self.same_tree(r));
        self.lemma_tree_frame(r);
        assert(r.states_wf()) by {
            reveal(TaskManagerView::states_wf);
            reveal(TaskManagerView::nobody_runs);
            assert forall|id: TaskId| #[trigger] r.has(id) implies (r.procs[id].state
                == TaskState::Running <==> id == r.current) by {
                assert(self.has(id));
            }
        }
        assert(r.ready_wf()) by {
            reveal(TaskManagerView::ready_wf);
            if self.ready.len() > 0 {
                assert forall|id: TaskId| #[trigger] r.ready.contains(id) <==> r.has(id)
                    && r.procs[id].state == TaskState::Ready && id != TaskId(0) by {
                    if r.ready.contains(id) {
                        let k = choose|k: int| 0 <= k < r.ready.len() && r.ready[k] == id;
                        assert(self.ready[k + 1] == id);
                        assert(self.ready.contains(id));
                        assert(id != next);
                    }
                    if r.has(id) && r.procs[id].state == TaskState::Ready && id != TaskId(0) {
                        assert(id != next);
                        assert(self.ready.contains(id));
                        let k = choose|k: int| 0 <= k < self.ready.len() && self.ready[k] == id;
                        assert(r.ready[k - 1] == id);
                    }
                }
                assert forall|a: int, b: int|
                    0 <= a < r.ready.len() && 0 <= b < r.ready.len() && a != b implies r.ready[a]
                    != r.ready[b] by {
                    assert(r.ready[a] == self.ready[a + 1]);
                    assert(r.ready[b] == self.ready[b + 1]);
                }
            } else {
                assert forall|id: TaskId| #[trigger] r.ready.contains(id) <==> r.has(id)
                    && r.procs[id].state == TaskState::Ready && id != TaskId(0) by {
                    assert(self.ready.contains(id) <==> self.has(id) && self.procs[id].state
                        == TaskState::Ready && id != TaskId(0));
                }
            }
        }
    }

    /// After the current task has stepped back, nobody runs, and all else
    /// is as it has to be.
    pub proof fn lemma_requeued_parked(self)
        requires
            self.wf(),
        ensures
            self.requeued().parked(),
    {
        let r = self.requeued();
        assert(self.has(TaskId(0)) && self.has(self.current) && self.cur().id == self.current) by {
            reveal(TaskManagerView::ids_wf);
            reveal(TaskManagerView::states_wf);
        }
        assert(self.procs.dom() =~= r.procs.dom());
        assert(self.same_ids(r));
        self.lemma_ids_frame(r);
        assert(self.same_tree(r));
        self.lemma_tree_frame(r);
        assert(r.nobody_runs()) by {
            reveal(TaskManagerView::states_wf);
            reveal(TaskManagerView::nobody_runs);
            assert forall|id: TaskId| #[trigger] r.has(id) implies r.procs[id].state
                != TaskState::Running by {
                assert(self.has(id));
            }
        }
        assert(r.ready_wf()) by {
            reveal(TaskManagerView::ready_wf);
            reveal(TaskManagerView::states_wf);
            assert(!self.ready.contains(self.current));
            assert forall|id: TaskId| #[trigger] r.ready.contains(id) <==> r.has(id)
                && r.procs[id].state == TaskState::Ready && id != TaskId(0) by {
                assert(self.ready.contains(id) <==> self.has(id) && self.procs[id].state
                    == TaskState::Ready && id != TaskId(0));
                if self.current != TaskId(0) {
                    lemma_push_contains(self.ready, self.current, id);
                }
            }
            if self.current != TaskId(0) {
                lemma_push_no_duplicates(self.ready, self.current);
            }
        }
    }

    /// After the current task, which is not the idle task, has fallen
    /// asleep, nobody runs, and all else is as it has to be.
    pub proof fn lemma_asleep_parked(self)
        requires
            self.wf(),
            self.current != TaskId(0),
        ensures
            self.asleep().parked(),
    {
        let r = self.asleep();
        assert(self.has(TaskId(0)) && self.has(self.current) && self.cur().id == self.current) by {
            reveal(TaskManagerView::ids_wf);
            reveal(TaskManagerView::states_wf);
        }
        assert(self.procs.dom() =~= r.procs.dom());
        assert(self.same_ids(r));
        self.lemma_ids_frame(r);
        assert(self.same_tree(r));
        self.lemma_tree_frame(r);
        assert(r.nobody_runs()) by {
            reveal(TaskManagerView::states_wf);
            reveal(TaskManagerView::nobody_runs);
            assert forall|id: TaskId| #[trigger] r.has(id) implies r.procs[id].state
                != TaskState::Running by {
                assert(self.has(id));
            }
            assert(self.has(TaskId(0)));
        }
        assert(r.ready_wf()) by {
            reveal(TaskManagerView::ready_wf);
            reveal(TaskManagerView::states_wf);
            assert forall|id: TaskId| #[trigger] r.ready.contains(id) <==> r.has(id)
                && r.procs[id].state == TaskState::Ready && id != TaskId(0) by {
                assert(self.ready.contains(id) <==> self.has(id) && self.procs[id].state
                    == TaskState::Ready && id != TaskId(0));
            }
        }
    }

    /// Waking a task keeps what holds between moves, and also what holds
    /// while nobody runs.
    pub proof fn lemma_woken(self, id: TaskId)
        requires
            self.ids_wf(),
            self.ready_wf(),
            self.tree_wf(),
            self.states_wf() || self.nobody_runs(),
        ensures
            self.woken(id).ids_wf(),
            self.woken(id).ready_wf(),
            self.woken(id).tree_wf(),
            self.states_wf() ==> self.woken(id).states_wf(),
            self.nobody_runs() ==> self.woken(id).nobody_runs(),
    {
        let r = self.woken(id);
        if self.has(id) && self.procs[id].state == TaskState::Sleeping {
            assert(self.has(TaskId(0)) && self.procs[id].id == id) by {
                reveal(TaskManagerView::ids_wf);
            }
            assert(self.procs.dom() =~= r.procs.dom());
            assert(self.same_ids(r));
            self.lemma_ids_frame(r);
            assert(self.same_tree(r));
            self.lemma_tree_frame(r);
            if self.states_wf() {
                reveal(TaskManagerView::states_wf);
                assert forall|x: TaskId| #[trigger] r.has(x) implies (r.procs[x].state
                    == TaskState::Running <==> x == r.current) by {
                    assert(self.has(x));
                }
                assert(self.has(id));
            }
            if self.nobody_runs() {
                reveal(TaskManagerView::nobody_runs);
                assert forall|x: TaskId| #[trigger] r.has(x) implies r.procs[x].state
                    != TaskState::Running by {
                    assert(self.has(x));
                }
            }
            assert(r.ready_wf()) by {
                reveal(TaskManagerView::ready_wf);
                assert(!self.ready.contains(id));
                assert(id != TaskId(0)) by {
                    if self.states_wf() {
                        reveal(TaskManagerView::states_wf);
                    }
                    if self.nobody_runs() {
                        reveal(TaskManagerView::nobody_runs);
                    }
                }
                assert forall|x: TaskId| #[trigger] r.ready.contains(x) <==> r.has(x)
                    && r.procs[x].state == TaskState::Ready && x != TaskId(0) by {
                    assert(self.ready.contains(x) <==> self.has(x) && self.procs[x].state
                        == TaskState::Ready && x != TaskId(0));
                    lemma_push_contains(self.ready, id, x);
                }
                lemma_push_no_duplicates(self.ready, id);
            }
        }
    }

    /// A timer tick keeps what holds between moves.
    pub proof fn lemma_ticked_wf(self)
        requires
            self.wf(),
        ensures
            self.ticked().wf(),
    {
        let r = self.ticked();
        assert(self.has(TaskId(0)) && self.has(self.current) && self.cur().id == self.current) by {
            reveal(TaskManagerView::ids_wf);
            reveal(TaskManagerView::states_wf);
        }
        assert(self.procs.dom() =~= r.procs.dom());
        assert(self.same_ids(r));
        self.lemma_ids_frame(r);
        assert(self.same_tree(r));
        self.lemma_tree_frame(r);
        assert(r.states_wf()) by {
            reveal(TaskManagerView::states_wf);
            assert forall|id: TaskId| #[trigger] r.has(id) implies (r.procs[id].state
                == TaskState::Running <==> id == r.current) by {
                assert(self.has(id));
            }
        }
        assert(r.ready_wf()) by {
            reveal(TaskManagerView::ready_wf);
            assert forall|id: TaskId| #[trigger] r.ready.contains(id) <==> r.has(id)
                && r.procs[id].state == TaskState::Ready && id != TaskId(0) by {
                assert(self.ready.contains(id) <==> self.has(id) && self.procs[id].state
                    == TaskState::Ready && id != TaskId(0));
            }
        }
    }

    /// Whether a new task `child` may be registered under `parent`: it
    /// has the number that is handed out next, is ready and has no
    /// children. The root task has no parent; any other task has a live
    /// one, which is not the idle task and has not exited, unless it is
    /// the root task.
    pub open spec fn may_register(self, child: ProcessView, parent: Option<TaskId>) -> bool {
        &&& self.next_pid < usize::MAX
        &&& child.id == TaskId(self.next_pid)
        &&& child.state == TaskState::Ready
        &&& child.children.len() == 0
        &&& match parent {
            None => child.id == TaskId(1),
            Some(p) => self.has(p) && p != TaskId(0) && child.id != TaskId(1) && (
            self.procs[p].state != TaskState::Zombie || p == TaskId(1)),
        }
    }

    /// A new task joins: it names `parent` as its parent, the parent lists
    /// it after its other children, and it joins the end of the ready
    /// queue. The next number is handed out.
    pub open spec fn registered(self, child: ProcessView, parent: Option<TaskId>) -> Self {
        let procs = match parent {
            Some(p) => self.procs.insert(
                p,
                ProcessView { children: self.procs[p].children.push(child.id), ..self.procs[p] },
            ),
            None => self.procs,
        };
        TaskManagerView {
            procs: procs.insert(child.id, ProcessView { parent, ..child }),
            ready: self.ready.push(child.id),
            next_pid: (self.next_pid + 1) as usize,
            ..self
        }
    }

    /// A task that may be registered has a number that no live task has,
    /// and registering it keeps what holds between moves.
    pub proof fn lemma_registered_wf(self, child: ProcessView, parent: Option<TaskId>)
        requires
            self.wf(),
            self.may_register(child, parent),
        ensures
            self.registered(child, parent).wf(),
            !self.has(child.id),
    {
        let r = self.registered(child, parent);
        let cid = child.id;
        assert(!self.has(cid) && self.has(TaskId(0)) && self.next_pid >= 1) by {
            reveal(TaskManagerView::ids_wf);
            if self.has(cid) {
            }
        }
        assert(forall|id: TaskId| r.has(id) <==> (self.has(id) || id == cid));
        if parent is Some {
            assert(self.procs[parent->0].id == parent->0) by {
                reveal(TaskManagerView::ids_wf);
            }
        }
        assert(r.ids_wf()) by {
            reveal(TaskManagerView::ids_wf);
            assert forall|id: TaskId| #[trigger] r.has(id) implies r.procs[id].id == id && id.0
                < r.next_pid by {
                if id != cid {
                    assert(self.has(id));
                }
            }
        }
        assert(r.states_wf()) by {
            reveal(TaskManagerView::states_wf);
            assert forall|id: TaskId| #[trigger] r.has(id) implies (r.procs[id].state
                == TaskState::Running <==> id == r.current) by {
                if id != cid {
                    assert(self.has(id));
                }
            }
        }
        assert(r.ready_wf()) by {
            reveal(TaskManagerView::ready_wf);
            assert(!self.ready.contains(cid));
            assert forall|x: TaskId| #[trigger] r.ready.contains(x) <==> r.has(x)
                && r.procs[x].state == TaskState::Ready && x != TaskId(0) by {
                assert(self.ready.contains(x) <==> self.has(x) && self.procs[x].state
                    == TaskState::Ready && x != TaskId(0));
                lemma_push_contains(self.ready, cid, x);
            }
            lemma_push_no_duplicates(self.ready, cid);
        }
        assert(r.tree_wf()) by {
            reveal(TaskManagerView::tree_wf);
            assert forall|x: TaskId, y: TaskId|
                #![trigger r.lists(x, y)]
                #![trigger r.is_parent(x, y)]
                r.lists(x, y) <==> r.is_parent(x, y) by {
                assert(self.lists(x, y) <==> self.is_parent(x, y));
                assert(self.lists(x, cid) <==> self.is_parent(x, cid));
                assert(self.lists(cid, y) <==> self.is_parent(cid, y));
                if parent is Some && x == parent->0 {
                    lemma_push_contains(self.procs[x].children, cid, y);
                }
            }
            assert forall|c: TaskId| #[trigger] r.has(c) && r.procs[c].parent is Some implies r.has(
                r.procs[c].parent->0,
            ) by {
                if c != cid {
                    assert(self.has(c));
                }
            }
            assert forall|x: TaskId| #[trigger] r.has(x) implies r.procs[x].children.no_duplicates() by {
                if x != cid {
                    assert(self.has(x));
                    if parent is Some && x == parent->0 {
                        assert(self.lists(x, cid) <==> self.is_parent(x, cid));
                        lemma_push_no_duplicates(self.procs[x].children, cid);
                    }
                }
            }
            assert forall|x: TaskId|
                #[trigger] r.has(x) && r.procs[x].state == TaskState::Zombie && x != TaskId(1)
                implies r.procs[x].children.len() == 0 by {
                if x != cid {
                    assert(self.has(x));
                }
            }
            assert forall|x: TaskId| #[trigger] r.has(x) implies r.procs[x].parent != Some(x) by {
                if x != cid {
                    assert(self.has(x));
                }
            }
        }
    }

    /// The manager at the start: the idle task runs, and no other task
    /// is there.
    pub open spec fn initial(idle: ProcessView) -> Self {
        TaskManagerView {
            procs: Map::empty().insert(TaskId(0), idle),
            ready: Seq::empty(),
            current: TaskId(0),
            next_pid: 1,
            lock_held: false,
        }
    }
}

/// The registry of all live tasks, with the scheduler and the task that
/// runs now.
pub struct TaskManager {
    /// Every live task once: first the idle task, then the others as they
    /// came.
    pub tasks: Vec<Process>,
    pub scheduler: Scheduler,
    /// The task that runs now.
    pub current: TaskId,
    /// The number that the next new task gets.
    pub next_pid: usize,
    /// Whether the lock of the manager is still held for a switch that
    /// was ordered. The lock is not released by the task that ordered the
    /// switch, which no longer runs, but by the task that takes over, as
    /// the first thing it does: `force_unlock`. Until then the manager
    /// makes no other move.
    pub lock_held: bool,
}

impl View for TaskManager {
    type V = TaskManagerView;

    open spec fn view(&self) -> TaskManagerView {
        TaskManagerView {
            procs: procs_of(self.tasks@),
            ready: self.scheduler.ready(),
            current: self.current,
            next_pid: self.next_pid,
            lock_held: self.lock_held,
        }
    }
}

impl TaskManager {
    /// What holds of the manager between any two of its moves.
    pub open spec fn wf(&self) -> bool {
        &&& distinct_ids(self.tasks@)
        &&& self@.wf()
    }

    /// A manager with the idle task alone, which runs in the kernel's
    /// address space.
    pub fn new(kernel_root: PhysAddr) -> (r: Self)
        ensures
            r.wf(),
            r@ == TaskManagerView::initial(r@.procs[TaskId(0)]),
            r@.procs[TaskId(0)] == (ProcessView {
                state: TaskState::Running,
                ctx: ProcessView::idle(r@.procs[TaskId(0)].kstack).started_ctx(0, kernel_root),
                ..ProcessView::idle(r@.procs[TaskId(0)].kstack)
            }),
    {
        let mut idle = Process::new_idle();
        idle.init_idle(kernel_root);
        let mut tasks: Vec<Process> = Vec::new();
        let ghost idle_seq = seq![idle];
        tasks.push(idle);
        let r = TaskManager {
            tasks,
            scheduler: Scheduler::new(),
            current: TaskId(0),
            next_pid: 1,
            lock_held: false,
        };
        proof {
            assert(r.tasks@ =~= idle_seq);
            lemma_lookup(r.tasks@, 0);
            assert(r@.procs =~= Map::empty().insert(TaskId(0), r.tasks@[0]@));
            assert(r@.ready =~= Seq::empty());
            reveal(TaskManagerView::ids_wf);
            reveal(TaskManagerView::states_wf);
            reveal(TaskManagerView::ready_wf);
            reveal(TaskManagerView::tree_wf);
            assert forall|p: TaskId, c: TaskId| !r@.lists(p, c) && !r@.is_parent(p, c) by {
            }
        }
        r
    }

    /// Where in the registry the task with the number `id` stands, if it
    /// is there.
    pub fn find(&self, id: TaskId) -> (r: Option<usize>)
        ensures
            r matches Some(i) ==> i < self.tasks.len() && self.tasks[i as int].id == id,
            r is None ==> !has_id(self.tasks@, id),
            r is Some <==> has_id(self.tasks@, id),
    {
        let mut i: usize = 0;
        while i < self.tasks.len()
            invariant
                i <= self.tasks.len(),
                forall|j: int| 0 <= j < i ==> (#[trigger] self.tasks[j]).id != id,
            decreases self.tasks.len() - i,
        {
            if self.tasks[i].id.0 == id.0 {
                return Some(i);
            }
            i = i + 1;
        }
        None
    }

    /// Where in the registry the task that runs now stands.
    pub fn current_index(&self) -> (i: usize)
        requires
            distinct_ids(self.tasks@),
            self@.has(self.current),
        ensures
            i < self.tasks.len(),
            self.tasks[i as int].id == self.current,
            self.tasks[i as int]@ == self@.cur(),
    {
        match self.find(self.current) {
            Some(i) => {
                proof {
                    lemma_lookup(self.tasks@, i as int);
                }
                i
            },
            None => {
                proof {
                    assert(false);
                }
                0
            },
        }
    }

    /// The next task takes over: the first ready task, or the idle task
    /// when none is ready.
    pub(crate) fn resched(&mut self) -> (next: TaskId)
        requires
            distinct_ids(old(self).tasks@),
            old(self)@.parked(),
        ensures
            final(self).wf(),
            final(self)@ == old(self)@.rescheduled(),
            next == old(self)@.next_task(),
            next == final(self)@.current,
    {
        let next = match self.scheduler.pick_next_task() {
            Some(t) => t,
            None => TaskId(0),
        };
        proof {
            old(self)@.lemma_rescheduled_wf();
        }
        match self.find(next) {
            Some(i) => {
                let ghost old_tasks = self.tasks@;
                self.tasks[i].set_state(TaskState::Running);
                self.lock_held = !(next == self.current);
                self.current = next;
                proof {
                    lemma_lookup(old_tasks, i as int);
                    assert(self.tasks@ =~= old_tasks.update(i as int, self.tasks@[i as int]));
                    lemma_update(old_tasks, i as int, self.tasks@[i as int]);
                    assert(self@.procs =~= old(self)@.rescheduled().procs);
                    assert(self@.ready =~= old(self)@.rescheduled().ready);
                }
            },
            None => {
                proof {
                    assert(false);
                }
            },
        }
        next
    }

    /// The current task gives way to the next ready task and joins the
    /// end of the ready queue. When no other task is ready, it goes on.
    pub fn yield_current(&mut self) -> (r: Option<Switch>)
        requires
            old(self).wf(),
            !old(self).lock_held,
        ensures
            final(self).wf(),
            final(self)@ == old(self)@.yielded(),
            r == switch_between(old(self)@.current, final(self)@.current),
            final(self).lock_held == (r is Some),
    {
        let from = self.current;
        proof {
            reveal(TaskManagerView::states_wf);
        }
        let i = self.current_index();
        let ghost old_tasks = self.tasks@;
        self.tasks[i].set_state(TaskState::Ready);
        self.tasks[i].clear_need_resched();
        self.tasks[i].sched_state.reset();
        if from.0 != 0 {
            self.scheduler.push_ready_task_back(from);
        }
        proof {
            assert(self.tasks@ =~= old_tasks.update(i as int, self.tasks@[i as int]));
            lemma_update(old_tasks, i as int, self.tasks@[i as int]);
            assert(self@.procs =~= old(self)@.requeued().procs);
            assert(self@ == old(self)@.requeued());
            old(self)@.lemma_requeued_parked();
        }
        let to = self.resched();
        if to == from {
            None
        } else {
            Some(Switch { from, to })
        }
    }

    /// At a safe point, such as the return from a trap: the current task
    /// gives way if it was asked to, and goes on otherwise.
    pub fn resched_if_needed(&mut self) -> (r: Option<Switch>)
        requires
            old(self).wf(),
            !old(self).lock_held,
        ensures
            final(self).wf(),
            old(self)@.cur().need_resched ==> final(self)@ == old(self)@.yielded() && r
                == switch_between(old(self)@.current, final(self)@.current),
            !old(self)@.cur().need_resched ==> final(self)@ == old(self)@ && r is None,
            final(self).lock_held == (r is Some),
    {
        proof {
            reveal(TaskManagerView::states_wf);
        }
        let i = self.current_index();
        if self.tasks[i].need_resched() {
            self.yield_current()
        } else {
            None
        }
    }

    /// The current task, which is not the idle task, goes to sleep, and
    /// the next task takes over.
    pub fn sleep_current(&mut self) -> (r: Switch)
        requires
            old(self).wf(),
            !old(self).lock_held,
            old(self)@.current != TaskId(0),
        ensures
            final(self).wf(),
            final(self)@ == old(self)@.slept(),
            r == (Switch { from: old(self)@.current, to: final(self)@.current }),
            r.from != r.to,
            final(self).lock_held,
    {
        let from = self.current;
        proof {
            reveal(TaskManagerView::states_wf);
        }
        let i = self.current_index();
        let ghost old_tasks = self.tasks@;
        self.tasks[i].set_state(TaskState::Sleeping);
        proof {
            assert(self.tasks@ =~= old_tasks.update(i as int, self.tasks@[i as int]));
            lemma_update(old_tasks, i as int, self.tasks@[i as int]);
            assert(self@.procs =~= old(self)@.asleep().procs);
            assert(self@ == old(self)@.asleep());
            old(self)@.lemma_asleep_parked();
        }
        let ghost mid = self@;
        let to = self.resched();
        proof {
            mid.lemma_rescheduled_wf();
            reveal(TaskManagerView::ready_wf);
            if mid.ready.len() > 0 {
                assert(mid.ready.contains(mid.ready[0]));
            }
        }
        Switch { from, to }
    }

    /// Wakes the task `id`: if it sleeps, it becomes ready and joins the
    /// end of the ready queue; otherwise nothing changes.
    pub fn wakeup(&mut self, id: TaskId)
        requires
            old(self).wf(),
            !old(self).lock_held,
        ensures
            final(self).wf(),
            final(self)@ == old(self)@.woken(id),
    {
        proof {
            old(self)@.lemma_woken(id);
        }
        self.wake(id);
    }

    /// Wakes the task `id`, between two moves or while nobody runs.
    pub(crate) fn wake(&mut self, id: TaskId)
        requires
            distinct_ids(old(self).tasks@),
        ensures
            distinct_ids(final(self).tasks@),
            final(self)@ == old(self)@.woken(id),
    {
        match self.find(id) {
            Some(i) => {
                proof {
                    lemma_lookup(self.tasks@, i as int);
                }
                if self.tasks[i].state == TaskState::Sleeping {
                    let ghost old_tasks = self.tasks@;
                    self.tasks[i].set_state(TaskState::Ready);
                    self.scheduler.push_ready_task_back(id);
                    proof {
                        assert(self.tasks@ =~= old_tasks.update(i as int, self.tasks@[i as int]));
                        lemma_update(old_tasks, i as int, self.tasks@[i as int]);
                        assert(self@.procs =~= old(self)@.woken(id).procs);
                    }
                }
            },
            None => {},
        }
    }

    /// Files the new task `child` under `parent` and makes it ready.
    fn register(&mut self, child: Process, parent: Option<TaskId>)
        requires
            old(self).wf(),
            old(self)@.may_register(child@, parent),
        ensures
            final(self).wf(),
            final(self)@ == old(self)@.registered(child@, parent),
    {
        let mut child = child;
        let id = child.id;
        let ghost v0 = self@;
        let ghost t0 = self.tasks@;
        let ghost c0 = child@;
        proof {
            v0.lemma_registered_wf(c0, parent);
        }
        match parent {
            Some(p) => {
                match self.find(p) {
                    Some(pi) => {
                        proof {
                            lemma_lookup(t0, pi as int);
                        }
                        self.tasks[pi].add_child(&mut child);
                        proof {
                            assert(self.tasks@ =~= t0.update(pi as int, self.tasks@[pi as int]));
                            lemma_update(t0, pi as int, self.tasks@[pi as int]);
                        }
                    },
                    None => {
                        proof {
                            assert(false);
                        }
                    },
                }
            },
            None => {
                child.parent = None;
            },
        }
        let ghost t1 = self.tasks@;
        proof {
            assert(child@ == (ProcessView { parent, ..c0 }));
            assert(!has_id(t1, id));
            lemma_push(t1, child);
        }
        self.tasks.push(child);
        self.scheduler.push_ready_task_back(id);
        let _ = TaskId::allocate(&mut self.next_pid);
        proof {
            assert(self@.procs =~= v0.registered(c0, parent).procs);
        }
    }

    /// The parent of a task that is spawned with the number that is
    /// handed out next: the root task, unless the new task is the root
    /// task itself.
    pub open spec fn spawn_parent(&self) -> Option<TaskId> {
        if self.next_pid == 1 {
            None
        } else {
            Some(TaskId(1))
        }
    }

    /// Spawns a kernel task that runs the function at `entry` on `arg`:
    /// it gets the next number, a kernel stack and a context that starts
    /// at `trampoline`, becomes a child of the root task and joins the
    /// ready queue. The first task that is spawned is the root task.
    pub fn spawn_kernel(
        &mut self,
        entry: usize,
        arg: usize,
        trampoline: usize,
        kernel_root: PhysAddr,
    ) -> (id: TaskId)
        requires
            old(self).wf(),
            !old(self).lock_held,
            old(self).next_pid < usize::MAX,
        ensures
            final(self).wf(),
            id == TaskId(old(self).next_pid),
            !old(self)@.has(id),
            final(self)@ == old(self)@.registered(
                ProcessView::kernel(
                    id,
                    final(self)@.procs[id].kstack,
                    entry,
                    arg,
                    trampoline,
                    kernel_root,
                ),
                old(self).spawn_parent(),
            ),
    {
        let id = TaskId(self.next_pid);
        let child = Process::new_kernel(id, entry, arg, trampoline, kernel_root);
        let parent = if id.0 == 1 {
            None
        } else {
            Some(TaskId(1))
        };
        proof {
            reveal(TaskManagerView::ids_wf);
            self@.lemma_registered_wf(child@, parent);
        }
        self.register(child, parent);
        id
    }

    /// Spawns a user task for a program that was loaded into the address
    /// space rooted at `root`, with its entry point at `entry` and its
    /// stack below `ustack_top`: it gets the next number, a kernel stack
    /// and a context that starts at `trampoline`, becomes a child of the
    /// root task and joins the ready queue.
    pub fn spawn_user(
        &mut self,
        entry: VirtAddr,
        ustack_top: VirtAddr,
        root: PhysAddr,
        trampoline: usize,
    ) -> (id: TaskId)
        requires
            old(self).wf(),
            !old(self).lock_held,
            old(self).next_pid < usize::MAX,
            old(self)@.has(TaskId(1)),
        ensures
            final(self).wf(),
            id == TaskId(old(self).next_pid),
            !old(self)@.has(id),
            final(self)@ == old(self)@.registered(
                ProcessView::user(
                    id,
                    final(self)@.procs[id].kstack,
                    entry,
                    ustack_top,
                    root,
                    trampoline,
                ),
                Some(TaskId(1)),
            ),
    {
        let id = TaskId(self.next_pid);
        let child = Process::new_user(id, entry, ustack_top, root, trampoline);
        proof {
            reveal(TaskManagerView::ids_wf);
            self@.lemma_registered_wf(child@, Some(TaskId(1)));
        }
        self.register(child, Some(TaskId(1)));
        id
    }

    /// The current task, a user task, clones itself: the clone gets the
    /// next number, shares the address space, runs on the user stack below
    /// `newsp`, resumes from `tf` with 0 as the result of the call, becomes
    /// a child of the current task and joins the ready queue.
    pub fn clone_current(&mut self, newsp: usize, tf: &ProcessTrapFrame, trampoline: usize) -> (id:
        TaskId)
        requires
            old(self).wf(),
            !old(self).lock_held,
            old(self).next_pid < usize::MAX,
            !old(self)@.cur().is_kernel,
            old(self)@.cur().vm is Some,
        ensures
            final(self).wf(),
            id == TaskId(old(self).next_pid),
            !old(self)@.has(id),
            final(self)@ == old(self)@.registered(
                old(self)@.cur().cloned(
                    id,
                    final(self)@.procs[id].kstack,
                    newsp,
                    *tf,
                    trampoline,
                ),
                Some(old(self)@.current),
            ),
    {
        let id = TaskId(self.next_pid);
        proof {
            reveal(TaskManagerView::ids_wf);
            reveal(TaskManagerView::states_wf);
        }
        let ci = self.current_index();
        let child = self.tasks[ci].new_clone(id, newsp, tf, trampoline);
        let parent = Some(self.current);
        proof {
            self@.lemma_registered_wf(child@, parent);
        }
        self.register(child, parent);
        id
    }

    /// The current task, a user task, forks: the fork gets the next
    /// number, runs in the copy of the address space that is rooted at
    /// `root`, resumes from `tf` with 0 as the result of the call, becomes
    /// a child of the current task and joins the ready queue.
    pub fn fork_current(&mut self, tf: &ProcessTrapFrame, root: PhysAddr, trampoline: usize) -> (id:
        TaskId)
        requires
            old(self).wf(),
            !old(self).lock_held,
            old(self).next_pid < usize::MAX,
            !old(self)@.cur().is_kernel,
            old(self)@.cur().vm is Some,
        ensures
            final(self).wf(),
            id == TaskId(old(self).next_pid),
            !old(self)@.has(id),
            final(self)@ == old(self)@.registered(
                old(self)@.cur().forked(id, final(self)@.procs[id].kstack, *tf, root, trampoline),
                Some(old(self)@.current),
            ),
    {
        let id = TaskId(self.next_pid);
        proof {
            reveal(TaskManagerView::ids_wf);
            reveal(TaskManagerView::states_wf);
        }
        let ci = self.current_index();
        let child = self.tasks[ci].new_fork(id, tf, root, trampoline);
        let parent = Some(self.current);
        proof {
            self@.lemma_registered_wf(child@, parent);
        }
        self.register(child, parent);
        id
    }

    /// The task that took over after a switch releases the lock of the
    /// manager, as the first thing it does. The lock is released once for
    /// each switch: there is nothing to release when no switch was
    /// ordered, and the manager makes no other move before the release.
    pub fn force_unlock(&mut self)
        requires
            old(self).wf(),
            old(self).lock_held,
        ensures
            final(self).wf(),
            final(self)@ == old(self)@.unlocked(),
            !final(self).lock_held,
    {
        self.lock_held = false;
        proof {
            old(self)@.lemma_frames_wf(self@);
        }
    }

    /// Accounts one timer tick to the current task: its time slice gets
    /// shorter, and when it is used up the task is asked to give way. No
    /// task is switched.
    pub fn timer_tick(&mut self)
        requires
            old(self).wf(),
            !old(self).lock_held,
        ensures
            final(self).wf(),
            final(self)@ == old(self)@.ticked(),
    {
        proof {
            reveal(TaskManagerView::states_wf);
        }
        let i = self.current_index();
        let ghost old_tasks = self.tasks@;
        self.scheduler.timer_tick(&mut self.tasks[i]);
        proof {
            assert(self.tasks@ =~= old_tasks.update(i as int, self.tasks@[i as int]));
            lemma_update(old_tasks, i as int, self.tasks@[i as int]);
            assert(self@.procs =~= old(self)@.ticked().procs);
            old(self)@.lemma_ticked_wf();
        }
    }
}

/// No number is in use twice: between any two moves of the manager, two
/// live tasks, zombies among them, have different numbers; the number that
/// is handed out next is in use by none of them; and the idle task has the
/// number 0.
pub proof fn lemma_ids_never_reused(manager: TaskManager, i: int, j: int)
    requires
        manager.wf(),
        0 <= i < manager.tasks@.len(),
        0 <= j < manager.tasks@.len(),
        i != j,
    ensures
        manager.tasks@[i].id != manager.tasks@[j].id,
        manager.tasks@[i].id.0 < manager.next_pid,
        !manager@.has(TaskId(manager.next_pid)),
        manager@.has(TaskId(0)),
        manager@.procs[TaskId(0)].id == TaskId(0),
{
    reveal(TaskManagerView::ids_wf);
    lemma_lookup(manager.tasks@, i);
    lemma_lookup(manager.tasks@, j);
    if i < j {
        assert(manager.tasks@[i].id != manager.tasks@[j].id);
    } else {
        assert(manager.tasks@[j].id != manager.tasks@[i].id);
    }
    assert(manager@.has(manager.tasks@[i].id));
    if manager@.has(TaskId(manager.next_pid)) {
    }
}

/// Exactly one task runs: between any two moves of the manager the current
/// task is live and running, and no other live task is.
pub proof fn lemma_one_task_runs(manager: TaskManager, id: TaskId)
    requires
        manager.wf(),
        manager@.has(id),
    ensures
        manager@.has(manager@.current),
        manager@.cur().state == TaskState::Running,
        manager@.procs[id].state == TaskState::Running <==> id == manager@.current,
{
    reveal(TaskManagerView::states_wf);
    assert(manager@.has(manager@.current));
}

/// The switch that a move from the task `from` to the task `to` asks for:
/// none when the task goes on.
pub open spec fn switch_between(from: TaskId, to: TaskId) -> Option<Switch> {
    if from == to {
        None
    } else {
        Some(Switch { from, to })
    }
}

} // verus!
