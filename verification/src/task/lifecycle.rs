//! How a task ends and how its parent collects it: the moves of the task
//! manager that change who is whose child.

use vstd::prelude::*;
use crate::mm::PhysAddr;
use crate::task::manager::{
    distinct_ids,
    has_id,
    index_of,
    lemma_lookup,
    lemma_remove,
    lemma_update,
    procs_of,
    Switch,
    TaskManager,
    TaskManagerView,
};
use crate::task::structs::{Process, ProcessView, Task, TaskId, TaskState, WaitCurrent};

verus! {

/// What a sequence without duplicates holds after one item is removed:
/// all the others.
pub proof fn lemma_remove_contains<T>(s: Seq<T>, k: int, y: T)
    requires
        s.no_duplicates(),
        0 <= k < s.len(),
    ensures
        s.remove(k).contains(y) <==> (s.contains(y) && y != s[k]),
        s.remove(k).no_duplicates(),
{
    let t = s.remove(k);
    if t.contains(y) {
        let i = choose|i: int| 0 <= i < t.len() && t[i] == y;
        let i1 = if i < k { i } else { i + 1 };
        assert(s[i1] == y);
    }
    if s.contains(y) && y != s[k] {
        let i = choose|i: int| 0 <= i < s.len() && s[i] == y;
        let i2 = if i < k { i } else { i - 1 };
        assert(t[i2] == y);
    }
    assert forall|a: int, b: int| 0 <= a < t.len() && 0 <= b < t.len() && a != b implies t[a]
        != t[b] by {
        let a1 = if a < k { a } else { a + 1 };
        let b1 = if b < k { b } else { b + 1 };
        assert(s[a1] != s[b1]);
    }
}

/// What two sequences hold when one is put behind the other: what either
/// holds.
pub proof fn lemma_concat_contains<T>(s: Seq<T>, t: Seq<T>, y: T)
    ensures
        (s + t).contains(y) <==> (s.contains(y) || t.contains(y)),
{
    let u = s + t;
    if u.contains(y) {
        let i = choose|i: int| 0 <= i < u.len() && u[i] == y;
        if i < s.len() {
            assert(s[i] == y);
        } else {
            assert(t[i - s.len()] == y);
        }
    }
    if s.contains(y) {
        let i = choose|i: int| 0 <= i < s.len() && s[i] == y;
        assert(u[i] == y);
    }
    if t.contains(y) {
        let i = choose|i: int| 0 <= i < t.len() && t[i] == y;
        assert(u[i + s.len()] == y);
    }
}

/// Two sequences without duplicates that share no item give a sequence
/// without duplicates when one is put behind the other.
pub proof fn lemma_concat_no_duplicates<T>(s: Seq<T>, t: Seq<T>)
    requires
        s.no_duplicates(),
        t.no_duplicates(),
        forall|y: T| !(s.contains(y) && t.contains(y)),
    ensures
        (s + t).no_duplicates(),
{
    let u = s + t;
    assert forall|a: int, b: int| 0 <= a < u.len() && 0 <= b < u.len() && a != b implies u[a]
        != u[b] by {
        if a < s.len() {
            assert(s.contains(s[a]));
        } else {
            assert(t.contains(t[a - s.len()]));
        }
        if b < s.len() {
            assert(s.contains(s[b]));
        } else {
            assert(t.contains(t[b - s.len()]));
        }
    }
}

impl TaskManagerView {
    /// Whether the task `id` alone refers to its address space: it has
    /// one, and no other live task holds the same root.
    pub open spec fn sole_owner(self, id: TaskId) -> bool {
        &&& self.has(id)
        &&& self.procs[id].vm is Some
        &&& forall|other: TaskId|
            #[trigger] self.has(other) && other != id ==> self.procs[other].vm != self.procs[id].vm
    }

    /// The address space that is released when the current task exits:
    /// its own, when no other task refers to it.
    pub open spec fn released_on_exit(self) -> Option<PhysAddr> {
        if self.sole_owner(self.current) {
            self.cur().vm
        } else {
            None
        }
    }

    /// The current task has exited with `code` and nobody has taken over
    /// yet: it is a zombie with that exit code, and its children are now
    /// children of the root task, after those that the root task had.
    /// When the root task itself exits, its children stay with it.
    pub open spec fn zombified(self, code: i32) -> Self {
        let c = self.current;
        let root = TaskId(1);
        let kids = self.procs[c].children;
        TaskManagerView {
            procs: Map::new(
                |id: TaskId| self.has(id),
                |id: TaskId|
                    if id == c {
                        ProcessView {
                            state: TaskState::Zombie,
                            exit_code: code,
                            children: if c == root {
                                kids
                            } else {
                                Seq::empty()
                            },
                            ..self.procs[c]
                        }
                    } else if c != root && id == root {
                        ProcessView {
                            children: self.procs[root].children + kids,
                            ..self.procs[root]
                        }
                    } else if c != root && self.procs[id].parent == Some(c) {
                        ProcessView { parent: Some(root), ..self.procs[id] }
                    } else {
                        self.procs[id]
                    },
            ),
            ..self
        }
    }

    /// The task `parent`, if it is parked waiting for a child to exit,
    /// is taken off and woken.
    pub open spec fn notified(self, parent: Option<TaskId>) -> Self {
        if parent is Some && self.has(parent->0)
            && self.procs[parent->0].wait_children_exit.waiting {
            let p = parent->0;
            TaskManagerView {
                procs: self.procs.insert(
                    p,
                    ProcessView {
                        wait_children_exit: WaitCurrent { waiting: false },
                        ..self.procs[p]
                    },
                ),
                ..self
            }.woken(p)
        } else {
            self
        }
    }

    /// The current task exits with `code`: it becomes a zombie, its
    /// children go to the root task, its parent is woken if it waits for a
    /// child, and the next task takes over.
    pub open spec fn exited(self, code: i32) -> Self {
        self.zombified(code).notified(self.cur().parent).rescheduled()
    }

    /// The current task parks to wait for a child to exit; no task has
    /// taken over yet.
    pub open spec fn parked_for_children(self) -> Self {
        TaskManagerView {
            procs: self.procs.insert(
                self.current,
                ProcessView { wait_children_exit: WaitCurrent { waiting: true }, ..self.cur() },
            ),
            ..self
        }
    }

    /// The current task waits for a child to exit: it parks and sleeps,
    /// and the next task takes over.
    pub open spec fn blocked(self) -> Self {
        self.parked_for_children().slept()
    }

    /// The zombie `child` is collected: it leaves the registry and the
    /// children of its parent.
    pub open spec fn reaped(self, child: TaskId) -> Self {
        let p = self.procs[child].parent->0;
        let kids = self.procs[p].children;
        TaskManagerView {
            procs: self.procs.remove(child).insert(
                p,
                ProcessView { children: kids.remove(kids.index_of(child)), ..self.procs[p] },
            ),
            ..self
        }
    }

    /// After the current task, which is not the idle task, has become a
    /// zombie, nobody runs, and all else is as it has to be: the zombie
    /// keeps its parent and has its exit code.
    pub proof fn lemma_zombified_parked(self, code: i32)
        requires
            self.wf(),
            self.current != TaskId(0),
        ensures
            self.zombified(code).parked(),
            self.zombified(code).cur().state == TaskState::Zombie,
            self.zombified(code).cur().exit_code == code,
            self.zombified(code).cur().parent == self.cur().parent,
    {
        let z = self.zombified(code);
        let c = self.current;
        let root = TaskId(1);
        let kids = self.procs[c].children;
        assert(self.has(TaskId(0)) && self.has(c) && self.procs[c].id == c && (c != root
            ==> self.has(root) && self.procs[root].id == root)) by {
            reveal(TaskManagerView::ids_wf);
            reveal(TaskManagerView::states_wf);
        }
        assert(self.procs.dom() =~= z.procs.dom());
        assert(self.same_ids(z));
        self.lemma_ids_frame(z);
        assert(z.nobody_runs() && z.ready_wf()) by {
            reveal(TaskManagerView::states_wf);
            reveal(TaskManagerView::nobody_runs);
            reveal(TaskManagerView::ready_wf);
            assert forall|id: TaskId| #[trigger] z.has(id) implies z.procs[id].state
                != TaskState::Running by {
                assert(self.has(id));
            }
            assert forall|id: TaskId| #[trigger] z.ready.contains(id) <==> z.has(id)
                && z.procs[id].state == TaskState::Ready && id != TaskId(0) by {
                assert(self.ready.contains(id) <==> self.has(id) && self.procs[id].state
                    == TaskState::Ready && id != TaskId(0));
            }
            assert(self.has(TaskId(0)));
        }
        assert(z.tree_wf()) by {
            reveal(TaskManagerView::tree_wf);
            assert(self.has(c));
            assert(self.procs[c].parent != Some(c));
            if c == root {
                assert(self.same_tree(z));
                self.lemma_tree_frame(z);
            } else {
                let rk = self.procs[root].children;
                assert(self.has(root));
                assert forall|x: TaskId, y: TaskId|
                    #![trigger z.lists(x, y)]
                    #![trigger z.is_parent(x, y)]
                    z.lists(x, y) <==> z.is_parent(x, y) by {
                    assert(self.lists(x, y) <==> self.is_parent(x, y));
                    assert(self.lists(c, y) <==> self.is_parent(c, y));
                    assert(self.lists(root, y) <==> self.is_parent(root, y));
                    if z.has(y) {
                        assert(self.has(y));
                    }
                    if x == root {
                        lemma_concat_contains(rk, kids, y);
                    }
                }
                assert forall|y: TaskId| #[trigger] z.has(y) && z.procs[y].parent is Some implies z.has(
                    z.procs[y].parent->0,
                ) by {
                    assert(self.has(y));
                }
                assert forall|x: TaskId| #[trigger] z.has(x) implies z.procs[x].children.no_duplicates() by {
                    assert(self.has(x));
                    if x == root {
                        assert forall|y: TaskId| !(rk.contains(y) && kids.contains(y)) by {
                            assert(self.lists(c, y) <==> self.is_parent(c, y));
                            assert(self.lists(root, y) <==> self.is_parent(root, y));
                        }
                        lemma_concat_no_duplicates(rk, kids);
                    }
                }
                assert forall|x: TaskId|
                    #[trigger] z.has(x) && z.procs[x].state == TaskState::Zombie && x != TaskId(1)
                    implies z.procs[x].children.len() == 0 by {
                    assert(self.has(x));
                }
                assert forall|x: TaskId| #[trigger] z.has(x) implies z.procs[x].parent != Some(x) by {
                    assert(self.has(x));
                }
            }
        }
    }

    /// Waking a waiting parent while nobody runs keeps what holds then.
    pub proof fn lemma_notified_parked(self, parent: Option<TaskId>)
        requires
            self.parked(),
        ensures
            self.notified(parent).parked(),
    {
        if parent is Some && self.has(parent->0)
            && self.procs[parent->0].wait_children_exit.waiting {
            let p = parent->0;
            let m = TaskManagerView {
                procs: self.procs.insert(
                    p,
                    ProcessView {
                        wait_children_exit: WaitCurrent { waiting: false },
                        ..self.procs[p]
                    },
                ),
                ..self
            };
            assert(self.has(TaskId(0)) && self.procs[p].id == p) by {
                reveal(TaskManagerView::ids_wf);
            }
            assert(self.procs.dom() =~= m.procs.dom());
            assert(self.same_ids(m));
            self.lemma_ids_frame(m);
            assert(self.same_tree(m));
            self.lemma_tree_frame(m);
            assert(self.same_states(m));
            self.lemma_states_frame(m);
            m.lemma_woken(p);
        }
    }

    /// Parking the current task keeps what holds between moves.
    pub proof fn lemma_parked_for_children_wf(self)
        requires
            self.wf(),
        ensures
            self.parked_for_children().wf(),
    {
        let m = self.parked_for_children();
        assert(self.has(TaskId(0)) && self.has(self.current) && self.cur().id == self.current) by {
            reveal(TaskManagerView::ids_wf);
            reveal(TaskManagerView::states_wf);
        }
        assert(self.procs.dom() =~= m.procs.dom());
        assert(self.same_ids(m));
        self.lemma_ids_frame(m);
        assert(self.same_tree(m));
        self.lemma_tree_frame(m);
        assert(self.same_states(m));
        self.lemma_states_frame(m);
    }

    /// Collecting a zombie that has a parent keeps what holds between
    /// moves, and afterwards nothing refers to the zombie: it is not
    /// registered, not ready, not running, and no task lists it.
    pub proof fn lemma_reaped_wf(self, child: TaskId)
        requires
            self.wf(),
            self.has(child),
            self.procs[child].state == TaskState::Zombie,
            self.procs[child].parent is Some,
        ensures
            self.reaped(child).wf(),
            !self.reaped(child).has(child),
            !self.reaped(child).ready.contains(child),
            self.reaped(child).current != child,
            forall|p: TaskId| !self.reaped(child).lists(p, child),
    {
        let r = self.reaped(child);
        let p = self.procs[child].parent->0;
        let kids = self.procs[p].children;
        let k = kids.index_of(child);
        assert(self.has(p) && kids.contains(child) && p != child && child != TaskId(0) && child
            != TaskId(1) && self.procs[child].children.len() == 0 && kids.no_duplicates()
            && self.has(TaskId(0)) && p != TaskId(0)) by {
            reveal(TaskManagerView::tree_wf);
            reveal(TaskManagerView::ids_wf);
            assert(self.lists(p, child) <==> self.is_parent(p, child));
        }
        assert(0 <= k < kids.len() && kids[k] == child);
        assert(self.procs[p].id == p) by {
            reveal(TaskManagerView::ids_wf);
        }
        assert(forall|id: TaskId| r.has(id) <==> (self.has(id) && id != child));
        assert(r.ids_wf()) by {
            reveal(TaskManagerView::ids_wf);
            assert forall|id: TaskId| #[trigger] r.has(id) implies r.procs[id].id == id && id.0
                < r.next_pid by {
                assert(self.has(id));
            }
        }
        assert(r.states_wf() && r.current != child) by {
            reveal(TaskManagerView::states_wf);
            assert forall|id: TaskId| #[trigger] r.has(id) implies (r.procs[id].state
                == TaskState::Running <==> id == r.current) by {
                assert(self.has(id));
            }
            assert(self.has(child));
        }
        assert(r.ready_wf() && !r.ready.contains(child)) by {
            reveal(TaskManagerView::ready_wf);
            assert forall|id: TaskId| #[trigger] r.ready.contains(id) <==> r.has(id)
                && r.procs[id].state == TaskState::Ready && id != TaskId(0) by {
                assert(self.ready.contains(id) <==> self.has(id) && self.procs[id].state
                    == TaskState::Ready && id != TaskId(0));
            }
        }
        assert(r.tree_wf() && forall|x: TaskId| !r.lists(x, child)) by {
            reveal(TaskManagerView::tree_wf);
            assert forall|x: TaskId, y: TaskId|
                #![trigger r.lists(x, y)]
                #![trigger r.is_parent(x, y)]
                (r.lists(x, y) <==> r.is_parent(x, y)) && !r.lists(x, child) by {
                assert(self.lists(x, y) <==> self.is_parent(x, y));
                assert(self.lists(x, child) <==> self.is_parent(x, child));
                assert(self.lists(child, y) <==> self.is_parent(child, y));
                if x == p {
                    lemma_remove_contains(kids, k, y);
                    lemma_remove_contains(kids, k, child);
                }
            }
            assert forall|y: TaskId| #[trigger] r.has(y) && r.procs[y].parent is Some implies r.has(
                r.procs[y].parent->0,
            ) by {
                assert(self.has(y));
                assert(self.lists(child, y) <==> self.is_parent(child, y));
            }
            assert forall|x: TaskId| #[trigger] r.has(x) implies r.procs[x].children.no_duplicates() by {
                assert(self.has(x));
                if x == p {
                    lemma_remove_contains(kids, k, child);
                }
            }
            assert forall|x: TaskId|
                #[trigger] r.has(x) && r.procs[x].state == TaskState::Zombie && x != TaskId(1)
                implies r.procs[x].children.len() == 0 by {
                assert(self.has(x));
            }
            assert forall|x: TaskId| #[trigger] r.has(x) implies r.procs[x].parent != Some(x) by {
                assert(self.has(x));
            }
        }
    }

    /// Whether the number `id` is what a caller of `waitpid` asked for
    /// with `pid`: -1 asks for any child, another value for the child with
    /// exactly that number.
    pub open spec fn pid_matches(pid: isize, id: TaskId) -> bool {
        pid == -1 || id.0 == pid as usize
    }

    /// The current task has a `k`-th child, and `pid` asks for it.
    pub open spec fn matching_child_at(self, pid: isize, k: int) -> bool {
        0 <= k < self.cur().children.len() && Self::pid_matches(pid, self.cur().children[k])
    }

    /// The current task has a `k`-th child, `pid` asks for it, and it is
    /// a zombie.
    pub open spec fn zombie_child_at(self, pid: isize, k: int) -> bool {
        self.matching_child_at(pid, k) && self.procs[self.cur().children[k]].state
            == TaskState::Zombie
    }

    /// Whether the current task has a child that `pid` asks for.
    pub open spec fn has_matching_child(self, pid: isize) -> bool {
        exists|k: int| #[trigger] self.matching_child_at(pid, k)
    }

    /// Whether the current task has a zombie child that `pid` asks for.
    pub open spec fn has_zombie_child(self, pid: isize) -> bool {
        exists|k: int| #[trigger] self.zombie_child_at(pid, k)
    }

    /// Where among the children of the current task the first zombie
    /// stands that `pid` asks for.
    pub open spec fn first_zombie_index(self, pid: isize) -> int {
        choose|k: int|
            #[trigger] self.zombie_child_at(pid, k) && forall|j: int|
                0 <= j < k ==> !self.zombie_child_at(pid, j)
    }

    /// The first zombie among the children of the current task that `pid`
    /// asks for.
    pub open spec fn first_zombie_child(self, pid: isize) -> TaskId {
        self.cur().children[self.first_zombie_index(pid)]
    }

    /// The manager after the current task has called `waitpid`: as before
    /// when `pid` asks for no child of it; without the first zombie that
    /// `pid` asks for, when there is one; otherwise with the current task
    /// waiting.
    pub open spec fn after_waitpid(self, pid: isize) -> Self {
        if !self.has_matching_child(pid) {
            self
        } else if self.has_zombie_child(pid) {
            self.reaped(self.first_zombie_child(pid))
        } else {
            self.blocked()
        }
    }

    /// What `waitpid` answers the current task.
    pub open spec fn waitpid_result(self, pid: isize) -> WaitStatus {
        if !self.has_matching_child(pid) {
            WaitStatus::NoChild
        } else if self.has_zombie_child(pid) {
            WaitStatus::Exited(
                self.first_zombie_child(pid),
                self.procs[self.first_zombie_child(pid)].exit_code,
            )
        } else {
            WaitStatus::Blocked(
                Switch { from: self.current, to: self.parked_for_children().asleep().next_task() },
            )
        }
    }
}

/// What `waitpid` answers.
#[derive(Clone, Copy, Debug, PartialEq, Eq, Structural)]
pub enum WaitStatus {
    /// The caller has no child that was asked for.
    NoChild,
    /// This child had exited with this code, and was collected.
    Exited(TaskId, i32),
    /// None of the children that were asked for has exited yet. The caller
    /// sleeps until one does; the hart goes to another task.
    Blocked(Switch),
}

/// What follows from the exit of a task.
#[derive(Clone, Copy, Debug, PartialEq, Eq, Structural)]
pub struct ExitAction {
    /// The address space to release, by its root: that of the task, when
    /// no other task refers to it.
    pub release: Option<PhysAddr>,
    /// The task that takes over.
    pub switch: Switch,
}

/// Tasks that keep their numbers and places, and are what `m` says of
/// their numbers, are `m` taken by numbers.
pub proof fn lemma_pointwise(t0: Seq<Process>, t1: Seq<Process>, m: Map<TaskId, ProcessView>)
    requires
        distinct_ids(t0),
        t0.len() == t1.len(),
        forall|k: int| 0 <= k < t0.len() ==> (#[trigger] t1[k]).id == t0[k].id,
        forall|k: int| 0 <= k < t0.len() ==> (#[trigger] t1[k])@ == m[t0[k].id],
        m.dom() == procs_of(t0).dom(),
    ensures
        distinct_ids(t1),
        procs_of(t1) =~= m,
{
    assert forall|a: int, b: int| 0 <= a < b < t1.len() implies (#[trigger] t1[a]).id != (
    #[trigger] t1[b]).id by {
        assert(t0[a].id != t0[b].id);
    }
    assert forall|id: TaskId| has_id(t1, id) <==> has_id(t0, id) by {
        if has_id(t1, id) {
            let k = index_of(t1, id);
            assert(t0[k].id == id);
        }
        if has_id(t0, id) {
            let k = index_of(t0, id);
            assert(t1[k].id == id);
        }
    }
    assert forall|id: TaskId| has_id(t1, id) implies procs_of(t1)[id] == m[id] by {
        let k = index_of(t1, id);
        lemma_lookup(t1, k);
    }
}

impl TaskManager {
    /// The address space that is released when the task at `ci`, the
    /// current one, exits.
    fn released_by(&self, ci: usize) -> (r: Option<PhysAddr>)
        requires
            distinct_ids(self.tasks@),
            ci < self.tasks.len(),
            self.tasks[ci as int].id == self.current,
        ensures
            r == self@.released_on_exit(),
    {
        proof {
            lemma_lookup(self.tasks@, ci as int);
        }
        match self.tasks[ci].vm {
            None => None,
            Some(root) => {
                let mut i: usize = 0;
                while i < self.tasks.len()
                    invariant
                        i <= self.tasks.len(),
                        ci < self.tasks.len(),
                        distinct_ids(self.tasks@),
                        self.tasks[ci as int].id == self.current,
                        self.tasks[ci as int].vm == Some(root),
                        forall|k: int|
                            0 <= k < i && k != ci ==> (#[trigger] self.tasks[k]).vm != Some(root),
                    decreases self.tasks.len() - i,
                {
                    if i != ci {
                        let shared = match self.tasks[i].vm {
                            Some(other) => other.0 == root.0,
                            None => false,
                        };
                        if shared {
                            proof {
                                lemma_lookup(self.tasks@, i as int);
                                let other = self.tasks[i as int].id;
                                assert(self@.has(other));
                                if i < ci {
                                    assert(self.tasks[i as int].id != self.tasks[ci as int].id);
                                } else {
                                    assert(self.tasks[ci as int].id != self.tasks[i as int].id);
                                }
                                assert(other != self.current);
                                assert(self@.procs[other].vm == self@.procs[self.current].vm);
                            }
                            return None;
                        }
                    }
                    i = i + 1;
                }
                proof {
                    assert forall|other: TaskId|
                        #[trigger] self@.has(other) && other != self.current implies self@.procs[other].vm
                        != self@.procs[self.current].vm by {
                        let k = index_of(self.tasks@, other);
                        lemma_lookup(self.tasks@, k);
                    }
                }
                Some(root)
            },
        }
    }

    /// Whether the task at `ci`, the current one, alone refers to its
    /// address space.
    pub fn is_sole_owner(&self, ci: usize) -> (r: bool)
        requires
            distinct_ids(self.tasks@),
            ci < self.tasks.len(),
            self.tasks[ci as int].id == self.current,
        ensures
            r == self@.sole_owner(self.current),
    {
        proof {
            lemma_lookup(self.tasks@, ci as int);
        }
        self.released_by(ci).is_some()
    }

    /// Takes the task `parent` off its wait for a child and wakes it, if
    /// it waits.
    fn notify(&mut self, parent: Option<TaskId>)
        requires
            distinct_ids(old(self).tasks@),
        ensures
            distinct_ids(final(self).tasks@),
            final(self)@ == old(self)@.notified(parent),
    {
        match parent {
            Some(p) => {
                match self.find(p) {
                    Some(pi) => {
                        proof {
                            lemma_lookup(self.tasks@, pi as int);
                        }
                        if self.tasks[pi].wait_children_exit.waiting {
                            let ghost t0 = self.tasks@;
                            self.tasks[pi].wait_children_exit.waiting = false;
                            proof {
                                assert(self.tasks@ =~= t0.update(pi as int, self.tasks@[pi as int]));
                                lemma_update(t0, pi as int, self.tasks@[pi as int]);
                                assert(self@.procs =~= old(self)@.procs.insert(
                                    p,
                                    ProcessView {
                                        wait_children_exit: WaitCurrent { waiting: false },
                                        ..old(self)@.procs[p]
                                    },
                                ));
                            }
                            self.wake(p);
                        }
                    },
                    None => {},
                }
            },
            None => {},
        }
    }

    /// Every task that names `from` as its parent names the root task
    /// instead.
    fn adopt_children_of(&mut self, from: TaskId)
        ensures
            final(self).tasks@.len() == old(self).tasks@.len(),
            final(self).scheduler == old(self).scheduler,
            final(self).current == old(self).current,
            final(self).next_pid == old(self).next_pid,
            final(self).lock_held == old(self).lock_held,
            forall|k: int|
                0 <= k < old(self).tasks@.len() ==> (#[trigger] final(self).tasks@[k]).id == old(
                    self,
                ).tasks@[k].id,
            forall|k: int|
                0 <= k < old(self).tasks@.len() ==> (#[trigger] final(self).tasks@[k])@ == (if old(
                    self,
                ).tasks@[k].parent == Some(from) {
                    ProcessView { parent: Some(TaskId(1)), ..old(self).tasks@[k]@ }
                } else {
                    old(self).tasks@[k]@
                }),
    {
        let ghost t1 = self.tasks@;
        let n = self.tasks.len();
        let mut i: usize = 0;
        while i < n
            invariant
                n == t1.len(),
                self.tasks@.len() == n,
                i <= n,
                self.scheduler == old(self).scheduler,
                self.current == old(self).current,
                self.next_pid == old(self).next_pid,
                self.lock_held == old(self).lock_held,
                forall|k: int| 0 <= k < n ==> (#[trigger] self.tasks@[k]).id == t1[k].id,
                forall|k: int| i <= k < n ==> self.tasks@[k] == t1[k],
                forall|k: int|
                    0 <= k < i ==> (#[trigger] self.tasks@[k])@ == (if t1[k].parent == Some(from) {
                        ProcessView { parent: Some(TaskId(1)), ..t1[k]@ }
                    } else {
                        t1[k]@
                    }),
            decreases n - i,
        {
            let is_kid = match self.tasks[i].parent {
                Some(p) => p.0 == from.0,
                None => false,
            };
            if is_kid {
                self.tasks[i].parent = Some(TaskId(1));
            }
            i = i + 1;
        }
    }

    /// The current task, at `ci`, becomes a zombie with `exit_code`, and
    /// the root task adopts its children.
    fn zombify(&mut self, ci: usize, exit_code: i32)
        requires
            old(self).wf(),
            old(self)@.current != TaskId(0),
            ci < old(self).tasks.len(),
            old(self).tasks[ci as int].id == old(self).current,
        ensures
            distinct_ids(final(self).tasks@),
            final(self)@ == old(self)@.zombified(exit_code),
    {
        let from = self.current;
        let ghost v0 = self@;
        let ghost t0 = self.tasks@;
        let ghost z = v0.zombified(exit_code);
        proof {
            lemma_lookup(t0, ci as int);
            assert(t0[ci as int].parent != Some(from)) by {
                reveal(TaskManagerView::tree_wf);
                assert(v0.has(from));
            }
            assert(from.0 != 1 ==> v0.has(TaskId(1))) by {
                reveal(TaskManagerView::ids_wf);
                assert(v0.has(from));
            }
            assert(z.procs.dom() =~= v0.procs.dom());
        }
        self.tasks[ci].set_state(TaskState::Zombie);
        self.tasks[ci].set_exit_code(exit_code);
        if from.0 != 1 {
            match self.find(TaskId(1)) {
                Some(ri) => {
                    proof {
                        lemma_lookup(t0, ri as int);
                        assert(t0[ri as int].parent is None) by {
                            reveal(TaskManagerView::tree_wf);
                        }
                    }
                    let mut kids: Vec<TaskId> = Vec::new();
                    std::mem::swap(&mut kids, &mut self.tasks[ci].children);
                    self.tasks[ri].children.append(&mut kids);
                    let ghost t1 = self.tasks@;
                    self.adopt_children_of(from);
                    proof {
                        assert forall|k: int| 0 <= k < t0.len() implies (#[trigger] self.tasks@[k])@
                            == z.procs[t0[k].id] by {
                            lemma_lookup(t0, k);
                            if k == ci as int {
                                assert(self.tasks@[k]@.children =~= Seq::empty());
                            } else if k == ri as int {
                                assert(self.tasks@[k]@.children =~= t0[ri as int].children@
                                    + t0[ci as int].children@);
                            } else {
                                assert(t1[k] == t0[k]);
                                assert(t0[k].id != from);
                                assert(t0[k].id != TaskId(1));
                            }
                        }
                        lemma_pointwise(t0, self.tasks@, z.procs);
                    }
                },
                None => {
                    proof {
                        let k = index_of(t0, TaskId(1));
                        assert(self.tasks@[k].id == TaskId(1));
                        assert(false);
                    }
                },
            }
        } else {
            proof {
                assert forall|k: int| 0 <= k < t0.len() implies (#[trigger] self.tasks@[k])@
                    == z.procs[t0[k].id] by {
                    lemma_lookup(t0, k);
                }
                lemma_pointwise(t0, self.tasks@, z.procs);
            }
        }
    }

    /// The current task, which is not the idle task, exits with
    /// `exit_code`. It stays registered as a zombie with that code until
    /// its parent collects it; its children become children of the root
    /// task; its parent is woken if it waits for a child; the next task
    /// takes over. The answer names the address space to release, when the
    /// task was the only one to refer to it: the caller releases it while
    /// the zombie is still registered.
    pub fn exit_current(&mut self, exit_code: i32) -> (r: ExitAction)
        requires
            old(self).wf(),
            !old(self).lock_held,
            old(self)@.current != TaskId(0),
        ensures
            final(self).wf(),
            final(self)@ == old(self)@.exited(exit_code),
            r.release == old(self)@.released_on_exit(),
            r.switch == (Switch { from: old(self)@.current, to: final(self)@.current }),
            r.switch.from != r.switch.to,
            final(self).lock_held,
            final(self)@.has(old(self)@.current),
            final(self)@.procs[old(self)@.current].state == TaskState::Zombie,
            final(self)@.procs[old(self)@.current].exit_code == exit_code,
            final(self)@.procs[old(self)@.current].vm == old(self)@.cur().vm,
    {
        let from = self.current;
        proof {
            reveal(TaskManagerView::states_wf);
        }
        let ci = self.current_index();
        let release = self.released_by(ci);
        let parent = self.tasks[ci].parent;
        let ghost v0 = self@;
        let ghost z = v0.zombified(exit_code);
        proof {
            v0.lemma_zombified_parked(exit_code);
            z.lemma_notified_parked(parent);
        }
        self.zombify(ci, exit_code);
        self.notify(parent);
        let ghost mid = self@;
        let to = self.resched();
        proof {
            mid.lemma_rescheduled_wf();
            assert(mid.has(from) && mid.procs[from].state == TaskState::Zombie
                && mid.procs[from].exit_code == exit_code && mid.procs[from].vm
                == v0.procs[from].vm);
            assert(mid.next_task() != from) by {
                reveal(TaskManagerView::ready_wf);
                if mid.ready.len() > 0 {
                    assert(mid.ready.contains(mid.ready[0]));
                }
            }
        }
        ExitAction { release, switch: Switch { from, to } }
    }

    /// Whether the current task, at `ci`, has a child that `pid` asks
    /// for.
    fn any_matching_child(&self, ci: usize, pid: isize) -> (r: bool)
        requires
            ci < self.tasks.len(),
            self.tasks[ci as int]@ == self@.cur(),
        ensures
            r == self@.has_matching_child(pid),
    {
        let mut k: usize = 0;
        while k < self.tasks[ci].children.len()
            invariant
                ci < self.tasks.len(),
                self.tasks[ci as int]@ == self@.cur(),
                k <= self.tasks[ci as int].children.len(),
                forall|j: int| 0 <= j < k ==> !self@.matching_child_at(pid, j),
            decreases self.tasks[ci as int].children.len() - k,
        {
            if pid == -1 || self.tasks[ci].children[k].0 == pid as usize {
                proof {
                    assert(self@.matching_child_at(pid, k as int));
                }
                return true;
            }
            k = k + 1;
        }
        false
    }

    /// The first zombie among the children of the current task, at `ci`,
    /// that `pid` asks for: its place among the children and its place in
    /// the registry.
    fn find_zombie_child(&self, ci: usize, pid: isize) -> (r: Option<(usize, usize)>)
        requires
            self.wf(),
            ci < self.tasks.len(),
            self.tasks[ci as int].id == self.current,
            self.tasks[ci as int]@ == self@.cur(),
        ensures
            r is None ==> !self@.has_zombie_child(pid),
            r matches Some((k, j)) ==> {
                &&& self@.zombie_child_at(pid, k as int)
                &&& forall|i: int| 0 <= i < k ==> !self@.zombie_child_at(pid, i)
                &&& j < self.tasks.len()
                &&& self.tasks[j as int].id == self@.cur().children[k as int]
            },
    {
        let mut k: usize = 0;
        while k < self.tasks[ci].children.len()
            invariant
                self.wf(),
                ci < self.tasks.len(),
                self.tasks[ci as int].id == self.current,
                self.tasks[ci as int]@ == self@.cur(),
                k <= self.tasks[ci as int].children.len(),
                forall|i: int| 0 <= i < k ==> !self@.zombie_child_at(pid, i),
            decreases self.tasks[ci as int].children.len() - k,
        {
            let id = self.tasks[ci].children[k];
            if pid == -1 || id.0 == pid as usize {
                proof {
                    reveal(TaskManagerView::tree_wf);
                    lemma_lookup(self.tasks@, ci as int);
                    assert(self@.cur().children[k as int] == id);
                    assert(self@.lists(self.current, id));
                    assert(self@.is_parent(self.current, id));
                }
                match self.find(id) {
                    Some(j) => {
                        proof {
                            lemma_lookup(self.tasks@, j as int);
                        }
                        if self.tasks[j].state == TaskState::Zombie {
                            return Some((k, j));
                        }
                    },
                    None => {
                        proof {
                            assert(false);
                        }
                    },
                }
            }
            k = k + 1;
        }
        None
    }

    /// The current task asks for the exit code of a child: of any child
    /// when `pid` is -1, else of the child with the number `pid`.
    ///
    /// - When it has no such child, the answer is `NoChild`, and nothing
    ///   changes.
    /// - When such a child is a zombie, the first of them in the order of
    ///   the children is collected: it leaves the children of the current
    ///   task and the registry, where nothing refers to it any more, and
    ///   the answer gives its number and its exit code.
    /// - Otherwise the current task parks and sleeps until a child exits,
    ///   and the answer names the task that takes over. When the current
    ///   task runs again, it asks again.
    pub fn waitpid(&mut self, pid: isize) -> (r: WaitStatus)
        requires
            old(self).wf(),
            !old(self).lock_held,
        ensures
            final(self).wf(),
            final(self)@ == old(self)@.after_waitpid(pid),
            r == old(self)@.waitpid_result(pid),
            final(self).lock_held == (r is Blocked),
            r matches WaitStatus::Exited(child, _) ==> {
                &&& !final(self)@.has(child)
                &&& !final(self)@.ready.contains(child)
                &&& final(self)@.current != child
                &&& forall|p: TaskId| !final(self)@.lists(p, child)
            },
    {
        proof {
            reveal(TaskManagerView::states_wf);
        }
        let ci = self.current_index();
        let ghost v0 = self@;
        let ghost t0 = self.tasks@;
        let cur = self.current;
        proof {
            lemma_lookup(t0, ci as int);
        }
        if !self.any_matching_child(ci, pid) {
            return WaitStatus::NoChild;
        }
        match self.find_zombie_child(ci, pid) {
            Some((k, j)) => {
                let child = self.tasks[j].id;
                let code = self.tasks[j].exit_code;
                proof {
                    lemma_lookup(t0, j as int);
                    let kids = v0.cur().children;
                    assert(v0.zombie_child_at(pid, k as int));
                    let k2 = v0.first_zombie_index(pid);
                    assert(v0.zombie_child_at(pid, k2) && forall|i: int|
                        0 <= i < k2 ==> !v0.zombie_child_at(pid, i));
                    assert(k2 == k as int);
                    assert(v0.lists(cur, child) && v0.is_parent(cur, child) && kids.no_duplicates())
                        by {
                        reveal(TaskManagerView::tree_wf);
                        assert(v0.has(cur));
                    }
                    assert(kids.index_of(child) == k as int);
                    v0.lemma_reaped_wf(child);
                }
                let _ = self.tasks[ci].children.remove(k);
                proof {
                    assert(self.tasks@ =~= t0.update(ci as int, self.tasks@[ci as int]));
                    lemma_update(t0, ci as int, self.tasks@[ci as int]);
                }
                let ghost t1 = self.tasks@;
                let _ = self.tasks.remove(j);
                proof {
                    lemma_remove(t1, j as int);
                    assert(self@.procs =~= v0.reaped(child).procs);
                }
                WaitStatus::Exited(child, code)
            },
            None => {
                proof {
                    assert(cur != TaskId(0)) by {
                        reveal(TaskManagerView::tree_wf);
                        let w = choose|w: int| v0.matching_child_at(pid, w);
                        assert(v0.matching_child_at(pid, w));
                    }
                    v0.lemma_parked_for_children_wf();
                }
                self.tasks[ci].wait_children_exit.waiting = true;
                proof {
                    assert(self.tasks@ =~= t0.update(ci as int, self.tasks@[ci as int]));
                    lemma_update(t0, ci as int, self.tasks@[ci as int]);
                    assert(self@.procs =~= v0.parked_for_children().procs);
                    assert(self@ == v0.parked_for_children());
                }
                let switch = self.sleep_current();
                WaitStatus::Blocked(switch)
            },
        }
    }
}

} // verus!
