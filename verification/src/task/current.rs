//! The task that runs now, and what it may ask of the task manager.

use vstd::prelude::*;
use crate::arch::frame::ProcessTrapFrame;
use crate::mm::VirtAddr;
use crate::task::lifecycle::{ExitAction, WaitStatus};
use crate::task::manager::{lemma_lookup, lemma_update, Switch, TaskManager, TaskManagerView};
use crate::task::structs::{ProcessView, Task, TaskId};

verus! {

/// A point in time, in nanoseconds since the hart started.
pub type TimeValue = u64;

/// What a call of `exec` answers when the program was not found.
pub const EXEC_NOT_FOUND: isize = -1;

/// The task that runs now, by its number. What it asks for is asked of
/// the task manager that it runs under.
#[derive(Clone, Copy, Debug)]
pub struct CurrentTask(pub TaskId);

/// What follows when the current task goes to sleep.
#[derive(Clone, Copy, Debug, PartialEq, Eq, Structural)]
pub struct SleepOrder {
    /// The task to wake,
    pub task: TaskId,
    /// and when.
    pub deadline: TimeValue,
    /// The task that takes over.
    pub switch: Switch,
}

impl TaskManagerView {
    /// The current task with its reschedule flag set to `flag`.
    pub open spec fn with_need_resched(self, flag: bool) -> Self {
        TaskManagerView {
            procs: self.procs.insert(
                self.current,
                ProcessView { need_resched: flag, ..self.cur() },
            ),
            ..self
        }
    }

    /// Whether the current task may replace its program: it is a user
    /// task, and no other task refers to its address space.
    pub open spec fn may_exec(self) -> bool {
        !self.cur().is_kernel && self.sole_owner(self.current)
    }

    /// Setting or clearing the reschedule flag keeps what holds between
    /// moves.
    pub proof fn lemma_with_need_resched_wf(self, flag: bool)
        requires
            self.wf(),
        ensures
            self.with_need_resched(flag).wf(),
    {
        let r = self.with_need_resched(flag);
        assert(self.has(self.current) && self.cur().id == self.current) by {
            reveal(TaskManagerView::ids_wf);
            reveal(TaskManagerView::states_wf);
        }
        assert(self.procs.dom() =~= r.procs.dom());
        self.lemma_frames_wf(r);
    }
}

/// What `exec` leaves in the frame and answers: for a program that was
/// loaded, the frame of its first entry and 0; for one that was not
/// found, the frame as it was and -1.
pub open spec fn spec_exec(
    tf: ProcessTrapFrame,
    loaded: Option<(VirtAddr, VirtAddr)>,
) -> (ProcessTrapFrame, isize) {
    match loaded {
        Some((entry, ustack_top)) => (ProcessTrapFrame::spec_new_user(entry, ustack_top, 0), 0),
        None => (tf, EXEC_NOT_FOUND),
    }
}

impl CurrentTask {
    /// The task that runs now under `manager`.
    pub fn get(manager: &TaskManager) -> (r: Self)
        ensures
            r.0 == manager@.current,
    {
        CurrentTask(manager.current)
    }

    /// Another reference to the task.
    pub fn clone_task(&self) -> (r: TaskId)
        ensures
            r == self.0,
    {
        self.0
    }

    /// The task is no longer asked to give way.
    pub fn clear_need_resched(&self, manager: &mut TaskManager)
        requires
            old(manager).wf(),
            !old(manager).lock_held,
            self.0 == old(manager)@.current,
        ensures
            final(manager).wf(),
            final(manager)@ == old(manager)@.with_need_resched(false),
    {
        proof {
            reveal(TaskManagerView::states_wf);
            manager@.lemma_with_need_resched_wf(false);
        }
        let ci = manager.current_index();
        let ghost t0 = manager.tasks@;
        manager.tasks[ci].clear_need_resched();
        proof {
            lemma_lookup(t0, ci as int);
            assert(manager.tasks@ =~= t0.update(ci as int, manager.tasks@[ci as int]));
            lemma_update(t0, ci as int, manager.tasks@[ci as int]);
            assert(manager@.procs =~= old(manager)@.with_need_resched(false).procs);
        }
    }

    /// The task is asked to give way at the next safe point.
    pub fn set_need_resched(&self, manager: &mut TaskManager)
        requires
            old(manager).wf(),
            !old(manager).lock_held,
            self.0 == old(manager)@.current,
        ensures
            final(manager).wf(),
            final(manager)@ == old(manager)@.with_need_resched(true),
    {
        proof {
            reveal(TaskManagerView::states_wf);
            manager@.lemma_with_need_resched_wf(true);
        }
        let ci = manager.current_index();
        let ghost t0 = manager.tasks@;
        manager.tasks[ci].set_need_resched();
        proof {
            lemma_lookup(t0, ci as int);
            assert(manager.tasks@ =~= t0.update(ci as int, manager.tasks@[ci as int]));
            lemma_update(t0, ci as int, manager.tasks@[ci as int]);
            assert(manager@.procs =~= old(manager)@.with_need_resched(true).procs);
        }
    }

    /// The task gives way to the next ready task and joins the end of the
    /// ready queue. The answer names the switch to carry out, if another
    /// task takes over.
    pub fn yield_now(&self, manager: &mut TaskManager) -> (r: Option<Switch>)
        requires
            old(manager).wf(),
            !old(manager).lock_held,
            self.0 == old(manager)@.current,
        ensures
            final(manager).wf(),
            final(manager)@ == old(manager)@.yielded(),
            r == crate::task::manager::switch_between(self.0, final(manager)@.current),
            final(manager).lock_held == (r is Some),
    {
        manager.yield_current()
    }

    /// The task, which is not the idle task, sleeps until `deadline`. The
    /// answer names the task to wake then and the task that takes over.
    pub fn sleep(&self, manager: &mut TaskManager, deadline: TimeValue) -> (r: SleepOrder)
        requires
            old(manager).wf(),
            !old(manager).lock_held,
            self.0 == old(manager)@.current,
            self.0 != TaskId(0),
        ensures
            final(manager).wf(),
            final(manager)@ == old(manager)@.slept(),
            r == (SleepOrder {
                task: self.0,
                deadline,
                switch: Switch { from: self.0, to: final(manager)@.current },
            }),
            r.switch.from != r.switch.to,
            final(manager).lock_held,
    {
        let switch = manager.sleep_current();
        SleepOrder { task: self.0, deadline, switch }
    }

    /// The task, which is not the idle task, exits with `exit_code`. Its
    /// address space is to be released when no other task refers to it,
    /// and that while the task is still registered: it stays a zombie
    /// with its exit code until its parent collects it.
    pub fn exit(&self, manager: &mut TaskManager, exit_code: i32) -> (r: ExitAction)
        requires
            old(manager).wf(),
            !old(manager).lock_held,
            self.0 == old(manager)@.current,
            self.0 != TaskId(0),
        ensures
            final(manager).wf(),
            final(manager)@ == old(manager)@.exited(exit_code),
            r.release == old(manager)@.released_on_exit(),
            old(manager)@.sole_owner(self.0) ==> r.release == old(manager)@.cur().vm,
            r.switch == (Switch { from: self.0, to: final(manager)@.current }),
            r.switch.from != r.switch.to,
            final(manager).lock_held,
            final(manager)@.has(self.0),
            final(manager)@.procs[self.0].state == crate::task::structs::TaskState::Zombie,
            final(manager)@.procs[self.0].exit_code == exit_code,
            final(manager)@.procs[self.0].vm == old(manager)@.cur().vm,
    {
        manager.exit_current(exit_code)
    }

    /// Whether the task may replace its program: it is a user task, and
    /// no other task refers to its address space.
    pub fn may_exec(&self, manager: &TaskManager) -> (r: bool)
        requires
            manager.wf(),
            self.0 == manager@.current,
        ensures
            r == manager@.may_exec(),
    {
        proof {
            reveal(TaskManagerView::states_wf);
        }
        let ci = manager.current_index();
        if manager.tasks[ci].is_kernel_task() {
            false
        } else {
            manager.is_sole_owner(ci)
        }
    }

    /// The task, a user task to whose address space no other task refers,
    /// replaces its program. `loaded` tells how loading the new program
    /// into the address space went: its entry point and the top of its
    /// stack, or nothing when the program was not found.
    ///
    /// For a loaded program the frame becomes that of its first entry and
    /// the answer is 0. For one that was not found the answer is -1, and
    /// neither the frame nor any task has changed.
    pub fn exec(
        &self,
        manager: &TaskManager,
        loaded: Option<(VirtAddr, VirtAddr)>,
        tf: &mut ProcessTrapFrame,
    ) -> (r: isize)
        requires
            manager.wf(),
            self.0 == manager@.current,
            manager@.may_exec(),
        ensures
            (*final(tf), r) == spec_exec(*old(tf), loaded),
            loaded is None ==> r < 0 && *final(tf) == *old(tf),
            loaded is Some ==> r == 0,
    {
        match loaded {
            Some((entry, ustack_top)) => {
                *tf = ProcessTrapFrame::new_user(entry, ustack_top, 0);
                0
            },
            None => EXEC_NOT_FOUND,
        }
    }

    /// The task asks for the exit code of a child: of any child when
    /// `pid` is -1, else of the child with the number `pid`. See
    /// `TaskManager::waitpid`.
    pub fn waitpid(&self, manager: &mut TaskManager, pid: isize, _options: u32) -> (r: WaitStatus)
        requires
            old(manager).wf(),
            !old(manager).lock_held,
            self.0 == old(manager)@.current,
        ensures
            final(manager).wf(),
            final(manager)@ == old(manager)@.after_waitpid(pid),
            r == old(manager)@.waitpid_result(pid),
            final(manager).lock_held == (r is Blocked),
            r matches WaitStatus::Exited(child, _) ==> {
                &&& !final(manager)@.has(child)
                &&& !final(manager)@.ready.contains(child)
                &&& final(manager)@.current != child
                &&& forall|p: TaskId| !final(manager)@.lists(p, child)
            },
    {
        manager.waitpid(pid)
    }
}

} // verus!
