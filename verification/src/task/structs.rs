//! Tasks: their identity, their state, and the process as the one kind of
//! task that is worked out.

use vstd::prelude::*;
use crate::arch::context::{Context, ProcessContext};
use crate::arch::frame::{ProcessTrapFrame, UserEntry, PROCESS_TRAP_FRAME_SIZE};
use crate::config::KERNEL_STACK_SIZE;
use crate::mm::{PhysAddr, VirtAddr};
use crate::task::schedule::SchedulerState;

verus! {

/// The number of a task, for processes and guests alike. 0 is the idle
/// task, 1 the root task.
#[derive(Clone, Copy, Debug, PartialEq, Eq, Structural)]
pub struct TaskId(pub usize);

impl TaskId {
    /// The number of the idle task.
    pub open spec fn spec_idle() -> Self {
        TaskId(0)
    }

    /// The number of the root task.
    pub open spec fn spec_root() -> Self {
        TaskId(1)
    }

    /// Takes the next number from the counter `next_pid`, which never
    /// hands out a number twice.
    pub fn allocate(next_pid: &mut usize) -> (r: Self)
        requires
            *old(next_pid) < usize::MAX,
        ensures
            r.0 == *old(next_pid),
            *final(next_pid) == *old(next_pid) + 1,
    {
        let id = *next_pid;
        *next_pid = id + 1;
        TaskId(id)
    }

    pub fn as_usize(&self) -> (r: usize)
        ensures
            r == self.0,
    {
        self.0
    }
}

impl From<usize> for TaskId {
    fn from(pid: usize) -> (r: Self) {
        TaskId(pid)
    }
}

impl vstd::std_specs::convert::FromSpecImpl<usize> for TaskId {
    open spec fn obeys_from_spec() -> bool {
        true
    }

    open spec fn from_spec(pid: usize) -> Self {
        TaskId(pid)
    }
}

/// The state of a task, for processes and guests alike. A zombie has
/// exited and waits for its parent to collect its exit code.
#[derive(Clone, Copy, Debug, PartialEq, Eq, Structural)]
pub enum TaskState {
    Ready,
    Running,
    Sleeping,
    Zombie,
}

impl TaskState {
    /// The number that stands for a state.
    pub open spec fn spec_as_u8(self) -> u8 {
        match self {
            TaskState::Ready => 1,
            TaskState::Running => 2,
            TaskState::Sleeping => 3,
            TaskState::Zombie => 4,
        }
    }

    /// The number that stands for a state.
    pub fn as_u8(self) -> (r: u8)
        ensures
            r == self.spec_as_u8(),
            1 <= r <= 4,
    {
        match self {
            TaskState::Ready => 1,
            TaskState::Running => 2,
            TaskState::Sleeping => 3,
            TaskState::Zombie => 4,
        }
    }

    /// The state that a number from 1 to 4 stands for.
    pub fn from(state: u8) -> (r: Self)
        requires
            1 <= state <= 4,
        ensures
            r.spec_as_u8() == state,
    {
        if state == 1 {
            TaskState::Ready
        } else if state == 2 {
            TaskState::Running
        } else if state == 3 {
            TaskState::Sleeping
        } else {
            TaskState::Zombie
        }
    }
}

/// Where a task starts when it first runs.
#[derive(Debug)]
pub enum EntryState {
    /// In the kernel, at the function at `pc`, which is handed `arg`.
    Kernel { pc: usize, arg: usize },
    /// In user mode, through this frame.
    User(Box<ProcessTrapFrame>),
}

/// What a kernel stack is to the contracts: its bytes and the address
/// just above them.
pub struct StackView {
    pub bytes: Seq<u8>,
    pub top: VirtAddr,
}

/// The kernel stack of a task. It belongs to its task alone.
#[derive(Debug)]
pub struct Stack {
    mem: Vec<u8>,
    top: VirtAddr,
}

/// The address just above the last byte of `mem`, from
/// `<[u8]>::as_ptr_range`. Nothing is claimed of it: where the bytes lie
/// is for the allocator to decide.
#[verifier::external_body]
fn end_addr(mem: &Vec<u8>) -> (r: usize) {
    mem.as_ptr_range().end as usize
}

impl View for Stack {
    type V = StackView;

    closed spec fn view(&self) -> StackView {
        StackView { bytes: self.mem@, top: self.top }
    }
}

impl Stack {
    /// A fresh stack of `KERNEL_STACK_SIZE` zero bytes.
    pub fn default() -> (r: Self)
        ensures
            r@.bytes == Seq::new(KERNEL_STACK_SIZE as nat, |i: int| 0u8),
    {
        let mem = vec![0u8; KERNEL_STACK_SIZE];
        let top = VirtAddr::new(end_addr(&mem));
        assert(mem@ =~= Seq::new(KERNEL_STACK_SIZE as nat, |i: int| 0u8));
        Stack { mem, top }
    }

    /// The address just above the stack, where it is empty.
    pub fn top(&self) -> (r: VirtAddr)
        ensures
            r == self@.top,
    {
        self.top
    }
}

/// Where a task parks while it waits for one of its children to exit.
#[derive(Clone, Copy, Debug, PartialEq, Eq, Structural)]
pub struct WaitCurrent {
    /// Whether the task is parked here.
    pub waiting: bool,
}

impl WaitCurrent {
    pub fn new() -> (r: Self)
        ensures
            !r.waiting,
    {
        WaitCurrent { waiting: false }
    }
}

/// What a process is to the contracts.
pub struct ProcessView {
    pub id: TaskId,
    pub is_kernel: bool,
    pub is_shared: bool,
    pub entry: EntryState,
    pub state: TaskState,
    pub exit_code: i32,
    pub need_resched: bool,
    pub sched_state: SchedulerState,
    pub kstack: StackView,
    pub ctx: ProcessContext,
    pub wait_children_exit: WaitCurrent,
    /// The root of the address space that the process refers to. Two
    /// processes share an address space when they hold the same root.
    pub vm: Option<PhysAddr>,
    pub parent: Option<TaskId>,
    pub children: Seq<TaskId>,
}

/// A process: a task that runs a kernel function or a user program in an
/// address space.
#[derive(Debug)]
pub struct Process {
    pub id: TaskId,
    pub is_kernel: bool,
    pub is_shared: bool,
    pub entry: EntryState,
    pub state: TaskState,
    pub exit_code: i32,
    pub need_resched: bool,
    pub sched_state: SchedulerState,
    pub kstack: Stack,
    pub ctx: ProcessContext,
    pub wait_children_exit: WaitCurrent,
    /// The root of the address space that the process refers to, if it has
    /// one. The clones of a process hold the same root as the process.
    pub vm: Option<PhysAddr>,
    /// The parent, by its number: it does not keep the parent alive.
    pub parent: Option<TaskId>,
    /// The children, in the order in which they were added. A child stays
    /// registered until its parent has collected its exit code.
    pub children: Vec<TaskId>,
}

impl View for Process {
    type V = ProcessView;

    open spec fn view(&self) -> ProcessView {
        ProcessView {
            id: self.id,
            is_kernel: self.is_kernel,
            is_shared: self.is_shared,
            entry: self.entry,
            state: self.state,
            exit_code: self.exit_code,
            need_resched: self.need_resched,
            sched_state: self.sched_state,
            kstack: self.kstack@,
            ctx: self.ctx,
            wait_children_exit: self.wait_children_exit,
            vm: self.vm,
            parent: self.parent,
            children: self.children@,
        }
    }
}

impl ProcessView {
    /// A process as `new_common` makes it, on the stack `kstack`.
    pub open spec fn common(id: TaskId, kstack: StackView) -> Self {
        ProcessView {
            id,
            is_kernel: false,
            is_shared: false,
            entry: EntryState::Kernel { pc: 0, arg: 0 },
            state: TaskState::Ready,
            exit_code: 0,
            need_resched: false,
            sched_state: SchedulerState::full(),
            kstack,
            ctx: ProcessContext::zeroed(),
            wait_children_exit: WaitCurrent { waiting: false },
            vm: None,
            parent: None,
            children: Seq::empty(),
        }
    }

    /// The context of a task that starts at `entry` on this stack, in the
    /// address space rooted at `root`.
    pub open spec fn started_ctx(self, entry: usize, root: PhysAddr) -> ProcessContext {
        ProcessContext { sp: self.kstack.top.0, ra: entry, satp: root.0, ..self.ctx }
    }

    /// The idle task as `new_idle` makes it.
    pub open spec fn idle(kstack: StackView) -> Self {
        ProcessView { is_kernel: true, ..Self::common(TaskId(0), kstack) }
    }

    /// A kernel task as `new_kernel` makes it.
    pub open spec fn kernel(
        id: TaskId,
        kstack: StackView,
        entry: usize,
        arg: usize,
        trampoline: usize,
        kernel_root: PhysAddr,
    ) -> Self {
        let c = Self::common(id, kstack);
        ProcessView {
            is_kernel: true,
            entry: EntryState::Kernel { pc: entry, arg },
            ctx: c.started_ctx(trampoline, kernel_root),
            ..c
        }
    }

    /// A user task as `new_user` makes it.
    pub open spec fn user(
        id: TaskId,
        kstack: StackView,
        entry: VirtAddr,
        ustack_top: VirtAddr,
        root: PhysAddr,
        trampoline: usize,
    ) -> Self {
        let c = Self::common(id, kstack);
        ProcessView {
            entry: EntryState::User(
                Box::new(ProcessTrapFrame::spec_new_user(entry, ustack_top, 0)),
            ),
            ctx: c.started_ctx(trampoline, root),
            vm: Some(root),
            ..c
        }
    }

    /// The clone that `new_clone` makes of this process.
    pub open spec fn cloned(
        self,
        id: TaskId,
        kstack: StackView,
        newsp: usize,
        tf: ProcessTrapFrame,
        trampoline: usize,
    ) -> Self {
        let c = Self::common(id, kstack);
        ProcessView {
            is_shared: true,
            entry: EntryState::User(Box::new(tf.spec_new_clone(VirtAddr(newsp)))),
            ctx: c.started_ctx(trampoline, self.vm->0),
            vm: self.vm,
            ..c
        }
    }

    /// The fork that `new_fork` makes of this process, in the copy of its
    /// address space that is rooted at `root`.
    pub open spec fn forked(
        self,
        id: TaskId,
        kstack: StackView,
        tf: ProcessTrapFrame,
        root: PhysAddr,
        trampoline: usize,
    ) -> Self {
        let c = Self::common(id, kstack);
        ProcessView {
            entry: EntryState::User(Box::new(tf.spec_new_fork())),
            ctx: c.started_ctx(trampoline, root),
            vm: Some(root),
            ..c
        }
    }
}

/// What the task manager and the scheduler ask of any task.
pub trait Task: Sized {
    spec fn spec_id(&self) -> TaskId;

    spec fn spec_state(&self) -> TaskState;

    spec fn spec_exit_code(&self) -> i32;

    spec fn spec_need_resched(&self) -> bool;

    spec fn spec_sched_state(&self) -> SchedulerState;

    spec fn spec_context(&self) -> ProcessContext;

    spec fn spec_is_process(&self) -> bool;

    /// A task with the number `id` and nothing else set: ready, with exit
    /// code 0, not asked to give way, with a full time slice.
    fn new_common(id: TaskId) -> (r: Self)
        ensures
            r.spec_id() == id,
            r.spec_state() == TaskState::Ready,
            r.spec_exit_code() == 0,
            !r.spec_need_resched(),
            r.spec_sched_state() == SchedulerState::full(),
    ;

    fn id(&self) -> (r: TaskId)
        ensures
            r == self.spec_id(),
    ;

    fn context(&self) -> (r: &ProcessContext)
        ensures
            *r == self.spec_context(),
    ;

    fn state(&self) -> (r: TaskState)
        ensures
            r == self.spec_state(),
    ;

    fn set_state(&mut self, state: TaskState)
        ensures
            final(self).spec_state() == state,
            final(self).spec_id() == old(self).spec_id(),
            final(self).spec_exit_code() == old(self).spec_exit_code(),
            final(self).spec_need_resched() == old(self).spec_need_resched(),
            final(self).spec_sched_state() == old(self).spec_sched_state(),
            final(self).spec_context() == old(self).spec_context(),
    ;

    fn exit_code(&self) -> (r: i32)
        ensures
            r == self.spec_exit_code(),
    ;

    fn set_exit_code(&mut self, exit_code: i32)
        ensures
            final(self).spec_exit_code() == exit_code,
            final(self).spec_id() == old(self).spec_id(),
            final(self).spec_state() == old(self).spec_state(),
            final(self).spec_need_resched() == old(self).spec_need_resched(),
            final(self).spec_sched_state() == old(self).spec_sched_state(),
            final(self).spec_context() == old(self).spec_context(),
    ;

    fn need_resched(&self) -> (r: bool)
        ensures
            r == self.spec_need_resched(),
    ;

    fn clear_need_resched(&mut self)
        ensures
            !final(self).spec_need_resched(),
            final(self).spec_id() == old(self).spec_id(),
            final(self).spec_state() == old(self).spec_state(),
            final(self).spec_exit_code() == old(self).spec_exit_code(),
            final(self).spec_sched_state() == old(self).spec_sched_state(),
            final(self).spec_context() == old(self).spec_context(),
    ;

    fn set_need_resched(&mut self)
        ensures
            final(self).spec_need_resched(),
            final(self).spec_id() == old(self).spec_id(),
            final(self).spec_state() == old(self).spec_state(),
            final(self).spec_exit_code() == old(self).spec_exit_code(),
            final(self).spec_sched_state() == old(self).spec_sched_state(),
            final(self).spec_context() == old(self).spec_context(),
    ;

    fn sched_state(&self) -> (r: &SchedulerState)
        ensures
            *r == self.spec_sched_state(),
    ;

    fn is_process(&self) -> (r: bool)
        ensures
            r == self.spec_is_process(),
    ;

    fn is_guest(&self) -> (r: bool)
        ensures
            r == !self.spec_is_process(),
    ;
}

impl Task for Process {
    open spec fn spec_id(&self) -> TaskId {
        self.id
    }

    open spec fn spec_state(&self) -> TaskState {
        self.state
    }

    open spec fn spec_exit_code(&self) -> i32 {
        self.exit_code
    }

    open spec fn spec_need_resched(&self) -> bool {
        self.need_resched
    }

    open spec fn spec_sched_state(&self) -> SchedulerState {
        self.sched_state
    }

    open spec fn spec_context(&self) -> ProcessContext {
        self.ctx
    }

    open spec fn spec_is_process(&self) -> bool {
        true
    }

    fn new_common(id: TaskId) -> (r: Self)
        ensures
            r@ == ProcessView::common(id, r@.kstack),
            r@.kstack.bytes == Seq::new(KERNEL_STACK_SIZE as nat, |i: int| 0u8),
    {
        Process {
            id,
            is_kernel: false,
            is_shared: false,
            entry: EntryState::Kernel { pc: 0, arg: 0 },
            state: TaskState::Ready,
            exit_code: 0,
            need_resched: false,
            sched_state: SchedulerState::default(),
            kstack: Stack::default(),
            ctx: ProcessContext::default(),
            wait_children_exit: WaitCurrent::new(),
            vm: None,
            parent: None,
            children: Vec::new(),
        }
    }

    fn id(&self) -> (r: TaskId) {
        self.id
    }

    fn context(&self) -> (r: &ProcessContext) {
        &self.ctx
    }

    fn state(&self) -> (r: TaskState) {
        self.state
    }

    fn set_state(&mut self, state: TaskState)
        ensures
            final(self)@ == (ProcessView { state, ..old(self)@ }),
    {
        self.state = state;
    }

    fn exit_code(&self) -> (r: i32) {
        self.exit_code
    }

    fn set_exit_code(&mut self, exit_code: i32)
        ensures
            final(self)@ == (ProcessView { exit_code, ..old(self)@ }),
    {
        self.exit_code = exit_code;
    }

    fn need_resched(&self) -> (r: bool) {
        self.need_resched
    }

    fn clear_need_resched(&mut self)
        ensures
            final(self)@ == (ProcessView { need_resched: false, ..old(self)@ }),
    {
        self.need_resched = false;
    }

    fn set_need_resched(&mut self)
        ensures
            final(self)@ == (ProcessView { need_resched: true, ..old(self)@ }),
    {
        self.need_resched = true;
    }

    fn sched_state(&self) -> (r: &SchedulerState) {
        &self.sched_state
    }

    fn is_process(&self) -> (r: bool) {
        true
    }

    fn is_guest(&self) -> (r: bool) {
        false
    }
}

impl Process {
    /// Makes `child` a child of this process: the child names it as its
    /// parent, and it lists the child after the children it has.
    pub fn add_child(&mut self, child: &mut Process)
        ensures
            final(self)@ == (ProcessView {
                children: old(self)@.children.push(old(child)@.id),
                ..old(self)@
            }),
            final(child)@ == (ProcessView { parent: Some(old(self)@.id), ..old(child)@ }),
    {
        child.parent = Some(self.id);
        self.children.push(child.id);
    }

    /// The idle task: the kernel task with number 0.
    pub fn new_idle() -> (r: Self)
        ensures
            r@ == ProcessView::idle(r@.kstack),
            r@.id == TaskId::spec_idle(),
    {
        let mut t = Self::new_common(TaskId(0));
        t.is_kernel = true;
        t
    }

    /// Makes the idle task the one that runs now, on its own kernel stack
    /// in the kernel's address space.
    pub fn init_idle(&mut self, kernel_root: PhysAddr)
        ensures
            final(self)@ == (ProcessView {
                state: TaskState::Running,
                ctx: old(self)@.started_ctx(0, kernel_root),
                ..old(self)@
            }),
    {
        self.set_state(TaskState::Running);
        let top = self.kstack.top();
        self.ctx.init(0, top, kernel_root, true);
    }

    /// A kernel task with the number `id`, which starts at `trampoline`
    /// and from there runs the function at `entry` on `arg`.
    pub fn new_kernel(
        id: TaskId,
        entry: usize,
        arg: usize,
        trampoline: usize,
        kernel_root: PhysAddr,
    ) -> (r: Self)
        ensures
            r@ == ProcessView::kernel(id, r@.kstack, entry, arg, trampoline, kernel_root),
    {
        let mut t = Self::new_common(id);
        t.is_kernel = true;
        t.entry = EntryState::Kernel { pc: entry, arg };
        let top = t.kstack.top();
        t.ctx.init(trampoline, top, kernel_root, true);
        t
    }

    /// A user task with the number `id` for a program that was loaded
    /// into the address space rooted at `root`, with its entry point at
    /// `entry` and its stack below `ustack_top`.
    pub fn new_user(
        id: TaskId,
        entry: VirtAddr,
        ustack_top: VirtAddr,
        root: PhysAddr,
        trampoline: usize,
    ) -> (r: Self)
        ensures
            r@ == ProcessView::user(id, r@.kstack, entry, ustack_top, root, trampoline),
    {
        let mut t = Self::new_common(id);
        t.entry = EntryState::User(Box::new(ProcessTrapFrame::new_user(entry, ustack_top, 0)));
        let top = t.kstack.top();
        t.ctx.init(trampoline, top, root, false);
        t.vm = Some(root);
        t
    }

    /// A clone of this process with the number `id`: it shares the address
    /// space, runs on the user stack below `newsp`, and resumes from `tf`
    /// with 0 as the result of the call.
    pub fn new_clone(
        &self,
        id: TaskId,
        newsp: usize,
        tf: &ProcessTrapFrame,
        trampoline: usize,
    ) -> (r: Self)
        requires
            !self.is_kernel,
            self.vm is Some,
        ensures
            r@ == self@.cloned(id, r@.kstack, newsp, *tf, trampoline),
    {
        let mut t = Self::new_common(id);
        t.is_shared = true;
        let root = self.vm.unwrap();
        t.entry = EntryState::User(Box::new(tf.new_clone(VirtAddr::new(newsp))));
        let top = t.kstack.top();
        t.ctx.init(trampoline, top, root, false);
        t.vm = Some(root);
        t
    }

    /// A fork of this process with the number `id`: it runs in the copy of
    /// the address space that is rooted at `root`, and resumes from `tf`
    /// with 0 as the result of the call.
    pub fn new_fork(
        &self,
        id: TaskId,
        tf: &ProcessTrapFrame,
        root: PhysAddr,
        trampoline: usize,
    ) -> (r: Self)
        requires
            !self.is_kernel,
            self.vm is Some,
        ensures
            r@ == self@.forked(id, r@.kstack, *tf, root, trampoline),
    {
        let mut t = Self::new_common(id);
        t.entry = EntryState::User(Box::new(tf.new_fork()));
        let top = t.kstack.top();
        t.ctx.init(trampoline, top, root, false);
        t.vm = Some(root);
        t
    }

    pub fn is_kernel_task(&self) -> (r: bool)
        ensures
            r == self.is_kernel,
    {
        self.is_kernel
    }

    pub fn is_root(&self) -> (r: bool)
        ensures
            r == (self.id == TaskId::spec_root()),
    {
        self.id.as_usize() == 1
    }

    pub fn is_idle(&self) -> (r: bool)
        ensures
            r == (self.id == TaskId::spec_idle()),
    {
        self.id.as_usize() == 0
    }

    pub fn is_shared_with_parent(&self) -> (r: bool)
        ensures
            r == self.is_shared,
    {
        self.is_shared
    }
}

/// How a task that runs for the first time goes on from the trampoline.
#[derive(Clone, Copy, Debug)]
pub enum TaskEntry {
    /// Call the kernel function at `pc` on `arg`; the task exits with what
    /// it returns.
    Kernel { pc: usize, arg: usize },
    /// Leave for user mode with these values.
    User(UserEntry),
    /// The kernel stack has no room for the frame of the first trap.
    NoRoom,
}

/// How a task that runs for the first time goes on.
pub open spec fn spec_task_entry(task: ProcessView) -> TaskEntry {
    match task.entry {
        EntryState::Kernel { pc, arg } => TaskEntry::Kernel { pc, arg },
        EntryState::User(tf) => if task.kstack.top.0 >= PROCESS_TRAP_FRAME_SIZE {
            TaskEntry::User(tf.spec_exec(task.kstack.top))
        } else {
            TaskEntry::NoRoom
        },
    }
}

/// Where a task goes from the trampoline when it runs for the first time:
/// into its kernel function, or to user mode through its frame, on its
/// own kernel stack.
pub fn task_entry(task: &Process) -> (r: TaskEntry)
    ensures
        r == spec_task_entry(task@),
{
    match &task.entry {
        EntryState::Kernel { pc, arg } => TaskEntry::Kernel { pc: *pc, arg: *arg },
        EntryState::User(tf) => {
            let top = task.kstack.top();
            if top.as_usize() >= PROCESS_TRAP_FRAME_SIZE {
                TaskEntry::User(tf.exec(top))
            } else {
                TaskEntry::NoRoom
            }
        },
    }
}

/// A guest: a task that runs a virtualised supervisor.
#[derive(Debug)]
pub struct Guest {
}

} // verus!
