use hypervisor::arch::context::ProcessContext;
use hypervisor::arch::frame::ProcessTrapFrame;
use hypervisor::config::KERNEL_STACK_SIZE;
use hypervisor::mm::{PhysAddr, VirtAddr};
use hypervisor::task::current::{CurrentTask, SleepOrder};
use hypervisor::task::lifecycle::{ExitAction, WaitStatus};
use hypervisor::task::manager::{Switch, TaskManager};
use hypervisor::task::structs::{
    task_entry, EntryState, Process, Stack, Task, TaskEntry, TaskId, TaskState, WaitCurrent,
};

const KERNEL_ROOT: PhysAddr = PhysAddr(0x8020_0000);
const USER_ROOT: PhysAddr = PhysAddr(0x8100_0000);
const USER_ROOT_2: PhysAddr = PhysAddr(0x8200_0000);
const TRAMPOLINE: usize = 0x8000_4000;

/// What the task that takes over does first.
fn settle(m: &mut TaskManager) {
    if m.lock_held {
        m.force_unlock();
    }
}

fn yield_current(m: &mut TaskManager) -> Option<Switch> {
    let r = m.yield_current();
    assert_eq!(m.lock_held, r.is_some());
    settle(m);
    r
}

fn exit(m: &mut TaskManager, code: i32) -> ExitAction {
    let r = CurrentTask::get(m).exit(m, code);
    assert!(m.lock_held);
    settle(m);
    r
}

fn waitpid(m: &mut TaskManager, pid: isize) -> WaitStatus {
    let r = CurrentTask::get(m).waitpid(m, pid, 0);
    assert_eq!(m.lock_held, matches!(r, WaitStatus::Blocked(_)));
    settle(m);
    r
}

fn task(m: &TaskManager, id: usize) -> &Process {
    let i = m.find(TaskId(id)).expect("the task is registered");
    &m.tasks[i]
}

fn ready(m: &TaskManager) -> Vec<usize> {
    m.scheduler.ready_queue.iter().map(|t| t.0).collect()
}

fn children(m: &TaskManager, id: usize) -> Vec<usize> {
    task(m, id).children.iter().map(|t| t.0).collect()
}

fn frame() -> ProcessTrapFrame {
    let mut tf = ProcessTrapFrame::new_user(VirtAddr::new(0x1000), VirtAddr::new(0x8000), 0);
    tf.regs.a0 = 220;
    tf.regs.s2 = 22;
    tf.sepc = 0x1044;
    tf
}

/// Idle, the root task 1 and the user task 2, which runs.
fn user_running() -> TaskManager {
    let mut m = TaskManager::new(KERNEL_ROOT);
    assert_eq!(m.spawn_kernel(0x5000, 0, TRAMPOLINE, KERNEL_ROOT), TaskId(1));
    assert_eq!(
        m.spawn_user(VirtAddr::new(0x1000), VirtAddr::new(0x8000), USER_ROOT, TRAMPOLINE),
        TaskId(2)
    );
    yield_current(&mut m);
    yield_current(&mut m);
    assert_eq!(m.current, TaskId(2));
    m
}

fn run_until(m: &mut TaskManager, id: usize) {
    for _ in 0..64 {
        if m.current == TaskId(id) {
            return;
        }
        yield_current(m);
    }
    panic!("task {} never ran", id);
}

#[test]
fn task_id_numbers() {
    let mut next = 1usize;
    assert_eq!(TaskId::allocate(&mut next), TaskId(1));
    assert_eq!(TaskId::allocate(&mut next), TaskId(2));
    assert_eq!(next, 3);
    assert_eq!(TaskId(5).as_usize(), 5);
    assert_eq!(TaskId::from(7usize), TaskId(7));
}

#[test]
fn task_state_numbers() {
    assert_eq!(TaskState::Ready.as_u8(), 1);
    assert_eq!(TaskState::Running.as_u8(), 2);
    assert_eq!(TaskState::Sleeping.as_u8(), 3);
    assert_eq!(TaskState::Zombie.as_u8(), 4);
    for n in 1u8..=4 {
        assert_eq!(TaskState::from(n).as_u8(), n);
    }
    assert_eq!(TaskState::from(4), TaskState::Zombie);
}

#[test]
fn kernel_stack_has_its_size_and_a_top() {
    let s = Stack::default();
    let t = s.top();
    assert_ne!(t.as_usize(), 0);
    assert_eq!(s.top(), t);
    assert_eq!(KERNEL_STACK_SIZE, 0x4000);
    let other = Stack::default();
    assert_ne!(other.top(), t);
}

#[test]
fn new_common_is_blank() {
    let p = Process::new_common(TaskId(9));
    assert_eq!(p.id(), TaskId(9));
    assert_eq!(p.state(), TaskState::Ready);
    assert_eq!(p.exit_code(), 0);
    assert!(!p.need_resched());
    assert_eq!(p.sched_state().ticks_left, 10);
    assert!(!p.is_kernel_task());
    assert!(!p.is_shared_with_parent());
    assert!(p.is_process());
    assert!(!p.is_guest());
    assert_eq!(p.vm, None);
    assert_eq!(p.parent, None);
    assert!(p.children.is_empty());
    assert_eq!(p.wait_children_exit, WaitCurrent { waiting: false });
    assert_eq!(p.context().ra, 0);
    assert_eq!(p.context().sp, 0);
    assert_eq!(p.context().satp, 0);
    assert!(matches!(p.entry, EntryState::Kernel { pc: 0, arg: 0 }));
}

#[test]
fn setters_change_one_thing() {
    let mut p = Process::new_common(TaskId(9));
    p.set_state(TaskState::Sleeping);
    assert_eq!(p.state(), TaskState::Sleeping);
    p.set_exit_code(-3);
    assert_eq!(p.exit_code(), -3);
    assert_eq!(p.state(), TaskState::Sleeping);
    p.set_need_resched();
    assert!(p.need_resched());
    p.clear_need_resched();
    assert!(!p.need_resched());
    assert_eq!(p.exit_code(), -3);
    assert_eq!(p.id(), TaskId(9));
}

#[test]
fn idle_task() {
    let mut idle = Process::new_idle();
    assert_eq!(idle.id, TaskId(0));
    assert!(idle.is_idle());
    assert!(!idle.is_root());
    assert!(idle.is_kernel_task());
    assert_eq!(idle.state, TaskState::Ready);
    idle.init_idle(KERNEL_ROOT);
    assert_eq!(idle.state, TaskState::Running);
    assert_eq!(idle.ctx.ra, 0);
    assert_eq!(idle.ctx.sp, idle.kstack.top().as_usize());
    assert_eq!(idle.ctx.satp, KERNEL_ROOT.as_usize());
}

#[test]
fn kernel_task() {
    let p = Process::new_kernel(TaskId(1), 0x5000, 0x77, TRAMPOLINE, KERNEL_ROOT);
    assert!(p.is_root());
    assert!(p.is_kernel_task());
    assert!(matches!(p.entry, EntryState::Kernel { pc: 0x5000, arg: 0x77 }));
    assert_eq!(p.ctx.ra, TRAMPOLINE);
    assert_eq!(p.ctx.sp, p.kstack.top().as_usize());
    assert_eq!(p.ctx.satp, KERNEL_ROOT.as_usize());
    assert_eq!(p.ctx.s0, 0);
    assert_eq!(p.vm, None);
    assert_eq!(p.state, TaskState::Ready);
}

#[test]
fn user_task() {
    let p = Process::new_user(
        TaskId(2),
        VirtAddr::new(0x1000),
        VirtAddr::new(0x8000),
        USER_ROOT,
        TRAMPOLINE,
    );
    assert!(!p.is_kernel_task());
    assert!(!p.is_shared_with_parent());
    assert_eq!(p.vm, Some(USER_ROOT));
    assert_eq!(p.ctx.ra, TRAMPOLINE);
    assert_eq!(p.ctx.satp, USER_ROOT.as_usize());
    match &p.entry {
        EntryState::User(tf) => {
            assert_eq!(tf.sepc, 0x1000);
            assert_eq!(tf.regs.sp, 0x8000);
            assert_eq!(tf.regs.a0, 0);
            assert_eq!(tf.sstatus, 0x4_0020);
        }
        _ => panic!("a user task starts in a frame"),
    }
}

#[test]
fn clone_shares_and_fork_copies() {
    let parent = Process::new_user(
        TaskId(2),
        VirtAddr::new(0x1000),
        VirtAddr::new(0x8000),
        USER_ROOT,
        TRAMPOLINE,
    );
    let tf = frame();
    let c = parent.new_clone(TaskId(3), 0x7000, &tf, TRAMPOLINE);
    assert!(c.is_shared_with_parent());
    assert_eq!(c.vm, Some(USER_ROOT));
    assert_eq!(c.ctx.satp, USER_ROOT.as_usize());
    assert_eq!(c.ctx.ra, TRAMPOLINE);
    assert_eq!(c.ctx.sp, c.kstack.top().as_usize());
    match &c.entry {
        EntryState::User(f) => {
            assert_eq!(f.regs.a0, 0);
            assert_eq!(f.regs.sp, 0x7000);
            assert_eq!(f.regs.s2, 22);
            assert_eq!(f.sepc, 0x1044);
        }
        _ => panic!("a clone starts in a frame"),
    }
    let f = parent.new_fork(TaskId(4), &tf, USER_ROOT_2, TRAMPOLINE);
    assert!(!f.is_shared_with_parent());
    assert_eq!(f.vm, Some(USER_ROOT_2));
    assert_eq!(f.ctx.satp, USER_ROOT_2.as_usize());
    match &f.entry {
        EntryState::User(fr) => {
            assert_eq!(fr.regs.a0, 0);
            assert_eq!(fr.regs.sp, 0x8000);
            assert_eq!(fr.regs.s2, 22);
        }
        _ => panic!("a fork starts in a frame"),
    }
}

#[test]
fn add_child_links_both_ways() {
    let mut p = Process::new_common(TaskId(2));
    let mut a = Process::new_common(TaskId(3));
    let mut b = Process::new_common(TaskId(4));
    p.add_child(&mut a);
    p.add_child(&mut b);
    assert_eq!(p.children, vec![TaskId(3), TaskId(4)]);
    assert_eq!(a.parent, Some(TaskId(2)));
    assert_eq!(b.parent, Some(TaskId(2)));
    assert_eq!(p.parent, None);
}

#[test]
fn a_new_manager_runs_the_idle_task() {
    let m = TaskManager::new(KERNEL_ROOT);
    assert_eq!(m.tasks.len(), 1);
    assert_eq!(m.current, TaskId(0));
    assert_eq!(m.next_pid, 1);
    assert_eq!(task(&m, 0).state, TaskState::Running);
    assert_eq!(task(&m, 0).ctx.satp, KERNEL_ROOT.as_usize());
    assert!(ready(&m).is_empty());
    assert_eq!(m.find(TaskId(1)), None);
    assert_eq!(CurrentTask::get(&m).0, TaskId(0));
    assert_eq!(CurrentTask::get(&m).clone_task(), TaskId(0));
}

#[test]
fn spawned_tasks_get_fresh_numbers_under_the_root() {
    let mut m = TaskManager::new(KERNEL_ROOT);
    let root = m.spawn_kernel(0x5000, 0, TRAMPOLINE, KERNEL_ROOT);
    assert_eq!(root, TaskId(1));
    assert_eq!(task(&m, 1).parent, None);
    let k = m.spawn_kernel(0x6000, 1, TRAMPOLINE, KERNEL_ROOT);
    let u = m.spawn_user(VirtAddr::new(0x1000), VirtAddr::new(0x8000), USER_ROOT, TRAMPOLINE);
    assert_eq!(k, TaskId(2));
    assert_eq!(u, TaskId(3));
    assert_eq!(m.next_pid, 4);
    assert_eq!(children(&m, 1), vec![2, 3]);
    assert_eq!(task(&m, 2).parent, Some(TaskId(1)));
    assert_eq!(task(&m, 3).parent, Some(TaskId(1)));
    assert_eq!(ready(&m), vec![1, 2, 3]);
    assert_eq!(task(&m, 3).vm, Some(USER_ROOT));
    assert!(children(&m, 0).is_empty());
}

#[test]
fn numbers_are_not_reused_after_a_reap() {
    let mut m = user_running();
    let a = m.fork_current(&frame(), USER_ROOT_2, TRAMPOLINE);
    assert_eq!(a, TaskId(3));
    run_until(&mut m, 3);
    exit(&mut m, 0);
    run_until(&mut m, 2);
    assert_eq!(waitpid(&mut m, 3), WaitStatus::Exited(TaskId(3), 0));
    assert_eq!(m.find(TaskId(3)), None);
    let b = m.fork_current(&frame(), USER_ROOT_2, TRAMPOLINE);
    assert_eq!(b, TaskId(4));
    let mut ids: Vec<usize> = m.tasks.iter().map(|t| t.id.0).collect();
    ids.sort();
    assert_eq!(ids, vec![0, 1, 2, 4]);
}

#[test]
fn clone_and_fork_register_under_the_current_task() {
    let mut m = user_running();
    let tf = frame();
    let c = m.clone_current(0x7000, &tf, TRAMPOLINE);
    let f = m.fork_current(&tf, USER_ROOT_2, TRAMPOLINE);
    assert_eq!((c, f), (TaskId(3), TaskId(4)));
    assert_eq!(children(&m, 2), vec![3, 4]);
    assert_eq!(task(&m, 3).parent, Some(TaskId(2)));
    assert_eq!(task(&m, 4).parent, Some(TaskId(2)));
    assert_eq!(task(&m, 3).vm, Some(USER_ROOT));
    assert!(task(&m, 3).is_shared);
    assert_eq!(task(&m, 4).vm, Some(USER_ROOT_2));
    assert!(!task(&m, 4).is_shared);
    assert_eq!(ready(&m), vec![1, 3, 4]);
    assert_eq!(task(&m, 3).state, TaskState::Ready);
    assert_eq!(children(&m, 1), vec![2]);
}

#[test]
fn waitpid_collects_the_zombie_and_leaves_the_ready_child() {
    let mut m = user_running();
    let a = m.fork_current(&frame(), USER_ROOT_2, TRAMPOLINE);
    let b = m.fork_current(&frame(), PhysAddr(0x8300_0000), TRAMPOLINE);
    assert_eq!((a, b), (TaskId(3), TaskId(4)));
    run_until(&mut m, 4);
    let out = exit(&mut m, 7);
    assert_eq!(out.switch.from, TaskId(4));
    assert_eq!(task(&m, 4).state, TaskState::Zombie);
    assert_eq!(task(&m, 4).exit_code, 7);
    run_until(&mut m, 2);
    assert_eq!(task(&m, 3).state, TaskState::Ready);
    let r = waitpid(&mut m, -1);
    assert_eq!(r, WaitStatus::Exited(TaskId(4), 7));
    assert_eq!(children(&m, 2), vec![3]);
    assert_eq!(m.find(TaskId(4)), None);
    assert!(!ready(&m).contains(&4));
    assert_eq!(m.current, TaskId(2));
    let r = waitpid(&mut m, -1);
    match r {
        WaitStatus::Blocked(s) => {
            assert_eq!(s.from, TaskId(2));
            assert_eq!(s.to, m.current);
            assert_ne!(s.to, TaskId(2));
        }
        other => panic!("expected to block, got {:?}", other),
    }
    assert_eq!(task(&m, 2).state, TaskState::Sleeping);
    assert!(task(&m, 2).wait_children_exit.waiting);
    assert_eq!(children(&m, 2), vec![3]);
}

#[test]
fn waitpid_without_children_answers_at_once() {
    let mut m = user_running();
    let before = m.tasks.len();
    assert_eq!(waitpid(&mut m, -1), WaitStatus::NoChild);
    assert_eq!(waitpid(&mut m, 5), WaitStatus::NoChild);
    assert_eq!(m.current, TaskId(2));
    assert_eq!(task(&m, 2).state, TaskState::Running);
    assert!(!task(&m, 2).wait_children_exit.waiting);
    assert_eq!(m.tasks.len(), before);
}

#[test]
fn waitpid_for_a_number_that_is_no_child() {
    let mut m = user_running();
    m.fork_current(&frame(), USER_ROOT_2, TRAMPOLINE);
    assert_eq!(waitpid(&mut m, 1), WaitStatus::NoChild);
    assert_eq!(waitpid(&mut m, 2), WaitStatus::NoChild);
    assert_eq!(waitpid(&mut m, 99), WaitStatus::NoChild);
    assert_eq!(waitpid(&mut m, -2), WaitStatus::NoChild);
    assert_eq!(children(&m, 2), vec![3]);
    assert_eq!(task(&m, 2).state, TaskState::Running);
}

#[test]
fn waitpid_for_one_child_skips_other_zombies() {
    let mut m = user_running();
    m.fork_current(&frame(), USER_ROOT_2, TRAMPOLINE);
    m.fork_current(&frame(), PhysAddr(0x8300_0000), TRAMPOLINE);
    run_until(&mut m, 3);
    exit(&mut m, 30);
    run_until(&mut m, 4);
    exit(&mut m, 40);
    run_until(&mut m, 2);
    assert_eq!(waitpid(&mut m, 4), WaitStatus::Exited(TaskId(4), 40));
    assert_eq!(children(&m, 2), vec![3]);
    assert_eq!(waitpid(&mut m, -1), WaitStatus::Exited(TaskId(3), 30));
    assert!(children(&m, 2).is_empty());
    assert_eq!(waitpid(&mut m, -1), WaitStatus::NoChild);
}

#[test]
fn waitpid_takes_the_first_zombie_in_the_order_of_the_children() {
    let mut m = user_running();
    m.fork_current(&frame(), USER_ROOT_2, TRAMPOLINE);
    m.fork_current(&frame(), PhysAddr(0x8300_0000), TRAMPOLINE);
    m.fork_current(&frame(), PhysAddr(0x8400_0000), TRAMPOLINE);
    run_until(&mut m, 5);
    exit(&mut m, 50);
    run_until(&mut m, 4);
    exit(&mut m, 40);
    run_until(&mut m, 2);
    assert_eq!(waitpid(&mut m, -1), WaitStatus::Exited(TaskId(4), 40));
    assert_eq!(waitpid(&mut m, -1), WaitStatus::Exited(TaskId(5), 50));
    assert_eq!(children(&m, 2), vec![3]);
}

#[test]
fn exit_wakes_the_waiting_parent() {
    let mut m = user_running();
    m.fork_current(&frame(), USER_ROOT_2, TRAMPOLINE);
    let r = waitpid(&mut m, -1);
    assert_eq!(r, WaitStatus::Blocked(Switch { from: TaskId(2), to: TaskId(1) }));
    assert_eq!(ready(&m), vec![3]);
    run_until(&mut m, 3);
    assert_eq!(task(&m, 2).state, TaskState::Sleeping);
    let out = exit(&mut m, -9);
    assert_eq!(task(&m, 2).state, TaskState::Ready);
    assert!(!task(&m, 2).wait_children_exit.waiting);
    assert!(ready(&m).contains(&2) || m.current == TaskId(2));
    assert_eq!(out.switch.from, TaskId(3));
    assert_eq!(out.switch.to, m.current);
    run_until(&mut m, 2);
    assert_eq!(waitpid(&mut m, -1), WaitStatus::Exited(TaskId(3), -9));
}

#[test]
fn exit_hands_the_children_to_the_root() {
    let mut m = user_running();
    m.fork_current(&frame(), USER_ROOT_2, TRAMPOLINE);
    run_until(&mut m, 3);
    m.fork_current(&frame(), PhysAddr(0x8300_0000), TRAMPOLINE);
    m.fork_current(&frame(), PhysAddr(0x8400_0000), TRAMPOLINE);
    assert_eq!(children(&m, 3), vec![4, 5]);
    exit(&mut m, 1);
    assert!(children(&m, 3).is_empty());
    assert_eq!(children(&m, 1), vec![2, 4, 5]);
    assert_eq!(task(&m, 4).parent, Some(TaskId(1)));
    assert_eq!(task(&m, 5).parent, Some(TaskId(1)));
    assert_eq!(task(&m, 3).parent, Some(TaskId(2)));
    assert_eq!(children(&m, 2), vec![3]);
}

#[test]
fn exit_of_the_sole_owner_releases_while_the_zombie_is_registered() {
    let mut m = user_running();
    let out: ExitAction = exit(&mut m, 3);
    assert_eq!(out.release, Some(USER_ROOT));
    assert_eq!(out.switch, Switch { from: TaskId(2), to: TaskId(1) });
    assert!(m.find(TaskId(2)).is_some());
    assert_eq!(task(&m, 2).state, TaskState::Zombie);
    assert_eq!(task(&m, 2).exit_code, 3);
    assert_eq!(task(&m, 2).vm, Some(USER_ROOT));
    assert!(!ready(&m).contains(&2));
}

#[test]
fn exit_of_a_sharer_releases_nothing() {
    let mut m = user_running();
    m.clone_current(0x7000, &frame(), TRAMPOLINE);
    let out = exit(&mut m, 0);
    assert_eq!(out.release, None);
    run_until(&mut m, 3);
    let out = exit(&mut m, 0);
    assert_eq!(out.release, None);
}

#[test]
fn exit_of_a_kernel_task_releases_nothing() {
    let mut m = TaskManager::new(KERNEL_ROOT);
    m.spawn_kernel(0x5000, 0, TRAMPOLINE, KERNEL_ROOT);
    m.spawn_kernel(0x6000, 0, TRAMPOLINE, KERNEL_ROOT);
    run_until(&mut m, 2);
    let out = exit(&mut m, 5);
    assert_eq!(out.release, None);
    assert_eq!(task(&m, 2).state, TaskState::Zombie);
}

#[test]
fn the_last_task_leaves_for_the_idle_task() {
    let mut m = TaskManager::new(KERNEL_ROOT);
    m.spawn_kernel(0x5000, 0, TRAMPOLINE, KERNEL_ROOT);
    yield_current(&mut m);
    let out = exit(&mut m, 0);
    assert_eq!(out.switch, Switch { from: TaskId(1), to: TaskId(0) });
    assert_eq!(m.current, TaskId(0));
    assert_eq!(task(&m, 0).state, TaskState::Running);
    assert_eq!(task(&m, 1).state, TaskState::Zombie);
}

#[test]
fn exec_of_a_missing_program_fails_and_changes_nothing() {
    let m = user_running();
    let cur = CurrentTask::get(&m);
    assert!(cur.may_exec(&m));
    let mut tf = frame();
    let r = cur.exec(&m, None, &mut tf);
    assert_eq!(r, -1);
    assert!(r < 0);
    assert_eq!(tf.regs.a0, 220);
    assert_eq!(tf.regs.s2, 22);
    assert_eq!(tf.regs.sp, 0x8000);
    assert_eq!(tf.sepc, 0x1044);
    assert_eq!(tf.sstatus, 0x4_0020);
    assert_eq!(task(&m, 2).vm, Some(USER_ROOT));
}

#[test]
fn exec_of_a_loaded_program_rewrites_the_frame() {
    let m = user_running();
    let cur = CurrentTask::get(&m);
    let mut tf = frame();
    let r = cur.exec(&m, Some((VirtAddr::new(0x2000), VirtAddr::new(0xa000))), &mut tf);
    assert_eq!(r, 0);
    assert_eq!(tf.sepc, 0x2000);
    assert_eq!(tf.regs.sp, 0xa000);
    assert_eq!(tf.regs.a0, 0);
    assert_eq!(tf.regs.s2, 0);
    assert_eq!(tf.sstatus, 0x4_0020);
}

#[test]
fn exec_is_not_allowed_while_the_address_space_is_shared() {
    let mut m = user_running();
    assert!(CurrentTask::get(&m).may_exec(&m));
    m.clone_current(0x7000, &frame(), TRAMPOLINE);
    assert!(!CurrentTask::get(&m).may_exec(&m));
    run_until(&mut m, 3);
    assert!(!CurrentTask::get(&m).may_exec(&m));
    run_until(&mut m, 1);
    assert!(!CurrentTask::get(&m).may_exec(&m));
}

#[test]
fn exec_is_allowed_again_once_the_sharer_is_collected() {
    let mut m = user_running();
    m.clone_current(0x7000, &frame(), TRAMPOLINE);
    run_until(&mut m, 3);
    exit(&mut m, 0);
    run_until(&mut m, 2);
    assert!(!CurrentTask::get(&m).may_exec(&m));
    assert_eq!(waitpid(&mut m, 3), WaitStatus::Exited(TaskId(3), 0));
    assert!(CurrentTask::get(&m).may_exec(&m));
}

#[test]
fn a_fork_owns_its_address_space_alone() {
    let mut m = user_running();
    m.fork_current(&frame(), USER_ROOT_2, TRAMPOLINE);
    assert!(CurrentTask::get(&m).may_exec(&m));
    run_until(&mut m, 3);
    assert!(CurrentTask::get(&m).may_exec(&m));
    let out = exit(&mut m, 0);
    assert_eq!(out.release, Some(USER_ROOT_2));
}

#[test]
fn current_task_flags_and_moves() {
    let mut m = user_running();
    let cur = CurrentTask::get(&m);
    cur.set_need_resched(&mut m);
    assert!(task(&m, 2).need_resched);
    cur.clear_need_resched(&mut m);
    assert!(!task(&m, 2).need_resched);
    cur.set_need_resched(&mut m);
    assert_eq!(cur.yield_now(&mut m), Some(Switch { from: TaskId(2), to: TaskId(1) }));
    assert!(m.lock_held);
    settle(&mut m);
    assert!(!task(&m, 2).need_resched);
    let cur = CurrentTask::get(&m);
    let order = cur.sleep(&mut m, 5_000_000);
    assert!(m.lock_held);
    settle(&mut m);
    assert_eq!(
        order,
        SleepOrder {
            task: TaskId(1),
            deadline: 5_000_000,
            switch: Switch { from: TaskId(1), to: TaskId(2) },
        }
    );
    assert_eq!(task(&m, 1).state, TaskState::Sleeping);
    m.wakeup(order.task);
    assert_eq!(task(&m, 1).state, TaskState::Ready);
}

#[test]
fn the_root_task_keeps_its_children_when_it_exits() {
    let mut m = user_running();
    run_until(&mut m, 1);
    exit(&mut m, 0);
    assert_eq!(task(&m, 1).state, TaskState::Zombie);
    assert_eq!(children(&m, 1), vec![2]);
    assert_eq!(task(&m, 2).parent, Some(TaskId(1)));
    assert_eq!(m.current, TaskId(2));
}

#[test]
fn context_type_is_the_process_context() {
    let p = Process::new_kernel(TaskId(1), 0, 0, TRAMPOLINE, KERNEL_ROOT);
    let c: &ProcessContext = p.context();
    assert_eq!(c.ra, TRAMPOLINE);
}

#[test]
fn a_kernel_task_enters_its_function() {
    let p = Process::new_kernel(TaskId(1), 0x5000, 0x77, TRAMPOLINE, KERNEL_ROOT);
    match task_entry(&p) {
        TaskEntry::Kernel { pc, arg } => {
            assert_eq!(pc, 0x5000);
            assert_eq!(arg, 0x77);
        }
        other => panic!("expected the kernel function, got {:?}", other),
    }
}

#[test]
fn a_user_task_enters_through_its_frame() {
    let p = Process::new_user(
        TaskId(2),
        VirtAddr::new(0x1000),
        VirtAddr::new(0x8000),
        USER_ROOT,
        TRAMPOLINE,
    );
    match task_entry(&p) {
        TaskEntry::User(e) => {
            assert_eq!(e.sepc, 0x1000);
            assert_eq!(e.sstatus, 0x4_0020);
            assert_eq!(e.sscratch, p.kstack.top().as_usize());
            assert_eq!(e.kernel_tp_addr, p.kstack.top().as_usize() - 264 + 24);
        }
        other => panic!("expected the user entry, got {:?}", other),
    }
}

#[test]
fn traverse_walks_parents_before_children() {
    let mut m = user_running();
    m.fork_current(&frame(), USER_ROOT_2, TRAMPOLINE);
    m.fork_current(&frame(), PhysAddr(0x8300_0000), TRAMPOLINE);
    run_until(&mut m, 3);
    m.fork_current(&frame(), PhysAddr(0x8400_0000), TRAMPOLINE);
    let walk = |id: usize| -> Vec<usize> { m.traverse(TaskId(id)).iter().map(|t| t.0).collect() };
    assert_eq!(walk(1), vec![1, 2, 3, 5, 4]);
    assert_eq!(walk(2), vec![2, 3, 5, 4]);
    assert_eq!(walk(3), vec![3, 5]);
    assert_eq!(walk(4), vec![4]);
    assert_eq!(walk(0), vec![0]);
    assert_eq!(walk(42), Vec::<usize>::new());
}
