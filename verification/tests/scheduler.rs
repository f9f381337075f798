use hypervisor::config::MAX_TIME_SLICE;
use hypervisor::mm::PhysAddr;
use hypervisor::task::manager::{Switch, TaskManager};
use hypervisor::task::schedule::{RRScheduler, RRSchedulerState, Scheduler, SchedulerTrait};
use hypervisor::task::structs::{Process, Task, TaskId, TaskState};

const ROOT: PhysAddr = PhysAddr(0x8020_0000);
const TRAMPOLINE: usize = 0x8000_4000;

fn manager_with(n: usize) -> TaskManager {
    let mut m = TaskManager::new(ROOT);
    for i in 0..n {
        m.spawn_kernel(0x1000 + i, i, TRAMPOLINE, ROOT);
    }
    m
}

/// What the task that takes over does first.
fn settle(m: &mut TaskManager) {
    if m.lock_held {
        m.force_unlock();
    }
}

fn yield_current(m: &mut TaskManager) -> Option<Switch> {
    let r = m.yield_current();
    assert_eq!(m.lock_held, r.is_some());
    settle(m);
    r
}

fn sleep_current(m: &mut TaskManager) -> Switch {
    let r = m.sleep_current();
    assert!(m.lock_held);
    settle(m);
    r
}

fn resched_if_needed(m: &mut TaskManager) -> Option<Switch> {
    let r = m.resched_if_needed();
    assert_eq!(m.lock_held, r.is_some());
    settle(m);
    r
}

fn task(m: &TaskManager, id: usize) -> &Process {
    let i = m.find(TaskId(id)).expect("the task is registered");
    &m.tasks[i]
}

fn ready(m: &TaskManager) -> Vec<usize> {
    m.scheduler.ready_queue.iter().map(|t| t.0).collect()
}

#[test]
fn pick_follows_push_back() {
    let mut s = RRScheduler::new();
    assert_eq!(s.pick_next_task(), None);
    s.push_ready_task_back(TaskId(1));
    s.push_ready_task_back(TaskId(2));
    s.push_ready_task_back(TaskId(3));
    assert_eq!(s.pick_next_task(), Some(TaskId(1)));
    assert_eq!(s.pick_next_task(), Some(TaskId(2)));
    assert_eq!(s.pick_next_task(), Some(TaskId(3)));
    assert_eq!(s.pick_next_task(), None);
    assert_eq!(s.pick_next_task(), None);
}

#[test]
fn push_front_runs_next() {
    let mut s: Scheduler = SchedulerTrait::new();
    s.push_ready_task_back(TaskId(1));
    s.push_ready_task_back(TaskId(2));
    s.push_ready_task_front(TaskId(3));
    assert_eq!(s.pick_next_task(), Some(TaskId(3)));
    assert_eq!(s.pick_next_task(), Some(TaskId(1)));
    assert_eq!(s.pick_next_task(), Some(TaskId(2)));
}

#[test]
fn round_robin_repeats_in_order() {
    let mut s = RRScheduler::new();
    for id in [1usize, 2, 3] {
        s.push_ready_task_back(TaskId(id));
    }
    let mut seen = Vec::new();
    for _ in 0..7 {
        let t = s.pick_next_task().unwrap();
        seen.push(t.0);
        s.push_ready_task_back(t);
    }
    assert_eq!(seen, vec![1, 2, 3, 1, 2, 3, 1]);
}

#[test]
fn time_slice_is_full_at_the_start() {
    assert_eq!(RRSchedulerState::default().ticks_left, MAX_TIME_SLICE);
    assert_eq!(MAX_TIME_SLICE, 10);
    let mut s = RRSchedulerState { ticks_left: 0 };
    s.reset();
    assert_eq!(s.ticks_left, 10);
}

#[test]
fn ticks_before_the_last_leave_the_flag_unset() {
    let mut s = RRScheduler::new();
    let mut p = Process::new_kernel(TaskId(1), 0, 0, TRAMPOLINE, ROOT);
    for left in (1..MAX_TIME_SLICE).rev() {
        s.timer_tick(&mut p);
        assert_eq!(p.sched_state.ticks_left, left);
        assert!(!p.need_resched());
    }
    s.timer_tick(&mut p);
    assert_eq!(p.sched_state.ticks_left, 0);
    assert!(p.need_resched());
}

#[test]
fn ticks_after_the_last_keep_the_flag_set() {
    let mut s = RRScheduler::new();
    let mut p = Process::new_kernel(TaskId(1), 0, 0, TRAMPOLINE, ROOT);
    for _ in 0..MAX_TIME_SLICE {
        s.timer_tick(&mut p);
    }
    assert!(p.need_resched());
    for _ in 0..25 {
        s.timer_tick(&mut p);
        assert!(p.need_resched());
        assert_eq!(p.sched_state.ticks_left, 0);
    }
}

#[test]
fn a_tick_changes_nothing_else() {
    let mut s = RRScheduler::new();
    s.push_ready_task_back(TaskId(9));
    let mut p = Process::new_kernel(TaskId(1), 0x10, 0x20, TRAMPOLINE, ROOT);
    p.exit_code = 3;
    s.timer_tick(&mut p);
    assert_eq!(p.id, TaskId(1));
    assert_eq!(p.state, TaskState::Ready);
    assert_eq!(p.exit_code, 3);
    assert_eq!(p.ctx.ra, TRAMPOLINE);
    assert_eq!(s.pick_next_task(), Some(TaskId(9)));
    assert_eq!(s.pick_next_task(), None);
}

#[test]
fn manager_tick_counts_for_the_current_task_only() {
    let mut m = manager_with(2);
    assert_eq!(yield_current(&mut m), Some(Switch { from: TaskId(0), to: TaskId(1) }));
    for _ in 0..3 {
        m.timer_tick();
    }
    assert_eq!(task(&m, 1).sched_state.ticks_left, 7);
    assert_eq!(task(&m, 2).sched_state.ticks_left, 10);
    assert!(!task(&m, 1).need_resched);
    for _ in 0..7 {
        m.timer_tick();
    }
    assert!(task(&m, 1).need_resched);
    assert!(!task(&m, 2).need_resched);
    assert_eq!(m.current, TaskId(1));
    assert_eq!(task(&m, 1).state, TaskState::Running);
    assert_eq!(ready(&m), vec![2]);
}

#[test]
fn yield_refills_the_slice_and_clears_the_flag() {
    let mut m = manager_with(2);
    yield_current(&mut m);
    for _ in 0..10 {
        m.timer_tick();
    }
    assert!(task(&m, 1).need_resched);
    assert_eq!(yield_current(&mut m), Some(Switch { from: TaskId(1), to: TaskId(2) }));
    assert!(!task(&m, 1).need_resched);
    assert_eq!(task(&m, 1).sched_state.ticks_left, 10);
    assert_eq!(task(&m, 1).state, TaskState::Ready);
    assert_eq!(task(&m, 2).state, TaskState::Running);
    assert_eq!(ready(&m), vec![1]);
}

#[test]
fn three_tasks_take_turns() {
    let mut m = manager_with(3);
    assert_eq!(ready(&m), vec![1, 2, 3]);
    let mut order = Vec::new();
    yield_current(&mut m);
    for _ in 0..7 {
        order.push(m.current.0);
        yield_current(&mut m);
    }
    assert_eq!(order, vec![1, 2, 3, 1, 2, 3, 1]);
}

#[test]
fn idle_yields_to_itself_when_nothing_is_ready() {
    let mut m = TaskManager::new(ROOT);
    assert_eq!(m.current, TaskId(0));
    assert_eq!(yield_current(&mut m), None);
    assert_eq!(m.current, TaskId(0));
    assert_eq!(task(&m, 0).state, TaskState::Running);
    assert!(ready(&m).is_empty());
}

#[test]
fn a_lone_task_yields_to_itself() {
    let mut m = manager_with(1);
    assert_eq!(yield_current(&mut m), Some(Switch { from: TaskId(0), to: TaskId(1) }));
    assert_eq!(task(&m, 0).state, TaskState::Ready);
    assert!(ready(&m).is_empty());
    assert_eq!(yield_current(&mut m), None);
    assert_eq!(m.current, TaskId(1));
    assert_eq!(task(&m, 1).state, TaskState::Running);
    assert!(ready(&m).is_empty());
}

#[test]
fn sleep_and_wake() {
    let mut m = manager_with(2);
    yield_current(&mut m);
    let s = sleep_current(&mut m);
    assert_eq!(s, Switch { from: TaskId(1), to: TaskId(2) });
    assert_eq!(task(&m, 1).state, TaskState::Sleeping);
    assert!(ready(&m).is_empty());
    let s = sleep_current(&mut m);
    assert_eq!(s, Switch { from: TaskId(2), to: TaskId(0) });
    assert_eq!(task(&m, 0).state, TaskState::Running);
    m.wakeup(TaskId(2));
    assert_eq!(task(&m, 2).state, TaskState::Ready);
    assert_eq!(ready(&m), vec![2]);
    m.wakeup(TaskId(2));
    assert_eq!(ready(&m), vec![2]);
    m.wakeup(TaskId(0));
    m.wakeup(TaskId(77));
    assert_eq!(ready(&m), vec![2]);
    m.wakeup(TaskId(1));
    assert_eq!(ready(&m), vec![2, 1]);
    assert_eq!(yield_current(&mut m), Some(Switch { from: TaskId(0), to: TaskId(2) }));
}

#[test]
fn a_task_gives_way_at_a_safe_point_only_when_asked() {
    let mut m = manager_with(2);
    yield_current(&mut m);
    for _ in 0..9 {
        m.timer_tick();
        assert_eq!(resched_if_needed(&mut m), None);
        assert_eq!(m.current, TaskId(1));
    }
    m.timer_tick();
    assert_eq!(m.current, TaskId(1));
    assert_eq!(resched_if_needed(&mut m), Some(Switch { from: TaskId(1), to: TaskId(2) }));
    assert_eq!(resched_if_needed(&mut m), None);
    assert_eq!(task(&m, 1).sched_state.ticks_left, 10);
    assert_eq!(ready(&m), vec![1]);
}

#[test]
fn the_lock_is_held_from_the_switch_until_the_next_task_releases_it() {
    let mut m = manager_with(2);
    assert!(!m.lock_held);
    let order = m.yield_current();
    assert_eq!(order, Some(Switch { from: TaskId(0), to: TaskId(1) }));
    assert!(m.lock_held);
    m.force_unlock();
    assert!(!m.lock_held);
    assert_eq!(m.current, TaskId(1));
    assert_eq!(ready(&m), vec![2]);
    m.sleep_current();
    assert!(m.lock_held);
    m.force_unlock();
    assert!(!m.lock_held);
}

#[test]
fn no_lock_is_left_held_when_the_task_goes_on() {
    let mut m = manager_with(1);
    m.yield_current();
    m.force_unlock();
    assert_eq!(m.yield_current(), None);
    assert!(!m.lock_held);
    assert_eq!(m.resched_if_needed(), None);
    assert!(!m.lock_held);
    m.timer_tick();
    m.wakeup(TaskId(1));
    assert!(!m.lock_held);
}
