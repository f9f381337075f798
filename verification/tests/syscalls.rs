use hypervisor::syscall::{
    sys_close, sys_condvar_create, sys_condvar_signal, sys_condvar_wait, sys_dup,
    sys_enable_deadlock_detect, sys_exec, sys_exit, sys_fork, sys_fstat, sys_get_time,
    sys_getpid, sys_gettid, sys_kill, sys_linkat, sys_mail_read, sys_mail_write, sys_mmap,
    sys_munmap, sys_mutex_create, sys_mutex_lock, sys_mutex_unlock, sys_openat, sys_pipe,
    sys_read, sys_sbrk, sys_semaphore_create, sys_semaphore_down, sys_semaphore_up,
    sys_set_priority, sys_sigaction, sys_sigprocmask, sys_sigreturn, sys_sleep, sys_spawn,
    sys_task_info, sys_thread_create, sys_unlinkat, sys_waitpid, sys_waittid, sys_write,
    sys_yield, syscall, syscall6, Ecall, SYSCALL_EXEC, SYSCALL_EXIT, SYSCALL_FORK,
    SYSCALL_PIPE, SYSCALL_WAITPID, SYSCALL_WRITE, SYSCALL_YIELD,
};

fn short(id: usize, a0: usize, a1: usize, a2: usize) -> Ecall {
    Ecall::Short { id, a0, a1, a2 }
}

#[test]
fn raw_calls_keep_their_arguments_in_order() {
    assert_eq!(syscall(7, [1, 2, 3]), short(7, 1, 2, 3));
    assert_eq!(
        syscall6(8, [1, 2, 3, 4, 5, 6]),
        Ecall::Long { id: 8, a0: 1, a1: 2, a2: 3, a3: 4, a4: 5, a5: 6 }
    );
    assert_eq!(syscall(7, [1, 2, 3]).id(), 7);
    assert_eq!(syscall6(8, [0; 6]).id(), 8);
}

#[test]
fn identifiers() {
    assert_eq!(SYSCALL_WRITE, 64);
    assert_eq!(SYSCALL_EXIT, 93);
    assert_eq!(SYSCALL_YIELD, 124);
    assert_eq!(SYSCALL_FORK, 220);
    assert_eq!(SYSCALL_EXEC, 221);
    assert_eq!(SYSCALL_WAITPID, 260);
    assert_eq!(SYSCALL_PIPE, 59);
}

#[test]
fn file_calls() {
    assert_eq!(
        sys_openat(3, 0x1000, 0o102, 0o644),
        Ecall::Long { id: 56, a0: 3, a1: 0x1000, a2: 0o102, a3: 0o644, a4: 0, a5: 0 }
    );
    assert_eq!(sys_close(4), short(57, 4, 0, 0));
    assert_eq!(sys_read(0, 0x2000, 128), short(63, 0, 0x2000, 128));
    assert_eq!(sys_write(1, 0x3000, 5), short(64, 1, 0x3000, 5));
    assert_eq!(
        sys_linkat(1, 0x10, 2, 0x20, 9),
        Ecall::Long { id: 37, a0: 1, a1: 0x10, a2: 2, a3: 0x20, a4: 9, a5: 0 }
    );
    assert_eq!(sys_unlinkat(1, 0x10, 2), short(35, 1, 0x10, 2));
    assert_eq!(sys_fstat(5, 0x4000), short(80, 5, 0x4000, 0));
    assert_eq!(sys_dup(6), short(24, 6, 0, 0));
    assert_eq!(sys_pipe(0x5000), short(59, 0x5000, 0, 0));
}

#[test]
fn task_calls() {
    assert_eq!(sys_exit(0), short(93, 0, 0, 0));
    assert_eq!(sys_exit(3), short(93, 3, 0, 0));
    assert_eq!(sys_exit(-1), short(93, usize::MAX, 0, 0));
    assert_eq!(sys_sleep(20), short(101, 20, 0, 0));
    assert_eq!(sys_yield(), short(124, 0, 0, 0));
    assert_eq!(sys_get_time(0x100, 0), short(169, 0x100, 0, 0));
    assert_eq!(sys_getpid(), short(172, 0, 0, 0));
    assert_eq!(sys_gettid(), short(178, 0, 0, 0));
    assert_eq!(sys_fork(), short(220, 0, 0, 0));
    assert_eq!(sys_exec(0x100, 0x200), short(221, 0x100, 0x200, 0));
    assert_eq!(sys_waitpid(5, 0x300), short(260, 5, 0x300, 0));
    assert_eq!(sys_waitpid(-1, 0x300), short(260, usize::MAX, 0x300, 0));
    assert_eq!(sys_set_priority(3), short(140, 3, 0, 0));
    assert_eq!(sys_set_priority(-2), short(140, usize::MAX - 1, 0, 0));
    assert_eq!(sys_spawn(0x100), short(400, 0x100, 0, 0));
    assert_eq!(sys_task_info(0x100), short(410, 0x100, 0, 0));
    assert_eq!(sys_thread_create(0x1000, 7), short(460, 0x1000, 7, 0));
    assert_eq!(sys_waittid(2), short(462, 2, 0, 0));
    assert_eq!(sys_kill(4, 9), short(129, 4, 9, 0));
    assert_eq!(sys_kill(4, -1), short(129, 4, usize::MAX, 0));
}

#[test]
fn memory_and_mail_calls() {
    assert_eq!(sys_sbrk(4096), short(214, 4096, 0, 0));
    assert_eq!(sys_sbrk(-4096), short(214, usize::MAX - 4095, 0, 0));
    assert_eq!(sys_mmap(0x1000, 0x2000, 3), short(222, 0x1000, 0x2000, 3));
    assert_eq!(sys_munmap(0x1000, 0x2000), short(215, 0x1000, 0x2000, 0));
    assert_eq!(sys_mail_read(0x10, 256), short(401, 0x10, 256, 0));
    assert_eq!(sys_mail_write(2, 0x10, 256), short(402, 2, 0x10, 256));
}

#[test]
fn synchronisation_calls() {
    assert_eq!(sys_mutex_create(true), short(463, 1, 0, 0));
    assert_eq!(sys_mutex_create(false), short(463, 0, 0, 0));
    assert_eq!(sys_mutex_lock(1), short(464, 1, 0, 0));
    assert_eq!(sys_mutex_unlock(1), short(466, 1, 0, 0));
    assert_eq!(sys_semaphore_create(3), short(467, 3, 0, 0));
    assert_eq!(sys_semaphore_up(2), short(468, 2, 0, 0));
    assert_eq!(sys_enable_deadlock_detect(1), short(469, 1, 0, 0));
    assert_eq!(sys_semaphore_down(2), short(470, 2, 0, 0));
    assert_eq!(sys_condvar_create(0), short(471, 0, 0, 0));
    assert_eq!(sys_condvar_signal(5), short(472, 5, 0, 0));
    assert_eq!(sys_condvar_wait(5, 6), short(473, 5, 6, 0));
}

#[test]
fn signal_calls() {
    assert_eq!(sys_sigaction(2, 0x10, 0x20), short(134, 2, 0x10, 0x20));
    assert_eq!(sys_sigaction(-1, 0, 0), short(134, usize::MAX, 0, 0));
    assert_eq!(sys_sigprocmask(0xffff_0000), short(135, 0xffff_0000, 0, 0));
    assert_eq!(sys_sigreturn(), short(139, 0, 0, 0));
}
