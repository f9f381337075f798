//! The system calls as a user program of the guest issues them: for each
//! call, the identifier and the arguments that go into the registers of
//! the environment call. Strings, buffers and records are handed over by
//! their addresses.

use vstd::prelude::*;

verus! {

pub const SYSCALL_OPENAT: usize = 56;

pub const SYSCALL_CLOSE: usize = 57;

pub const SYSCALL_READ: usize = 63;

pub const SYSCALL_WRITE: usize = 64;

pub const SYSCALL_UNLINKAT: usize = 35;

pub const SYSCALL_LINKAT: usize = 37;

pub const SYSCALL_FSTAT: usize = 80;

pub const SYSCALL_EXIT: usize = 93;

pub const SYSCALL_SLEEP: usize = 101;

pub const SYSCALL_YIELD: usize = 124;

pub const SYSCALL_KILL: usize = 129;

pub const SYSCALL_SIGACTION: usize = 134;

pub const SYSCALL_SIGPROCMASK: usize = 135;

pub const SYSCALL_SIGRETURN: usize = 139;

pub const SYSCALL_GETTIMEOFDAY: usize = 169;

pub const SYSCALL_GETPID: usize = 172;

pub const SYSCALL_GETTID: usize = 178;

pub const SYSCALL_FORK: usize = 220;

pub const SYSCALL_EXEC: usize = 221;

pub const SYSCALL_WAITPID: usize = 260;

pub const SYSCALL_SET_PRIORITY: usize = 140;

pub const SYSCALL_SBRK: usize = 214;

pub const SYSCALL_MUNMAP: usize = 215;

pub const SYSCALL_MMAP: usize = 222;

pub const SYSCALL_SPAWN: usize = 400;

pub const SYSCALL_MAIL_READ: usize = 401;

pub const SYSCALL_MAIL_WRITE: usize = 402;

pub const SYSCALL_DUP: usize = 24;

pub const SYSCALL_PIPE: usize = 59;

pub const SYSCALL_TASK_INFO: usize = 410;

pub const SYSCALL_THREAD_CREATE: usize = 460;

pub const SYSCALL_WAITTID: usize = 462;

pub const SYSCALL_MUTEX_CREATE: usize = 463;

pub const SYSCALL_MUTEX_LOCK: usize = 464;

pub const SYSCALL_MUTEX_UNLOCK: usize = 466;

pub const SYSCALL_SEMAPHORE_CREATE: usize = 467;

pub const SYSCALL_SEMAPHORE_UP: usize = 468;

pub const SYSCALL_ENABLE_DEADLOCK_DETECT: usize = 469;

pub const SYSCALL_SEMAPHORE_DOWN: usize = 470;

pub const SYSCALL_CONDVAR_CREATE: usize = 471;

pub const SYSCALL_CONDVAR_SIGNAL: usize = 472;

pub const SYSCALL_CONDVAR_WAIT: usize = 473;

/// An environment call that is ready to be issued: the identifier goes
/// into `a7`, the arguments into `a0` and the registers that follow it,
/// and the result comes back in `a0`.
#[derive(Clone, Copy, Debug, PartialEq, Eq, Structural)]
pub enum Ecall {
    /// A call with three arguments.
    Short { id: usize, a0: usize, a1: usize, a2: usize },
    /// A call with six arguments.
    Long { id: usize, a0: usize, a1: usize, a2: usize, a3: usize, a4: usize, a5: usize },
}

impl Ecall {
    /// The identifier of the call.
    pub open spec fn spec_id(self) -> usize {
        match self {
            Ecall::Short { id, .. } => id,
            Ecall::Long { id, .. } => id,
        }
    }

    /// The identifier of the call.
    pub fn id(&self) -> (r: usize)
        ensures
            r == self.spec_id(),
    {
        match self {
            Ecall::Short { id, .. } => *id,
            Ecall::Long { id, .. } => *id,
        }
    }
}

/// The call `id` with three arguments.
pub fn syscall(id: usize, args: [usize; 3]) -> (r: Ecall)
    ensures
        r == (Ecall::Short { id, a0: args@[0], a1: args@[1], a2: args@[2] }),
{
    Ecall::Short { id, a0: args[0], a1: args[1], a2: args[2] }
}

/// The call `id` with six arguments.
pub fn syscall6(id: usize, args: [usize; 6]) -> (r: Ecall)
    ensures
        r == (Ecall::Long {
            id,
            a0: args@[0],
            a1: args@[1],
            a2: args@[2],
            a3: args@[3],
            a4: args@[4],
            a5: args@[5],
        }),
{
    Ecall::Long { id, a0: args[0], a1: args[1], a2: args[2], a3: args[3], a4: args[4], a5: args[5] }
}

/// Opens the file whose path is the string at `path`, relative to the
/// directory `dirfd`.
pub fn sys_openat(dirfd: usize, path: usize, flags: u32, mode: u32) -> (r: Ecall)
    ensures
        r == (Ecall::Long { id: SYSCALL_OPENAT, a0: dirfd, a1: path, a2: flags as usize, a3: mode as usize, a4: 0, a5: 0 }),
{
    syscall6(SYSCALL_OPENAT, [dirfd, path, flags as usize, mode as usize, 0, 0])
}

/// Closes the file `fd`.
pub fn sys_close(fd: usize) -> (r: Ecall)
    ensures
        r == (Ecall::Short { id: SYSCALL_CLOSE, a0: fd, a1: 0, a2: 0 }),
{
    syscall(SYSCALL_CLOSE, [fd, 0, 0])
}

/// Reads from the file `fd` into the `len` bytes at `buffer`.
pub fn sys_read(fd: usize, buffer: usize, len: usize) -> (r: Ecall)
    ensures
        r == (Ecall::Short { id: SYSCALL_READ, a0: fd, a1: buffer, a2: len }),
{
    syscall(SYSCALL_READ, [fd, buffer, len])
}

/// Writes the `len` bytes at `buffer` to the file `fd`.
pub fn sys_write(fd: usize, buffer: usize, len: usize) -> (r: Ecall)
    ensures
        r == (Ecall::Short { id: SYSCALL_WRITE, a0: fd, a1: buffer, a2: len }),
{
    syscall(SYSCALL_WRITE, [fd, buffer, len])
}

/// Links the path at `new_path` to the file at `old_path`.
pub fn sys_linkat(old_dirfd: usize, old_path: usize, new_dirfd: usize, new_path: usize, flags: usize) -> (r: Ecall)
    ensures
        r == (Ecall::Long { id: SYSCALL_LINKAT, a0: old_dirfd, a1: old_path, a2: new_dirfd, a3: new_path, a4: flags, a5: 0 }),
{
    syscall6(SYSCALL_LINKAT, [old_dirfd, old_path, new_dirfd, new_path, flags, 0])
}

/// Removes the link whose path is the string at `path`.
pub fn sys_unlinkat(dirfd: usize, path: usize, flags: usize) -> (r: Ecall)
    ensures
        r == (Ecall::Short { id: SYSCALL_UNLINKAT, a0: dirfd, a1: path, a2: flags }),
{
    syscall(SYSCALL_UNLINKAT, [dirfd, path, flags])
}

/// Writes what is known of the file `fd` to the record at `st`.
pub fn sys_fstat(fd: usize, st: usize) -> (r: Ecall)
    ensures
        r == (Ecall::Short { id: SYSCALL_FSTAT, a0: fd, a1: st, a2: 0 }),
{
    syscall(SYSCALL_FSTAT, [fd, st, 0])
}

/// Reads the next mail into the `len` bytes at `buffer`.
pub fn sys_mail_read(buffer: usize, len: usize) -> (r: Ecall)
    ensures
        r == (Ecall::Short { id: SYSCALL_MAIL_READ, a0: buffer, a1: len, a2: 0 }),
{
    syscall(SYSCALL_MAIL_READ, [buffer, len, 0])
}

/// Sends the `len` bytes at `buffer` as a mail to the task `pid`.
pub fn sys_mail_write(pid: usize, buffer: usize, len: usize) -> (r: Ecall)
    ensures
        r == (Ecall::Short { id: SYSCALL_MAIL_WRITE, a0: pid, a1: buffer, a2: len }),
{
    syscall(SYSCALL_MAIL_WRITE, [pid, buffer, len])
}

/// Ends the calling task with `exit_code`. The call does not return to its
/// caller.
pub fn sys_exit(exit_code: i32) -> (r: Ecall)
    ensures
        r == (Ecall::Short { id: SYSCALL_EXIT, a0: exit_code as usize, a1: 0, a2: 0 }),
{
    syscall(SYSCALL_EXIT, [exit_code as usize, 0, 0])
}

/// Sleeps for `sleep_ms` milliseconds.
pub fn sys_sleep(sleep_ms: usize) -> (r: Ecall)
    ensures
        r == (Ecall::Short { id: SYSCALL_SLEEP, a0: sleep_ms, a1: 0, a2: 0 }),
{
    syscall(SYSCALL_SLEEP, [sleep_ms, 0, 0])
}

/// Gives way to the next ready task.
pub fn sys_yield() -> (r: Ecall)
    ensures
        r == (Ecall::Short { id: SYSCALL_YIELD, a0: 0, a1: 0, a2: 0 }),
{
    syscall(SYSCALL_YIELD, [0, 0, 0])
}

/// Writes the time to the record at `time`.
pub fn sys_get_time(time: usize, tz: usize) -> (r: Ecall)
    ensures
        r == (Ecall::Short { id: SYSCALL_GETTIMEOFDAY, a0: time, a1: tz, a2: 0 }),
{
    syscall(SYSCALL_GETTIMEOFDAY, [time, tz, 0])
}

/// Asks for the number of the calling process.
pub fn sys_getpid() -> (r: Ecall)
    ensures
        r == (Ecall::Short { id: SYSCALL_GETPID, a0: 0, a1: 0, a2: 0 }),
{
    syscall(SYSCALL_GETPID, [0, 0, 0])
}

/// Forks the calling process.
pub fn sys_fork() -> (r: Ecall)
    ensures
        r == (Ecall::Short { id: SYSCALL_FORK, a0: 0, a1: 0, a2: 0 }),
{
    syscall(SYSCALL_FORK, [0, 0, 0])
}

/// Replaces the program by the one whose path is the string at `path`, with
/// the arguments listed at `args`.
pub fn sys_exec(path: usize, args: usize) -> (r: Ecall)
    ensures
        r == (Ecall::Short { id: SYSCALL_EXEC, a0: path, a1: args, a2: 0 }),
{
    syscall(SYSCALL_EXEC, [path, args, 0])
}

/// Waits for the child `pid`, or for any child when `pid` is -1; its exit
/// code goes to `xstatus`.
pub fn sys_waitpid(pid: isize, xstatus: usize) -> (r: Ecall)
    ensures
        r == (Ecall::Short { id: SYSCALL_WAITPID, a0: pid as usize, a1: xstatus, a2: 0 }),
{
    syscall(SYSCALL_WAITPID, [pid as usize, xstatus, 0])
}

/// Sets the priority of the calling task.
pub fn sys_set_priority(prio: isize) -> (r: Ecall)
    ensures
        r == (Ecall::Short { id: SYSCALL_SET_PRIORITY, a0: prio as usize, a1: 0, a2: 0 }),
{
    syscall(SYSCALL_SET_PRIORITY, [prio as usize, 0, 0])
}

/// Moves the end of the heap by `size` bytes.
pub fn sys_sbrk(size: i32) -> (r: Ecall)
    ensures
        r == (Ecall::Short { id: SYSCALL_SBRK, a0: size as usize, a1: 0, a2: 0 }),
{
    syscall(SYSCALL_SBRK, [size as usize, 0, 0])
}

/// Maps `len` bytes at `start` with the protection `prot`.
pub fn sys_mmap(start: usize, len: usize, prot: usize) -> (r: Ecall)
    ensures
        r == (Ecall::Short { id: SYSCALL_MMAP, a0: start, a1: len, a2: prot }),
{
    syscall(SYSCALL_MMAP, [start, len, prot])
}

/// Unmaps `len` bytes at `start`.
pub fn sys_munmap(start: usize, len: usize) -> (r: Ecall)
    ensures
        r == (Ecall::Short { id: SYSCALL_MUNMAP, a0: start, a1: len, a2: 0 }),
{
    syscall(SYSCALL_MUNMAP, [start, len, 0])
}

/// Spawns the program whose path is the string at `path`.
pub fn sys_spawn(path: usize) -> (r: Ecall)
    ensures
        r == (Ecall::Short { id: SYSCALL_SPAWN, a0: path, a1: 0, a2: 0 }),
{
    syscall(SYSCALL_SPAWN, [path, 0, 0])
}

/// Duplicates the file descriptor `fd`.
pub fn sys_dup(fd: usize) -> (r: Ecall)
    ensures
        r == (Ecall::Short { id: SYSCALL_DUP, a0: fd, a1: 0, a2: 0 }),
{
    syscall(SYSCALL_DUP, [fd, 0, 0])
}

/// Opens a pipe; its two ends go to the array at `pipe`.
pub fn sys_pipe(pipe: usize) -> (r: Ecall)
    ensures
        r == (Ecall::Short { id: SYSCALL_PIPE, a0: pipe, a1: 0, a2: 0 }),
{
    syscall(SYSCALL_PIPE, [pipe, 0, 0])
}

/// Writes what is known of the calling task to the record at `info`.
pub fn sys_task_info(info: usize) -> (r: Ecall)
    ensures
        r == (Ecall::Short { id: SYSCALL_TASK_INFO, a0: info, a1: 0, a2: 0 }),
{
    syscall(SYSCALL_TASK_INFO, [info, 0, 0])
}

/// Creates a thread that runs the function at `entry` on `arg`.
pub fn sys_thread_create(entry: usize, arg: usize) -> (r: Ecall)
    ensures
        r == (Ecall::Short { id: SYSCALL_THREAD_CREATE, a0: entry, a1: arg, a2: 0 }),
{
    syscall(SYSCALL_THREAD_CREATE, [entry, arg, 0])
}

/// Asks for the number of the calling thread.
pub fn sys_gettid() -> (r: Ecall)
    ensures
        r == (Ecall::Short { id: SYSCALL_GETTID, a0: 0, a1: 0, a2: 0 }),
{
    syscall(SYSCALL_GETTID, [0, 0, 0])
}

/// Waits for the thread `tid`.
pub fn sys_waittid(tid: usize) -> (r: Ecall)
    ensures
        r == (Ecall::Short { id: SYSCALL_WAITTID, a0: tid, a1: 0, a2: 0 }),
{
    syscall(SYSCALL_WAITTID, [tid, 0, 0])
}

/// Creates a mutex, blocking or spinning.
pub fn sys_mutex_create(blocking: bool) -> (r: Ecall)
    ensures
        r == (Ecall::Short { id: SYSCALL_MUTEX_CREATE, a0: if blocking { 1usize } else { 0usize }, a1: 0, a2: 0 }),
{
    syscall(SYSCALL_MUTEX_CREATE, [if blocking { 1 } else { 0 }, 0, 0])
}

/// Locks the mutex `id`.
pub fn sys_mutex_lock(id: usize) -> (r: Ecall)
    ensures
        r == (Ecall::Short { id: SYSCALL_MUTEX_LOCK, a0: id, a1: 0, a2: 0 }),
{
    syscall(SYSCALL_MUTEX_LOCK, [id, 0, 0])
}

/// Unlocks the mutex `id`.
pub fn sys_mutex_unlock(id: usize) -> (r: Ecall)
    ensures
        r == (Ecall::Short { id: SYSCALL_MUTEX_UNLOCK, a0: id, a1: 0, a2: 0 }),
{
    syscall(SYSCALL_MUTEX_UNLOCK, [id, 0, 0])
}

/// Creates a semaphore with `res_count` resources.
pub fn sys_semaphore_create(res_count: usize) -> (r: Ecall)
    ensures
        r == (Ecall::Short { id: SYSCALL_SEMAPHORE_CREATE, a0: res_count, a1: 0, a2: 0 }),
{
    syscall(SYSCALL_SEMAPHORE_CREATE, [res_count, 0, 0])
}

/// Gives a resource back to the semaphore `sem_id`.
pub fn sys_semaphore_up(sem_id: usize) -> (r: Ecall)
    ensures
        r == (Ecall::Short { id: SYSCALL_SEMAPHORE_UP, a0: sem_id, a1: 0, a2: 0 }),
{
    syscall(SYSCALL_SEMAPHORE_UP, [sem_id, 0, 0])
}

/// Switches the detection of deadlocks on or off.
pub fn sys_enable_deadlock_detect(enabled: usize) -> (r: Ecall)
    ensures
        r == (Ecall::Short { id: SYSCALL_ENABLE_DEADLOCK_DETECT, a0: enabled, a1: 0, a2: 0 }),
{
    syscall(SYSCALL_ENABLE_DEADLOCK_DETECT, [enabled, 0, 0])
}

/// Takes a resource from the semaphore `sem_id`.
pub fn sys_semaphore_down(sem_id: usize) -> (r: Ecall)
    ensures
        r == (Ecall::Short { id: SYSCALL_SEMAPHORE_DOWN, a0: sem_id, a1: 0, a2: 0 }),
{
    syscall(SYSCALL_SEMAPHORE_DOWN, [sem_id, 0, 0])
}

/// Creates a condition variable.
pub fn sys_condvar_create(arg: usize) -> (r: Ecall)
    ensures
        r == (Ecall::Short { id: SYSCALL_CONDVAR_CREATE, a0: arg, a1: 0, a2: 0 }),
{
    syscall(SYSCALL_CONDVAR_CREATE, [arg, 0, 0])
}

/// Signals the condition variable `condvar_id`.
pub fn sys_condvar_signal(condvar_id: usize) -> (r: Ecall)
    ensures
        r == (Ecall::Short { id: SYSCALL_CONDVAR_SIGNAL, a0: condvar_id, a1: 0, a2: 0 }),
{
    syscall(SYSCALL_CONDVAR_SIGNAL, [condvar_id, 0, 0])
}

/// Waits on the condition variable `condvar_id` with the mutex `mutex_id`.
pub fn sys_condvar_wait(condvar_id: usize, mutex_id: usize) -> (r: Ecall)
    ensures
        r == (Ecall::Short { id: SYSCALL_CONDVAR_WAIT, a0: condvar_id, a1: mutex_id, a2: 0 }),
{
    syscall(SYSCALL_CONDVAR_WAIT, [condvar_id, mutex_id, 0])
}

/// Sets the action for the signal `signum` from the record at `action`; the
/// old one goes to `old_action`.
pub fn sys_sigaction(signum: i32, action: usize, old_action: usize) -> (r: Ecall)
    ensures
        r == (Ecall::Short { id: SYSCALL_SIGACTION, a0: signum as usize, a1: action, a2: old_action }),
{
    syscall(SYSCALL_SIGACTION, [signum as usize, action, old_action])
}

/// Sets the mask of blocked signals.
pub fn sys_sigprocmask(mask: u32) -> (r: Ecall)
    ensures
        r == (Ecall::Short { id: SYSCALL_SIGPROCMASK, a0: mask as usize, a1: 0, a2: 0 }),
{
    syscall(SYSCALL_SIGPROCMASK, [mask as usize, 0, 0])
}

/// Returns from a signal handler.
pub fn sys_sigreturn() -> (r: Ecall)
    ensures
        r == (Ecall::Short { id: SYSCALL_SIGRETURN, a0: 0, a1: 0, a2: 0 }),
{
    syscall(SYSCALL_SIGRETURN, [0, 0, 0])
}

/// Sends the signal `signal` to the process `pid`.
pub fn sys_kill(pid: usize, signal: i32) -> (r: Ecall)
    ensures
        r == (Ecall::Short { id: SYSCALL_KILL, a0: pid, a1: signal as usize, a2: 0 }),
{
    syscall(SYSCALL_KILL, [pid, signal as usize, 0])
}

} // verus!
