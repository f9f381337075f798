//! Files as C programs ask for them: open flags, seek positions, file
//! status, and the error numbers that the calls answer with.

use vstd::prelude::*;
use axerrno::LinuxError;

verus! {

pub const O_RDONLY: u32 = 0;

pub const O_WRONLY: u32 = 1;

pub const O_RDWR: u32 = 2;

pub const O_CREAT: u32 = 0x40;

pub const O_TRUNC: u32 = 0x200;

pub const O_APPEND: u32 = 0x400;

pub const O_EXEC: u32 = 0x20_0000;

/// How a file is to be opened.
#[derive(Clone, Copy, Debug, PartialEq, Eq, Structural)]
pub struct OpenOptions {
    pub read: bool,
    pub write: bool,
    pub append: bool,
    pub truncate: bool,
    pub create: bool,
    pub create_new: bool,
}

/// Where a seek goes.
#[derive(Clone, Copy, Debug, PartialEq, Eq, Structural)]
pub enum SeekFrom {
    Start(u64),
    Current(i64),
    End(i64),
}

/// Why a call on a file fails.
#[derive(Clone, Copy, Debug, PartialEq, Eq, Structural)]
pub enum FileError {
    /// A pointer that has to point somewhere is null.
    BadAddress,
    /// An argument has a value that the call does not know.
    InvalidArgument,
    /// The table of open files is full.
    FileTableOverflow,
    /// The result does not fit in the buffer.
    OutOfRange,
}

/// What is known of a file, as `stat` answers it.
#[derive(Clone, Copy, Debug, PartialEq, Eq, Structural)]
pub struct Stat {
    pub st_dev: u64,
    pub st_ino: u64,
    pub st_mode: u32,
    pub st_nlink: u32,
    pub st_uid: u32,
    pub st_gid: u32,
    pub st_rdev: u64,
    pub st_size: i64,
    pub st_blksize: i64,
    pub st_blocks: i64,
}

/// How a call ends for its C caller: the value it returns, and the error
/// number it leaves behind when it fails.
#[derive(Clone, Copy, Debug, PartialEq, Eq, Structural)]
pub struct CReturn {
    pub value: i64,
    pub errno: Option<i32>,
}

/// The error number of an error, as `errno.h` has it.
pub open spec fn spec_errno(e: FileError) -> i32 {
    match e {
        FileError::BadAddress => 14,
        FileError::InvalidArgument => 22,
        FileError::FileTableOverflow => 23,
        FileError::OutOfRange => 34,
    }
}

/// The error number of an error, from `axerrno::LinuxError::code`: the
/// number that `errno.h` gives to `EFAULT`, `EINVAL`, `ENFILE` and
/// `ERANGE`.
#[verifier::external_body]
fn linux_code(e: FileError) -> (r: i32)
    ensures
        r == spec_errno(e),
{
    let error = match e {
        FileError::BadAddress => LinuxError::EFAULT,
        FileError::InvalidArgument => LinuxError::EINVAL,
        FileError::FileTableOverflow => LinuxError::ENFILE,
        FileError::OutOfRange => LinuxError::ERANGE,
    };
    error.code()
}

/// The options that open flags stand for.
pub open spec fn spec_flags_to_options(flags: i32) -> OpenOptions {
    let flags = flags as u32;
    OpenOptions {
        read: flags & 0b11 != O_WRONLY,
        write: flags & 0b11 != O_RDONLY,
        append: flags & O_APPEND != 0,
        truncate: flags & O_TRUNC != 0,
        create: flags & O_CREAT != 0,
        create_new: flags & O_EXEC != 0,
    }
}

/// Turns open flags into options: the lowest two bits say whether the
/// file is read, written or both, and one bit each asks to append, to
/// truncate, to create and to create anew.
pub fn flags_to_options(flags: i32, _mode: u32) -> (r: OpenOptions)
    ensures
        r == spec_flags_to_options(flags),
{
    let flags = flags as u32;
    let access = flags & 0b11;
    let mut options = OpenOptions {
        read: false,
        write: false,
        append: false,
        truncate: false,
        create: false,
        create_new: false,
    };
    if access == O_RDONLY {
        options.read = true;
    } else if access == O_WRONLY {
        options.write = true;
    } else {
        options.read = true;
        options.write = true;
    }
    if flags & O_APPEND != 0 {
        options.append = true;
    }
    if flags & O_TRUNC != 0 {
        options.truncate = true;
    }
    if flags & O_CREAT != 0 {
        options.create = true;
    }
    if flags & O_EXEC != 0 {
        options.create_new = true;
    }
    options
}

/// Where a seek by `offset` goes: from the start for `whence` 0, from the
/// current position for 1, from the end for 2. Any other `whence` is an
/// invalid argument.
pub fn ax_lseek(offset: i64, whence: i32) -> (r: Result<SeekFrom, FileError>)
    ensures
        whence == 0 ==> r == Ok::<SeekFrom, FileError>(SeekFrom::Start(offset as u64)),
        whence == 1 ==> r == Ok::<SeekFrom, FileError>(SeekFrom::Current(offset)),
        whence == 2 ==> r == Ok::<SeekFrom, FileError>(SeekFrom::End(offset)),
        !(0 <= whence <= 2) ==> r == Err::<SeekFrom, FileError>(FileError::InvalidArgument),
{
    if whence == 0 {
        Ok(SeekFrom::Start(offset as u64))
    } else if whence == 1 {
        Ok(SeekFrom::Current(offset))
    } else if whence == 2 {
        Ok(SeekFrom::End(offset))
    } else {
        Err(FileError::InvalidArgument)
    }
}

/// The status of a file of type `file_type` with the permission bits
/// `perm`, `size` bytes and `blocks` blocks.
pub open spec fn spec_stat_file(file_type: u8, perm: u16, size: u64, blocks: u64) -> Stat {
    Stat {
        st_dev: 0,
        st_ino: 1,
        st_mode: ((file_type as u32) << 12) | (perm as u32),
        st_nlink: 1,
        st_uid: 1000,
        st_gid: 1000,
        st_rdev: 0,
        st_size: size as i64,
        st_blksize: 512,
        st_blocks: blocks as i64,
    }
}

/// The status of a file: its type goes above the twelve permission bits
/// of the mode; owner, group, links and block size are fixed.
pub fn stat_file(file_type: u8, perm: u16, size: u64, blocks: u64) -> (r: Stat)
    ensures
        r == spec_stat_file(file_type, perm, size, blocks),
{
    let ty = file_type as u32;
    let perm = perm as u32;
    Stat {
        st_dev: 0,
        st_ino: 1,
        st_mode: (ty << 12) | perm,
        st_nlink: 1,
        st_uid: 1000,
        st_gid: 1000,
        st_rdev: 0,
        st_size: size as i64,
        st_blksize: 512,
        st_blocks: blocks as i64,
    }
}

/// Whether the path `cwd` and the byte that ends it fit in a buffer.
pub open spec fn cwd_fits(buf: Seq<u8>, cwd: Seq<u8>) -> bool {
    cwd.len() < buf.len()
}

/// A buffer after the path `cwd` was written to its start, with a zero
/// byte behind it.
pub open spec fn spec_getcwd(buf: Seq<u8>, cwd: Seq<u8>) -> Seq<u8> {
    cwd + seq![0u8] + buf.subrange(cwd.len() as int + 1, buf.len() as int)
}

/// Writes the path of the current directory, `cwd`, to the start of the
/// buffer, with a zero byte behind it. When the buffer is too short for
/// both, it is left as it is and the call fails as out of range.
pub fn ax_getcwd(buf: &mut Vec<u8>, cwd: &Vec<u8>) -> (r: Result<(), FileError>)
    ensures
        cwd_fits(old(buf)@, cwd@) ==> r is Ok && final(buf)@ == spec_getcwd(old(buf)@, cwd@),
        !cwd_fits(old(buf)@, cwd@) ==> r == Err::<(), FileError>(FileError::OutOfRange)
            && final(buf)@ == old(buf)@,
{
    let n = cwd.len();
    if n < buf.len() {
        let mut i: usize = 0;
        while i < n
            invariant
                n == cwd.len(),
                n < buf.len(),
                buf.len() == old(buf).len(),
                i <= n,
                forall|j: int| 0 <= j < i ==> buf@[j] == cwd@[j],
                forall|j: int| i <= j < buf.len() ==> buf@[j] == old(buf)@[j],
            decreases n - i,
        {
            buf[i] = cwd[i];
            i = i + 1;
        }
        buf[n] = 0;
        assert(buf@ =~= spec_getcwd(old(buf)@, cwd@));
        Ok(())
    } else {
        Err(FileError::OutOfRange)
    }
}

/// How a call that ended with `res` ends for its C caller: with the
/// value, or with -1 and the error number of the error.
pub open spec fn spec_c_return(res: Result<i64, FileError>) -> CReturn {
    match res {
        Ok(value) => CReturn { value, errno: None },
        Err(e) => CReturn { value: -1i64, errno: Some(spec_errno(e)) },
    }
}

/// Turns the end of a call into what its C caller sees.
pub fn c_return(res: Result<i64, FileError>) -> (r: CReturn)
    ensures
        r == spec_c_return(res),
{
    match res {
        Ok(value) => CReturn { value, errno: None },
        Err(e) => CReturn { value: -1, errno: Some(linux_code(e)) },
    }
}

} // verus!
