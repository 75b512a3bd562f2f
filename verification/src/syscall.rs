//! The system calls that the handle operations ask for, as plain values.

use crate::name::Name;
use vstd::prelude::*;

verus! {

/// A point in time as the timestamp call takes it: seconds and nanoseconds.
#[derive(Debug, Clone, Copy, PartialEq, Eq)]
pub struct Timespec {
    pub sec: i64,
    pub nsec: i64,
}

/// One system call with all of its arguments, in the order in which the
/// operating system takes them. A `capacity` is the size of the receive
/// buffer that the call may fill.
#[allow(inconsistent_fields)]
#[derive(Debug, Clone, Copy, PartialEq, Eq)]
pub enum Syscall<'a> {
    /// `open` on a path that must name a directory, with the descriptor
    /// closed on exec.
    OpenDirectory { path: Name<'a> },
    OpenAt { dirfd: i32, path: Name<'a>, flags: i32, mode: i32 },
    Close { fd: i32 },
    FstatAt { dirfd: i32, path: Name<'a>, flags: i32 },
    FaccessAt { dirfd: i32, path: Name<'a>, mode: i32, flags: i32 },
    FchmodAt { dirfd: i32, path: Name<'a>, mode: u32, flags: i32 },
    FchownAt { dirfd: i32, path: Name<'a>, owner: u32, group: u32, flags: i32 },
    MkdirAt { dirfd: i32, path: Name<'a>, mode: u32 },
    LinkAt { olddirfd: i32, oldpath: Name<'a>, newdirfd: i32, newpath: Name<'a>, flags: i32 },
    SymlinkAt { target: Name<'a>, newdirfd: i32, linkpath: Name<'a> },
    ReadlinkAt { dirfd: i32, path: Name<'a>, capacity: usize },
    Statx { dirfd: i32, path: Name<'a>, flags: i32, mask: u32 },
    UnlinkAt { dirfd: i32, path: Name<'a>, flags: i32 },
    UtimensAt { dirfd: i32, path: Name<'a>, atime: Timespec, mtime: Timespec, flags: i32 },
    Fgetxattr { fd: i32, name: Name<'a>, capacity: usize },
    Fsetxattr { fd: i32, name: Name<'a>, value: &'a [u8], flags: i32 },
    Fremovexattr { fd: i32, name: Name<'a> },
    Flistxattr { fd: i32, capacity: usize },
    RenameAt { olddirfd: i32, oldpath: Name<'a>, newdirfd: i32, newpath: Name<'a> },
}

impl<'a> Syscall<'a> {
    /// The call resolves one of its paths against the descriptor `fd`.
    pub open spec fn resolves_against(&self, fd: i32) -> bool {
        match *self {
            Syscall::OpenDirectory { .. } => false,
            Syscall::OpenAt { dirfd, .. } => dirfd == fd,
            Syscall::Close { .. } => false,
            Syscall::FstatAt { dirfd, .. } => dirfd == fd,
            Syscall::FaccessAt { dirfd, .. } => dirfd == fd,
            Syscall::FchmodAt { dirfd, .. } => dirfd == fd,
            Syscall::FchownAt { dirfd, .. } => dirfd == fd,
            Syscall::MkdirAt { dirfd, .. } => dirfd == fd,
            Syscall::LinkAt { olddirfd, newdirfd, .. } => olddirfd == fd || newdirfd == fd,
            Syscall::SymlinkAt { newdirfd, .. } => newdirfd == fd,
            Syscall::ReadlinkAt { dirfd, .. } => dirfd == fd,
            Syscall::Statx { dirfd, .. } => dirfd == fd,
            Syscall::UnlinkAt { dirfd, .. } => dirfd == fd,
            Syscall::UtimensAt { dirfd, .. } => dirfd == fd,
            Syscall::Fgetxattr { .. } => false,
            Syscall::Fsetxattr { .. } => false,
            Syscall::Fremovexattr { .. } => false,
            Syscall::Flistxattr { .. } => false,
            Syscall::RenameAt { olddirfd, newdirfd, .. } => olddirfd == fd || newdirfd == fd,
        }
    }
}

/// What one operation on a handle asks of its caller: issue `call`, then
/// close every descriptor in `release`, in that order, whether or not the
/// call succeeded. What those closes return is of no interest.
#[derive(Debug, PartialEq, Eq)]
pub struct Step<'a> {
    pub call: Syscall<'a>,
    pub release: Vec<i32>,
}

impl<'a> Step<'a> {
    /// The descriptor `fd` is closed once the call of this step has returned.
    pub open spec fn closes(&self, fd: i32) -> bool {
        self.release@.contains(fd)
    }

    /// The call resolves its paths against open descriptors that this step
    /// closes, and against nothing else: never against a working directory,
    /// which a negative number stands for.
    pub open spec fn anchored(&self) -> bool {
        forall|fd: i32| #[trigger] self.call.resolves_against(fd) ==> fd >= 0 && self.closes(fd)
    }
}

} // verus!
