//! The directory handle and the operations that consume it.

use crate::error::Error;
use crate::name::Name;
use crate::syscall::{Step, Syscall, Timespec};
use vstd::prelude::*;

verus! {

/// A directory handle: the exclusive owner of one open directory descriptor.
///
/// A handle is made by [`AtDir::new`] and by nothing else, it cannot be
/// copied, and every operation takes it by value. So a handle authorises one
/// call, and the step of that call names its descriptor for closing.
#[derive(Debug)]
pub struct AtDir {
    root: i32,
}

impl AtDir {
    #[verifier::type_invariant]
    spec fn holds_descriptor(self) -> bool {
        self.root >= 0
    }

    /// The descriptor that this handle owns.
    pub closed spec fn fd(&self) -> i32 {
        self.root
    }

    /// The descriptor that a call with an optional second handle resolves its
    /// second path against: that of `other` if there is one, else this
    /// handle's own.
    pub open spec fn target_fd(&self, other: Option<AtDir>) -> i32 {
        match other {
            Some(dir) => dir.fd(),
            None => self.fd(),
        }
    }

    /// The descriptors that a call with an optional second handle gives up:
    /// this handle's, then that of `other` if there is one.
    pub open spec fn given_up(&self, other: Option<AtDir>) -> Seq<i32> {
        match other {
            Some(dir) => seq![self.fd(), dir.fd()],
            None => seq![self.fd()],
        }
    }

    /// The call that opens `path` as a directory. Its result goes to
    /// [`AtDir::new`].
    pub fn open_dir<'a>(path: Name<'a>) -> (call: Syscall<'a>)
        ensures
            call == (Syscall::OpenDirectory { path }),
    {
        Syscall::OpenDirectory { path }
    }

    /// What [`AtDir::new`] makes of an open that returned `fd` and left
    /// `errno`.
    pub closed spec fn opened(fd: i32, errno: i32) -> Result<AtDir, Error> {
        if fd < 0 {
            Err(Error::Os(errno))
        } else {
            Ok(AtDir { root: fd })
        }
    }

    /// The call by which a handle that no operation has used gives up its
    /// descriptor.
    pub open spec fn released(&self) -> Syscall<'static> {
        Syscall::Close { fd: self.fd() }
    }

    /// Makes the handle for a directory that was just opened: `fd` is what the
    /// call of [`AtDir::open_dir`] returned and `errno` the error number
    /// that it left. A negative `fd` is the failure of that call.
    pub fn new(fd: i32, errno: i32) -> (r: Result<AtDir, Error>)
        ensures
            r == Self::opened(fd, errno),
            fd >= 0 ==> r is Ok && r->Ok_0.fd() == fd,
            fd < 0 ==> r is Err && r->Err_0 == Error::Os(errno),
    {
        if fd < 0 {
            Err(Error::Os(errno))
        } else {
            Ok(AtDir { root: fd })
        }
    }

    /// Gives up a handle that no operation has used: its descriptor is to be
    /// closed, and whether that close fails is of no interest.
    pub fn release(self) -> (call: Syscall<'static>)
        ensures
            call == self.released(),
            call == (Syscall::Close { fd: self.fd() }),
            self.fd() >= 0,
    {
        proof {
            use_type_invariant(&self);
        }
        Syscall::Close { fd: self.root }
    }

    /// A directory that was opened, and whose handle is then given up
    /// unused, is closed again: the handle closes the very descriptor that
    /// the open returned.
    pub proof fn unused_handle_closes_what_was_opened(fd: i32, errno: i32)
        requires
            fd >= 0,
        ensures
            Self::opened(fd, errno) matches Ok(dir) && dir.released() == (Syscall::Close { fd }),
    {
    }

    /// The step in which this handle and, if there is one, `other` are spent
    /// on `call`.
    fn spend<'a>(self, other: Option<AtDir>, call: Syscall<'a>) -> (step: Step<'a>)
        ensures
            step.call == call,
            (forall|fd: i32| #[trigger]
                call.resolves_against(fd) ==> fd == self.fd() || fd == self.target_fd(other))
                ==> step.anchored(),
            step.release@ == self.given_up(other),
            step.closes(self.fd()),
            self.fd() >= 0,
            other matches Some(dir) ==> step.closes(dir.fd()) && dir.fd() >= 0,
    {
        proof {
            use_type_invariant(&self);
        }
        let mut release: Vec<i32> = Vec::new();
        release.push(self.root);
        if let Some(dir) = other {
            proof {
                use_type_invariant(&dir);
            }
            release.push(dir.root);
        }
        assert(release@ =~= self.given_up(other));
        // Where each descriptor stands in the list shows that the list holds it.
        assert(release@[0] == self.fd());
        assert(other matches Some(dir) ==> release@[1] == dir.fd());
        Step { call, release }
    }

    /// Opens `pathname` relative to the directory. The descriptor that the
    /// call returns belongs to the caller; see [`AtDir::ret_fd`].
    pub fn open<'a>(self, pathname: Name<'a>, flags: i32, mode: i32) -> (step: Step<'a>)
        ensures
            step.call == (Syscall::OpenAt { dirfd: self.fd(), path: pathname, flags, mode }),
            step.release@ == seq![self.fd()],
            step.closes(self.fd()),
            step.anchored(),
    {
        let call = Syscall::OpenAt { dirfd: self.root, path: pathname, flags, mode };
        self.spend(None, call)
    }

    /// Closes `fd`, a descriptor that the caller got earlier. The handle's own
    /// descriptor is closed after it, as after every operation.
    pub fn close(self, fd: i32) -> (step: Step<'static>)
        ensures
            step.call == (Syscall::Close { fd }),
            step.release@ == seq![self.fd()],
            step.closes(self.fd()),
            step.anchored(),
            self.fd() >= 0,
    {
        self.spend(None, Syscall::Close { fd })
    }

    /// Asks for the metadata of `pathname`; `flags` says whether a symbolic
    /// link is followed. See [`AtDir::ret_stat`].
    pub fn stat<'a>(self, pathname: Name<'a>, flags: i32) -> (step: Step<'a>)
        ensures
            step.call == (Syscall::FstatAt { dirfd: self.fd(), path: pathname, flags }),
            step.release@ == seq![self.fd()],
            step.closes(self.fd()),
            step.anchored(),
    {
        let call = Syscall::FstatAt { dirfd: self.root, path: pathname, flags };
        self.spend(None, call)
    }

    /// Asks whether `pathname` may be accessed in the way `mode` says. See
    /// [`AtDir::ret_access`].
    pub fn access<'a>(self, pathname: Name<'a>, mode: i32, flags: i32) -> (step: Step<'a>)
        ensures
            step.call == (Syscall::FaccessAt { dirfd: self.fd(), path: pathname, mode, flags }),
            step.release@ == seq![self.fd()],
            step.closes(self.fd()),
            step.anchored(),
    {
        let call = Syscall::FaccessAt { dirfd: self.root, path: pathname, mode, flags };
        self.spend(None, call)
    }

    /// Changes the permission bits of `pathname`.
    pub fn chmod<'a>(self, pathname: Name<'a>, mode: u32, flags: i32) -> (step: Step<'a>)
        ensures
            step.call == (Syscall::FchmodAt { dirfd: self.fd(), path: pathname, mode, flags }),
            step.release@ == seq![self.fd()],
            step.closes(self.fd()),
            step.anchored(),
    {
        let call = Syscall::FchmodAt { dirfd: self.root, path: pathname, mode, flags };
        self.spend(None, call)
    }

    /// Changes the owner and the group of `pathname`.
    pub fn chown<'a>(self, pathname: Name<'a>, owner: u32, group: u32, flags: i32) -> (step: Step<'a>)
        ensures
            step.call == (Syscall::FchownAt {
                dirfd: self.fd(),
                path: pathname,
                owner,
                group,
                flags,
            }),
            step.release@ == seq![self.fd()],
            step.closes(self.fd()),
            step.anchored(),
    {
        let call = Syscall::FchownAt { dirfd: self.root, path: pathname, owner, group, flags };
        self.spend(None, call)
    }

    /// Creates the directory `pathname`.
    pub fn mkdir<'a>(self, pathname: Name<'a>, mode: u32) -> (step: Step<'a>)
        ensures
            step.call == (Syscall::MkdirAt { dirfd: self.fd(), path: pathname, mode }),
            step.release@ == seq![self.fd()],
            step.closes(self.fd()),
            step.anchored(),
    {
        let call = Syscall::MkdirAt { dirfd: self.root, path: pathname, mode };
        self.spend(None, call)
    }

    /// Makes `newpath` a hard link to `oldpath`. `oldpath` is resolved
    /// against this handle; `newpath` against `newdir` if there is one, else
    /// against this handle too. Both handles are spent.
    pub fn link<'a>(
        self,
        oldpath: Name<'a>,
        newdir: Option<AtDir>,
        newpath: Name<'a>,
        flags: i32,
    ) -> (step: Step<'a>)
        ensures
            step.call == (Syscall::LinkAt {
                olddirfd: self.fd(),
                oldpath,
                newdirfd: self.target_fd(newdir),
                newpath,
                flags,
            }),
            step.release@ == self.given_up(newdir),
            step.closes(self.fd()),
            step.anchored(),
            newdir matches Some(dir) ==> step.closes(dir.fd()),
    {
        let newdirfd: i32 = match &newdir {
            Some(dir) => dir.root,
            None => self.root,
        };
        let call = Syscall::LinkAt { olddirfd: self.root, oldpath, newdirfd, newpath, flags };
        self.spend(newdir, call)
    }

    /// Creates `linkpath` as a symbolic link that holds `target`. The link
    /// comes first and the target second here; the system call takes them the
    /// other way round.
    pub fn symlink<'a>(self, linkpath: Name<'a>, target: Name<'a>) -> (step: Step<'a>)
        ensures
            step.call == (Syscall::SymlinkAt { target, newdirfd: self.fd(), linkpath }),
            step.release@ == seq![self.fd()],
            step.closes(self.fd()),
            step.anchored(),
    {
        let call = Syscall::SymlinkAt { target, newdirfd: self.root, linkpath };
        self.spend(None, call)
    }

    /// Reads what the symbolic link `pathname` holds into a receive buffer
    /// of `capacity` bytes. See [`AtDir::ret_readlink`].
    pub fn readlink<'a>(self, pathname: Name<'a>, capacity: usize) -> (step: Step<'a>)
        ensures
            step.call == (Syscall::ReadlinkAt { dirfd: self.fd(), path: pathname, capacity }),
            step.release@ == seq![self.fd()],
            step.closes(self.fd()),
            step.anchored(),
    {
        let call = Syscall::ReadlinkAt { dirfd: self.root, path: pathname, capacity };
        self.spend(None, call)
    }

    /// Asks for the extended metadata of `pathname`; `mask` names the fields
    /// that the caller wants. See [`AtDir::ret_stat`].
    pub fn statx<'a>(self, pathname: Name<'a>, flags: i32, mask: u32) -> (step: Step<'a>)
        ensures
            step.call == (Syscall::Statx { dirfd: self.fd(), path: pathname, flags, mask }),
            step.release@ == seq![self.fd()],
            step.closes(self.fd()),
            step.anchored(),
    {
        let call = Syscall::Statx { dirfd: self.root, path: pathname, flags, mask };
        self.spend(None, call)
    }

    /// Removes the name `pathname`; `flags` says whether it names a
    /// directory.
    pub fn unlink<'a>(self, pathname: Name<'a>, flags: i32) -> (step: Step<'a>)
        ensures
            step.call == (Syscall::UnlinkAt { dirfd: self.fd(), path: pathname, flags }),
            step.release@ == seq![self.fd()],
            step.closes(self.fd()),
            step.anchored(),
    {
        let call = Syscall::UnlinkAt { dirfd: self.root, path: pathname, flags };
        self.spend(None, call)
    }

    /// Sets the timestamps of `path`: `times` holds the time of last access,
    /// then the time of last modification.
    pub fn utimens<'a>(self, path: Name<'a>, times: &[Timespec; 2], flag: i32) -> (step: Step<'a>)
        ensures
            step.call == (Syscall::UtimensAt {
                dirfd: self.fd(),
                path,
                atime: times@[0],
                mtime: times@[1],
                flags: flag,
            }),
            step.release@ == seq![self.fd()],
            step.closes(self.fd()),
            step.anchored(),
    {
        let call = Syscall::UtimensAt {
            dirfd: self.root,
            path,
            atime: times[0],
            mtime: times[1],
            flags: flag,
        };
        self.spend(None, call)
    }

    /// Reads the extended attribute `name` of the open file `filedes` into a
    /// receive buffer of `capacity` bytes. See [`AtDir::ret_len`].
    pub fn fgetxattr<'a>(filedes: i32, name: Name<'a>, capacity: usize) -> (call: Syscall<'a>)
        ensures
            call == (Syscall::Fgetxattr { fd: filedes, name, capacity }),
    {
        Syscall::Fgetxattr { fd: filedes, name, capacity }
    }

    /// Sets the extended attribute `name` of the open file `filedes` to
    /// `value`; `flags` may ask that the attribute be new, or that it exist.
    pub fn fsetxattr<'a>(filedes: i32, name: Name<'a>, value: &'a [u8], flags: i32) -> (call:
        Syscall<'a>)
        ensures
            call == (Syscall::Fsetxattr { fd: filedes, name, value, flags }),
    {
        Syscall::Fsetxattr { fd: filedes, name, value, flags }
    }

    /// Removes the extended attribute `name` of the open file `filedes`.
    pub fn fremovexattr<'a>(filedes: i32, name: Name<'a>) -> (call: Syscall<'a>)
        ensures
            call == (Syscall::Fremovexattr { fd: filedes, name }),
    {
        Syscall::Fremovexattr { fd: filedes, name }
    }

    /// Reads the names of the extended attributes of the open file
    /// `filedes`, as the operating system strings them together, into a
    /// receive buffer of `capacity` bytes. See [`AtDir::ret_len`].
    pub fn flistxattr(filedes: i32, capacity: usize) -> (call: Syscall<'static>)
        ensures
            call == (Syscall::Flistxattr { fd: filedes, capacity }),
    {
        Syscall::Flistxattr { fd: filedes, capacity }
    }

    /// Renames `oldname` to `newname`. `oldname` is resolved against this
    /// handle; `newname` against `newroot` if there is one, else against this
    /// handle too. Both handles are spent.
    pub fn rename<'a>(self, oldname: Name<'a>, newroot: Option<AtDir>, newname: Name<'a>) -> (step:
        Step<'a>)
        ensures
            step.call == (Syscall::RenameAt {
                olddirfd: self.fd(),
                oldpath: oldname,
                newdirfd: self.target_fd(newroot),
                newpath: newname,
            }),
            step.release@ == self.given_up(newroot),
            step.closes(self.fd()),
            step.anchored(),
            newroot matches Some(dir) ==> step.closes(dir.fd()),
    {
        let newdirfd: i32 = match &newroot {
            Some(dir) => dir.root,
            None => self.root,
        };
        let call = Syscall::RenameAt {
            olddirfd: self.root,
            oldpath: oldname,
            newdirfd,
            newpath: newname,
        };
        self.spend(newroot, call)
    }
}

} // verus!
