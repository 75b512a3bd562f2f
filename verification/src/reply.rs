//! Reading the raw result of a system call.
//!
//! Each function takes what the call returned and the error number that it
//! left, which means something only where the call failed.

use crate::error::{denies_permission, permission_denied, Error};
use crate::handle::AtDir;
use vstd::prelude::*;

verus! {

impl AtDir {
    /// What [`AtDir::ret_access`] makes of a permission check that returned
    /// `success` and left `errno`, where `denied` says whether `errno`
    /// stands for a denied permission.
    pub open spec fn access_result(success: i32, errno: i32, denied: bool) -> Result<bool, Error> {
        if success != -1 {
            Ok(true)
        } else if denied {
            Ok(false)
        } else {
            Err(Error::Os(errno))
        }
    }

    /// What sealing a receive buffer of `capacity` bytes gives for a count of
    /// `len` bytes.
    pub open spec fn sealed(capacity: nat, len: int) -> Result<usize, Error> {
        if 0 <= len <= capacity {
            Ok(len as usize)
        } else {
            Err(Error::BufferTooSmall)
        }
    }

    /// What [`AtDir::ret_len`] makes of a call that filled a receive buffer
    /// of `capacity` bytes, returned `len` and left `errno`.
    pub open spec fn len_result(len: int, errno: i32, capacity: nat) -> Result<usize, Error> {
        if len == -1 {
            Err(Error::Os(errno))
        } else {
            Self::sealed(capacity, len)
        }
    }

    /// What [`AtDir::ret_readlink`] makes of a call that read a symbolic link
    /// into a receive buffer of `capacity` bytes, returned `len` and left
    /// `errno`.
    pub open spec fn readlink_result(len: int, errno: i32, capacity: nat) -> Result<usize, Error> {
        if len == -1 {
            Err(Error::Os(errno))
        } else if len == capacity {
            Err(Error::BufferTooSmall)
        } else {
            Self::sealed(capacity, len)
        }
    }

    /// The result of a call that returns a new descriptor, as
    /// [`AtDir::open`] asks for: a negative `fd` is the failure of the call.
    pub fn ret_fd(fd: i32, errno: i32) -> (r: Result<i32, Error>)
        ensures
            r == (if fd < 0 {
                Err(Error::Os(errno))
            } else {
                Ok(fd)
            }),
    {
        if fd < 0 {
            Err(Error::Os(errno))
        } else {
            Ok(fd)
        }
    }

    /// The result of a call that returns nothing but whether it worked: a
    /// negative `success` is its failure.
    pub fn ret_err(success: i32, errno: i32) -> (r: Result<(), Error>)
        ensures
            r == (if success < 0 {
                Err(Error::Os(errno))
            } else {
                Ok(())
            }),
    {
        if success < 0 {
            Err(Error::Os(errno))
        } else {
            Ok(())
        }
    }

    /// The result of a call that stores metadata, as [`AtDir::stat`] and
    /// [`AtDir::statx`] ask for: `statbuf` is what the call was given to
    /// fill, and it is handed on unless the call returned -1.
    pub fn ret_stat<T>(success: i32, errno: i32, statbuf: T) -> (r: Result<T, Error>)
        ensures
            r == (if success == -1 {
                Err(Error::Os(errno))
            } else {
                Ok(statbuf)
            }),
    {
        if success == -1 {
            Err(Error::Os(errno))
        } else {
            Ok(statbuf)
        }
    }

    /// The result of a permission check for which it is known whether its
    /// error number stands for a denied permission. A denied permission is
    /// an answer, `false`, and no failure.
    pub fn ret_access_with(success: i32, errno: i32, denied: bool) -> (r: Result<bool, Error>)
        ensures
            r == Self::access_result(success, errno, denied),
            r == Ok::<bool, Error>(true) <==> success != -1,
            r == Ok::<bool, Error>(false) <==> success == -1 && denied,
            r is Err <==> success == -1 && !denied,
            r is Err ==> r->Err_0 == Error::Os(errno),
    {
        if success != -1 {
            Ok(true)
        } else if denied {
            Ok(false)
        } else {
            Err(Error::Os(errno))
        }
    }

    /// The result of a permission check, as [`AtDir::access`] asks for. The
    /// answer is `false` exactly when the check failed and the standard
    /// library takes its error number for a denied permission; every other
    /// failure is an error.
    pub fn ret_access(success: i32, errno: i32) -> (r: Result<bool, Error>)
        ensures
            r == Self::access_result(success, errno, denies_permission(errno)),
            r == Ok::<bool, Error>(true) <==> success != -1,
            r == Ok::<bool, Error>(false) <==> success == -1 && denies_permission(errno),
            r is Err <==> success == -1 && !denies_permission(errno),
            r is Err ==> r->Err_0 == Error::Os(errno),
    {
        if success != -1 {
            Ok(true)
        } else {
            Self::ret_access_with(success, errno, permission_denied(errno))
        }
    }

    /// Seals a receive buffer of `capacity` bytes after a call wrote `len`
    /// bytes into it: the count is good if the buffer can hold that many.
    pub fn rx_done(capacity: usize, len: usize) -> (r: Result<usize, Error>)
        ensures
            r == Self::sealed(capacity as nat, len as int),
            r is Ok <==> len <= capacity,
            r is Ok ==> r->Ok_0 == len,
    {
        if len <= capacity {
            Ok(len)
        } else {
            Err(Error::BufferTooSmall)
        }
    }

    /// The result of a call that fills a receive buffer of `capacity` bytes
    /// and returns the number of bytes written, as [`AtDir::fgetxattr`] and
    /// [`AtDir::flistxattr`] ask for. The count that comes back has been held
    /// against the capacity: that many bytes of the buffer are the result.
    pub fn ret_len(len: isize, errno: i32, capacity: usize) -> (r: Result<usize, Error>)
        ensures
            r == Self::len_result(len as int, errno, capacity as nat),
            r is Ok <==> 0 <= len <= capacity,
            r is Ok ==> r->Ok_0 == len,
            len == -1 ==> r == Err::<usize, Error>(Error::Os(errno)),
    {
        if len == -1 {
            Err(Error::Os(errno))
        } else if len < 0 {
            Err(Error::BufferTooSmall)
        } else {
            Self::rx_done(capacity, len as usize)
        }
    }

    /// The result of reading a symbolic link into a receive buffer of
    /// `capacity` bytes, as [`AtDir::readlink`] asks for. A count that
    /// equals the capacity may stand for a longer link cut short, so it is
    /// refused; a smaller one says how many bytes of the buffer are the link.
    pub fn ret_readlink(len: isize, errno: i32, capacity: usize) -> (r: Result<usize, Error>)
        ensures
            r == Self::readlink_result(len as int, errno, capacity as nat),
            r is Ok <==> 0 <= len < capacity,
            r is Ok ==> r->Ok_0 == len,
            len == -1 ==> r == Err::<usize, Error>(Error::Os(errno)),
            len == capacity ==> r == Err::<usize, Error>(Error::BufferTooSmall),
    {
        if len == -1 {
            Err(Error::Os(errno))
        } else if len < 0 {
            Err(Error::BufferTooSmall)
        } else if len as usize == capacity {
            Err(Error::BufferTooSmall)
        } else {
            Self::rx_done(capacity, len as usize)
        }
    }

    /// A symbolic link comes back whole or not at all. The system call
    /// writes as much of a link of `n` bytes as a buffer of `capacity` bytes
    /// holds and returns the number of bytes written. With room to spare
    /// that count is `n`, and it is accepted; without, it is `capacity`, and
    /// it is refused, so that no part of a link is ever taken for the link.
    pub proof fn readlink_is_whole_or_refused(n: usize, capacity: usize, errno: i32)
        ensures
            n < capacity ==> Self::readlink_result(n as int, errno, capacity as nat) == Ok::<
                usize,
                Error,
            >(n),
            n >= capacity ==> Self::readlink_result(capacity as int, errno, capacity as nat) == Err::<
                usize,
                Error,
            >(Error::BufferTooSmall),
    {
    }
}

} // verus!
