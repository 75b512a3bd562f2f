//! Directory handles for the `*at` family of system calls, without the calls.
//!
//! A handle owns one open directory descriptor. Every operation on a handle
//! consumes it and yields a [`Step`]: the one system call to issue, and the
//! descriptors to close once that call has returned. The raw result of the
//! call is then turned into a typed result by one of the `ret_*` functions.
//! Issuing the calls is left to the caller, so every decision made here is a
//! plain function of plain values. Paths and attribute names are [`Name`]s:
//! bytes without a zero among them.

pub mod error;
pub mod name;
pub mod syscall;
pub mod handle;
pub mod reply;

pub use error::Error;
pub use handle::AtDir;
pub use name::Name;
pub use syscall::{Step, Syscall, Timespec};
