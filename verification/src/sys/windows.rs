//! The Windows back-end: `LockFileEx` / `UnlockFileEx` over the whole file.

use vstd::prelude::*;

use crate::error::{io_error_meaning, Error};
use crate::lock::{LockKind, LockMode};
use crate::sys::{Platform, Verdict};

verus! {

/// The values that the `windows-sys` crate gives to the constants that the
/// Windows back-end passes to and reads from the kernel.
#[derive(Debug, Clone, Copy, PartialEq, Eq, Structural)]
pub struct WindowsConstants {
    /// `LOCKFILE_EXCLUSIVE_LOCK`
    pub lockfile_exclusive_lock: u32,
    /// `LOCKFILE_FAIL_IMMEDIATELY`
    pub lockfile_fail_immediately: u32,
    /// `FALSE`, the `BOOL` that a failed call returns.
    pub bool_false: i32,
}

/// The `dwFlags` of `LockFileEx`: `LOCKFILE_EXCLUSIVE_LOCK` for an exclusive
/// lock, then `LOCKFILE_FAIL_IMMEDIATELY` added in non-blocking mode.
pub open spec fn lock_file_flags(c: WindowsConstants, kind: LockKind, mode: LockMode) -> u32 {
    let f = if kind == LockKind::Exclusive {
        0u32 | c.lockfile_exclusive_lock
    } else {
        0u32
    };
    if mode == LockMode::NonBlocking {
        f | c.lockfile_fail_immediately
    } else {
        f
    }
}

/// Computes [`lock_file_flags`].
pub fn flags(c: &WindowsConstants, kind: LockKind, mode: LockMode) -> (flags: u32)
    ensures
        flags == lock_file_flags(*c, kind, mode),
{
    let mut f: u32 = 0;
    if kind == LockKind::Exclusive {
        f = f | c.lockfile_exclusive_lock;
    }
    if mode == LockMode::NonBlocking {
        f = f | c.lockfile_fail_immediately;
    }
    f
}

/// What a `LockFileEx` / `UnlockFileEx` reply means: anything but `FALSE` is
/// success, and a failure is mapped as an OS error.
pub open spec fn windows_verdict(
    c: WindowsConstants,
    platform: Platform,
    ret: i32,
    raw_os_error: Option<i32>,
    kind_would_block: bool,
    error: std::io::Error,
) -> Verdict {
    if ret != c.bool_false {
        Verdict::Succeeded
    } else {
        Verdict::Failed(io_error_meaning(error, kind_would_block, raw_os_error, platform))
    }
}

/// Judges a `LockFileEx` / `UnlockFileEx` reply (see [`windows_verdict`]).
pub fn judge_lock_file(
    c: &WindowsConstants,
    platform: &Platform,
    ret: i32,
    raw_os_error: Option<i32>,
    kind_would_block: bool,
    error: std::io::Error,
) -> (verdict: Verdict)
    ensures
        verdict == windows_verdict(*c, *platform, ret, raw_os_error, kind_would_block, error),
{
    if ret != c.bool_false {
        Verdict::Succeeded
    } else {
        Verdict::Failed(Error::from_io_parts(error, kind_would_block, raw_os_error, platform))
    }
}

} // verus!

verus! {

/// A shared blocking lock sets no flag; an exclusive lock sets
/// `LOCKFILE_EXCLUSIVE_LOCK`, and non-blocking mode adds
/// `LOCKFILE_FAIL_IMMEDIATELY`.
pub proof fn law_lock_file_flags(c: WindowsConstants)
    ensures
        lock_file_flags(c, LockKind::Shared, LockMode::Blocking) == 0,
        lock_file_flags(c, LockKind::Exclusive, LockMode::Blocking) == c.lockfile_exclusive_lock,
        lock_file_flags(c, LockKind::Shared, LockMode::NonBlocking) == c.lockfile_fail_immediately,
        lock_file_flags(c, LockKind::Exclusive, LockMode::NonBlocking) == c.lockfile_exclusive_lock
            | c.lockfile_fail_immediately,
{
    let e = c.lockfile_exclusive_lock;
    let f = c.lockfile_fail_immediately;
    assert(0u32 | e == e && 0u32 | f == f) by (bit_vector);
}

} // verus!
