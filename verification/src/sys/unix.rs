//! The Unix back-ends: `flock(2)` and open-file-description `fcntl(2)` locks.

use vstd::prelude::*;

use crate::error::{io_error_meaning, Error};
use crate::lock::{LockKind, LockMode};
use crate::sys::{Platform, Verdict};

verus! {

/// The values that the `libc` crate gives, on the target at hand, to the
/// constants that the Unix back-ends pass to and read from the kernel.
#[derive(Debug, Clone, Copy, PartialEq, Eq, Structural)]
pub struct UnixConstants {
    /// `libc::LOCK_SH`
    pub lock_sh: i32,
    /// `libc::LOCK_EX`
    pub lock_ex: i32,
    /// `libc::LOCK_NB`
    pub lock_nb: i32,
    /// `libc::LOCK_UN`
    pub lock_un: i32,
    /// `libc::F_RDLCK`
    pub f_rdlck: i32,
    /// `libc::F_WRLCK`
    pub f_wrlck: i32,
    /// `libc::F_UNLCK`
    pub f_unlck: i32,
    /// `libc::SEEK_SET`
    pub seek_set: i32,
    /// `libc::EINTR`
    pub eintr: i32,
    /// `libc::EACCES`
    pub eacces: i32,
    /// `libc::EAGAIN`
    pub eagain: i32,
    /// `libc::EINVAL`
    pub einval: i32,
    /// `libc::ENOTSUP`
    pub enotsup: i32,
    /// `libc::EOPNOTSUPP`
    pub eopnotsupp: i32,
}

/// The Unix families that provide open-file-description locks, each with its
/// own numbering of the `F_OFD_SETLK` / `F_OFD_SETLKW` commands.
#[derive(Debug, Clone, Copy, PartialEq, Eq, Structural)]
pub enum OfdTarget {
    /// Linux and Android: `F_OFD_SETLK` = 37, `F_OFD_SETLKW` = 38.
    LinuxOrAndroid,
    /// Apple platforms: `F_OFD_SETLK` = 90, `F_OFD_SETLKW` = 91.
    Apple,
    /// illumos: `F_OFD_SETLK` = 48, `F_OFD_SETLKW` = 49.
    Illumos,
}

impl OfdTarget {
    /// The non-blocking `F_OFD_SETLK` command.
    pub open spec fn spec_setlk(self) -> i32 {
        match self {
            OfdTarget::LinuxOrAndroid => 37,
            OfdTarget::Apple => 90,
            OfdTarget::Illumos => 48,
        }
    }

    /// The blocking `F_OFD_SETLKW` command.
    pub open spec fn spec_setlkw(self) -> i32 {
        match self {
            OfdTarget::LinuxOrAndroid => 38,
            OfdTarget::Apple => 91,
            OfdTarget::Illumos => 49,
        }
    }

    /// The non-blocking `F_OFD_SETLK` command of this family.
    pub fn setlk(self) -> (command: i32)
        ensures
            command == self.spec_setlk(),
    {
        match self {
            OfdTarget::LinuxOrAndroid => 37,
            OfdTarget::Apple => 90,
            OfdTarget::Illumos => 48,
        }
    }

    /// The blocking `F_OFD_SETLKW` command of this family.
    pub fn setlkw(self) -> (command: i32)
        ensures
            command == self.spec_setlkw(),
    {
        match self {
            OfdTarget::LinuxOrAndroid => 38,
            OfdTarget::Apple => 91,
            OfdTarget::Illumos => 49,
        }
    }
}

/// The reason given when the kernel or the filesystem refuses OFD locks.
pub const OFD_UNSUPPORTED: &'static str =
    "open-file-description locks are not supported by this OS version or filesystem";

/// The reason given on Unix targets that have no OFD locks at all.
pub const OFD_UNAVAILABLE: &'static str = "open-file-description locks are unavailable on this Unix target";

/// The `flock(2)` operation for a lock of `kind`: `LOCK_SH` or `LOCK_EX`,
/// with `LOCK_NB` added in non-blocking mode.
pub open spec fn flock_operation(c: UnixConstants, kind: LockKind, mode: LockMode) -> i32 {
    let base = match kind {
        LockKind::Shared => c.lock_sh,
        LockKind::Exclusive => c.lock_ex,
    };
    match mode {
        LockMode::Blocking => base,
        LockMode::NonBlocking => base | c.lock_nb,
    }
}

/// Computes [`flock_operation`].
pub fn flock_op(c: &UnixConstants, kind: LockKind, mode: LockMode) -> (operation: i32)
    ensures
        operation == flock_operation(*c, kind, mode),
{
    let base = match kind {
        LockKind::Shared => c.lock_sh,
        LockKind::Exclusive => c.lock_ex,
    };
    match mode {
        LockMode::Blocking => base,
        LockMode::NonBlocking => base | c.lock_nb,
    }
}

/// The `fcntl(2)` command that sets an OFD lock: `F_OFD_SETLKW` when blocking,
/// `F_OFD_SETLK` otherwise. Releasing uses `F_OFD_SETLK`, which never blocks.
pub open spec fn ofd_command(target: OfdTarget, mode: LockMode) -> i32 {
    match mode {
        LockMode::Blocking => target.spec_setlkw(),
        LockMode::NonBlocking => target.spec_setlk(),
    }
}

/// Computes [`ofd_command`].
pub fn setlk_cmd(target: OfdTarget, mode: LockMode) -> (command: i32)
    ensures
        command == ofd_command(target, mode),
{
    match mode {
        LockMode::Blocking => target.setlkw(),
        LockMode::NonBlocking => target.setlk(),
    }
}

/// The `l_type` of the `struct flock` that requests a lock of `kind`.
pub open spec fn ofd_lock_type(c: UnixConstants, kind: LockKind) -> i32 {
    match kind {
        LockKind::Shared => c.f_rdlck,
        LockKind::Exclusive => c.f_wrlck,
    }
}

/// Computes [`ofd_lock_type`].
pub fn lock_type(c: &UnixConstants, kind: LockKind) -> (l_type: i32)
    ensures
        l_type == ofd_lock_type(*c, kind),
{
    match kind {
        LockKind::Shared => c.f_rdlck,
        LockKind::Exclusive => c.f_wrlck,
    }
}

/// What a `flock(2)` call that returned `ret` means: 0 is success; a failure
/// with `EINTR` is retried; any other failure is mapped as an OS error.
pub open spec fn flock_verdict(
    c: UnixConstants,
    platform: Platform,
    ret: i32,
    raw_os_error: Option<i32>,
    kind_would_block: bool,
    error: std::io::Error,
) -> Verdict {
    if ret == 0 {
        Verdict::Succeeded
    } else if raw_os_error == Some(c.eintr) {
        Verdict::Retry
    } else {
        Verdict::Failed(io_error_meaning(error, kind_would_block, raw_os_error, platform))
    }
}

/// What an OFD `fcntl(2)` call that returned `ret` means: anything but -1 is
/// success. On failure the OS code (0 when there is none) decides: `EINTR` is
/// retried; `EACCES` and `EAGAIN` are contention when a lock was requested;
/// `EINVAL`, `ENOTSUP` and `EOPNOTSUPP` mean that OFD locks are unsupported;
/// anything else is an I/O error.
pub open spec fn fcntl_verdict(
    c: UnixConstants,
    contention_is_would_block: bool,
    ret: i32,
    raw_os_error: Option<i32>,
    error: std::io::Error,
) -> Verdict {
    if ret != -1 {
        Verdict::Succeeded
    } else {
        let code = match raw_os_error {
            Some(code) => code,
            None => 0,
        };
        if code == c.eintr {
            Verdict::Retry
        } else if contention_is_would_block && (code == c.eacces || code == c.eagain) {
            Verdict::Failed(Error::WouldBlock)
        } else if code == c.einval || code == c.enotsup || code == c.eopnotsupp {
            Verdict::Failed(Error::Unsupported(OFD_UNSUPPORTED))
        } else {
            Verdict::Failed(Error::Io(error))
        }
    }
}

/// Judges a `flock(2)` reply (see [`flock_verdict`]).
pub fn judge_flock(
    c: &UnixConstants,
    platform: &Platform,
    ret: i32,
    raw_os_error: Option<i32>,
    kind_would_block: bool,
    error: std::io::Error,
) -> (verdict: Verdict)
    ensures
        verdict == flock_verdict(*c, *platform, ret, raw_os_error, kind_would_block, error),
{
    if ret == 0 {
        return Verdict::Succeeded;
    }
    if let Some(code) = raw_os_error {
        if code == c.eintr {
            return Verdict::Retry;
        }
    }
    Verdict::Failed(Error::from_io_parts(error, kind_would_block, raw_os_error, platform))
}

/// Judges an OFD `fcntl(2)` reply (see [`fcntl_verdict`]).
pub fn judge_fcntl(
    c: &UnixConstants,
    contention_is_would_block: bool,
    ret: i32,
    raw_os_error: Option<i32>,
    error: std::io::Error,
) -> (verdict: Verdict)
    ensures
        verdict == fcntl_verdict(*c, contention_is_would_block, ret, raw_os_error, error),
{
    if ret != -1 {
        return Verdict::Succeeded;
    }
    let code = match raw_os_error {
        Some(code) => code,
        None => 0,
    };
    if code == c.eintr {
        Verdict::Retry
    } else if contention_is_would_block && (code == c.eacces || code == c.eagain) {
        Verdict::Failed(Error::WouldBlock)
    } else if code == c.einval || code == c.enotsup || code == c.eopnotsupp {
        Verdict::Failed(Error::Unsupported(OFD_UNSUPPORTED))
    } else {
        Verdict::Failed(Error::Io(error))
    }
}

} // verus!

verus! {

/// A blocking `flock` lock is `LOCK_SH` for a shared lock and `LOCK_EX` for
/// an exclusive one, and for every kind the non-blocking operation is the
/// blocking one with `LOCK_NB` added.
pub proof fn law_flock_operation_adds_nb_when_non_blocking(c: UnixConstants, kind: LockKind)
    ensures
        flock_operation(c, LockKind::Shared, LockMode::Blocking) == c.lock_sh,
        flock_operation(c, LockKind::Exclusive, LockMode::Blocking) == c.lock_ex,
        flock_operation(c, kind, LockMode::NonBlocking) == flock_operation(
            c,
            kind,
            LockMode::Blocking,
        ) | c.lock_nb,
{
}

/// Each OFD family uses its own commands: the blocking one is its
/// `F_OFD_SETLKW`, the non-blocking one its `F_OFD_SETLK`; the two differ,
/// and they are 38/37 on Linux and Android, 91/90 on Apple, 49/48 on illumos.
pub proof fn law_ofd_commands_are_the_targets_own(target: OfdTarget)
    ensures
        ofd_command(target, LockMode::Blocking) == target.spec_setlkw(),
        ofd_command(target, LockMode::NonBlocking) == target.spec_setlk(),
        ofd_command(target, LockMode::Blocking) != ofd_command(target, LockMode::NonBlocking),
        target == OfdTarget::LinuxOrAndroid ==> ofd_command(target, LockMode::Blocking) == 38
            && ofd_command(target, LockMode::NonBlocking) == 37,
        target == OfdTarget::Apple ==> ofd_command(target, LockMode::Blocking) == 91
            && ofd_command(target, LockMode::NonBlocking) == 90,
        target == OfdTarget::Illumos ==> ofd_command(target, LockMode::Blocking) == 49
            && ofd_command(target, LockMode::NonBlocking) == 48,
{
}

} // verus!
