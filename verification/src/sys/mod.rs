//! The operating-system calls that carry out each locking request, and what
//! each reply of the kernel means. The calls themselves are made by the caller;
//! everything that decides which call comes next lives here.

use vstd::prelude::*;

use crate::backend::LockBackend;
use crate::error::{io_error_meaning, Error};
use crate::lock::{LockKind, LockMode};

pub mod unix;
pub mod windows;

use unix::{
    fcntl_verdict, flock_op, flock_operation, flock_verdict, judge_fcntl, judge_flock, lock_type,
    ofd_command, ofd_lock_type, setlk_cmd, OfdTarget, UnixConstants,
};
use windows::{flags, judge_lock_file, lock_file_flags, windows_verdict, WindowsConstants};

verus! {

/// The operating system the locks are taken on, with the values of the
/// constants its back-ends use.
#[derive(Debug, Clone, Copy, PartialEq, Eq, Structural)]
pub enum Platform {
    /// A Unix target; `ofd` names its family of open-file-description locks,
    /// or is `None` where the target has none.
    Unix { constants: UnixConstants, ofd: Option<OfdTarget> },
    /// Windows.
    Windows { constants: WindowsConstants },
}

/// One lock primitive of a back-end: set a lock of some kind, or release it.
#[derive(Debug, Clone, Copy, PartialEq, Eq, Structural)]
pub enum Primitive {
    /// Set a lock of the given kind, blocking or not.
    Lock(LockKind, LockMode),
    /// Release the lock.
    Unlock,
}

/// What a caller asks of the locking back-end.
#[derive(Debug, Clone, Copy, PartialEq, Eq, Structural)]
pub enum Request {
    /// Acquire a lock of the given kind.
    Lock(LockKind, LockMode),
    /// Release the lock.
    Unlock,
    /// Convert a shared lock into an exclusive one.
    Upgrade(LockMode),
    /// Convert an exclusive lock into a shared one.
    Downgrade,
}

/// One call into the kernel, on the whole file.
#[derive(Debug, Clone, Copy, PartialEq, Eq, Structural)]
pub enum OsCall {
    /// `flock(fd, operation)`; 0 is success.
    Flock { operation: i32 },
    /// `fcntl(fd, command, &fl)` with a zeroed `struct flock` whose `l_type`,
    /// `l_whence`, `l_start` and `l_len` are set from the fields (`l_len` 0
    /// reaches the end of the file); -1 is failure.
    /// `contention_is_would_block` tells whether a refusal means that the lock
    /// is held elsewhere (it does when a lock is set).
    Fcntl {
        command: i32,
        lock_type: i32,
        whence: i32,
        start: i64,
        len: i64,
        contention_is_would_block: bool,
    },
    /// `LockFileEx(handle, flags, 0, length_low, length_high, &overlapped)`
    /// with a zeroed `OVERLAPPED` (offset 0); `FALSE` is failure.
    LockFileEx { flags: u32, length_low: u32, length_high: u32 },
    /// `UnlockFileEx(handle, 0, length_low, length_high, &overlapped)` with a
    /// zeroed `OVERLAPPED` (offset 0); `FALSE` is failure.
    UnlockFileEx { length_low: u32, length_high: u32 },
}

/// The low half of the byte count that `LockFileEx` covers: with the high
/// half, 2^64 - 1 bytes from offset 0, the whole file.
pub const WHOLE_FILE_LOW: u32 = 0xffff_ffff;

/// The high half of the byte count that `LockFileEx` covers.
pub const WHOLE_FILE_HIGH: u32 = 0xffff_ffff;

/// What a reply of the kernel means.
#[derive(Debug)]
pub enum Verdict {
    /// The call did what was asked.
    Succeeded,
    /// The call was interrupted and must be made again.
    Retry,
    /// The request fails with this error.
    Failed(Error),
}

/// The call that carries out primitive `p` with `backend` on `platform`, or
/// `None` when the back-end is unavailable there (the `Fcntl` back-end on a
/// Unix target without OFD locks). On Windows both back-ends use
/// `LockFileEx` / `UnlockFileEx`.
pub open spec fn call_for(p: Primitive, backend: LockBackend, platform: Platform) -> Option<OsCall> {
    match platform {
        Platform::Unix { constants, ofd } => match backend {
            LockBackend::Flock => Some(
                match p {
                    Primitive::Lock(kind, mode) => OsCall::Flock {
                        operation: flock_operation(constants, kind, mode),
                    },
                    Primitive::Unlock => OsCall::Flock { operation: constants.lock_un },
                },
            ),
            LockBackend::Fcntl => match ofd {
                Some(target) => Some(
                    match p {
                        Primitive::Lock(kind, mode) => OsCall::Fcntl {
                            command: ofd_command(target, mode),
                            lock_type: ofd_lock_type(constants, kind),
                            whence: constants.seek_set,
                            start: 0,
                            len: 0,
                            contention_is_would_block: true,
                        },
                        Primitive::Unlock => OsCall::Fcntl {
                            command: target.spec_setlk(),
                            lock_type: constants.f_unlck,
                            whence: constants.seek_set,
                            start: 0,
                            len: 0,
                            contention_is_would_block: false,
                        },
                    },
                ),
                None => None,
            },
        },
        Platform::Windows { constants } => Some(
            match p {
                Primitive::Lock(kind, mode) => OsCall::LockFileEx {
                    flags: lock_file_flags(constants, kind, mode),
                    length_low: WHOLE_FILE_LOW,
                    length_high: WHOLE_FILE_HIGH,
                },
                Primitive::Unlock => OsCall::UnlockFileEx {
                    length_low: WHOLE_FILE_LOW,
                    length_high: WHOLE_FILE_HIGH,
                },
            },
        ),
    }
}

/// Computes [`call_for`].
pub fn os_call(p: Primitive, backend: LockBackend, platform: &Platform) -> (call: Option<OsCall>)
    ensures
        call == call_for(p, backend, *platform),
{
    match platform {
        Platform::Unix { constants, ofd } => match backend {
            LockBackend::Flock => match p {
                Primitive::Lock(kind, mode) => Some(
                    OsCall::Flock { operation: flock_op(constants, kind, mode) },
                ),
                Primitive::Unlock => Some(OsCall::Flock { operation: constants.lock_un }),
            },
            LockBackend::Fcntl => match ofd {
                Some(target) => match p {
                    Primitive::Lock(kind, mode) => Some(
                        OsCall::Fcntl {
                            command: setlk_cmd(*target, mode),
                            lock_type: lock_type(constants, kind),
                            whence: constants.seek_set,
                            start: 0,
                            len: 0,
                            contention_is_would_block: true,
                        },
                    ),
                    Primitive::Unlock => Some(
                        OsCall::Fcntl {
                            command: target.setlk(),
                            lock_type: constants.f_unlck,
                            whence: constants.seek_set,
                            start: 0,
                            len: 0,
                            contention_is_would_block: false,
                        },
                    ),
                },
                None => None,
            },
        },
        Platform::Windows { constants } => match p {
            Primitive::Lock(kind, mode) => Some(
                OsCall::LockFileEx {
                    flags: flags(constants, kind, mode),
                    length_low: WHOLE_FILE_LOW,
                    length_high: WHOLE_FILE_HIGH,
                },
            ),
            Primitive::Unlock => Some(
                OsCall::UnlockFileEx { length_low: WHOLE_FILE_LOW, length_high: WHOLE_FILE_HIGH },
            ),
        },
    }
}

/// The primitives that carry out `request`, in order. A conversion is one
/// lock call on Unix. On Windows an upgrade releases the shared lock and then
/// sets the exclusive one, and a downgrade layers a shared lock over the
/// exclusive one and then releases once, which removes the exclusive lock.
pub open spec fn steps_for(request: Request, platform: Platform) -> Seq<Primitive> {
    match request {
        Request::Lock(kind, mode) => seq![Primitive::Lock(kind, mode)],
        Request::Unlock => seq![Primitive::Unlock],
        Request::Upgrade(mode) => if platform is Windows {
            seq![Primitive::Unlock, Primitive::Lock(LockKind::Exclusive, mode)]
        } else {
            seq![Primitive::Lock(LockKind::Exclusive, mode)]
        },
        Request::Downgrade => if platform is Windows {
            seq![Primitive::Lock(LockKind::Shared, LockMode::Blocking), Primitive::Unlock]
        } else {
            seq![Primitive::Lock(LockKind::Shared, LockMode::Blocking)]
        },
    }
}

/// Computes [`steps_for`].
pub fn steps(request: Request, platform: &Platform) -> (plan: Vec<Primitive>)
    ensures
        plan@ == steps_for(request, *platform),
{
    let windows = match platform {
        Platform::Windows { .. } => true,
        Platform::Unix { .. } => false,
    };
    let plan = match request {
        Request::Lock(kind, mode) => vec![Primitive::Lock(kind, mode)],
        Request::Unlock => vec![Primitive::Unlock],
        Request::Upgrade(mode) => if windows {
            vec![Primitive::Unlock, Primitive::Lock(LockKind::Exclusive, mode)]
        } else {
            vec![Primitive::Lock(LockKind::Exclusive, mode)]
        },
        Request::Downgrade => if windows {
            vec![Primitive::Lock(LockKind::Shared, LockMode::Blocking), Primitive::Unlock]
        } else {
            vec![Primitive::Lock(LockKind::Shared, LockMode::Blocking)]
        },
    };
    assert(plan@ =~= steps_for(request, *platform));
    plan
}

/// What the reply `ret` to `call` on `platform` means, given what was read
/// out of the OS error that came with it.
pub open spec fn verdict(
    call: OsCall,
    platform: Platform,
    ret: i32,
    raw_os_error: Option<i32>,
    kind_would_block: bool,
    error: std::io::Error,
) -> Verdict {
    match platform {
        Platform::Unix { constants, .. } => match call {
            OsCall::Flock { .. } => flock_verdict(
                constants,
                platform,
                ret,
                raw_os_error,
                kind_would_block,
                error,
            ),
            OsCall::Fcntl { contention_is_would_block, .. } => fcntl_verdict(
                constants,
                contention_is_would_block,
                ret,
                raw_os_error,
                error,
            ),
            _ => Verdict::Failed(io_error_meaning(error, kind_would_block, raw_os_error, platform)),
        },
        Platform::Windows { constants } => windows_verdict(
            constants,
            platform,
            ret,
            raw_os_error,
            kind_would_block,
            error,
        ),
    }
}

/// Whether the reply `ret` to `call` on `platform` reports success: 0 from
/// `flock`, anything but -1 from `fcntl`, anything but `FALSE` from
/// `LockFileEx` / `UnlockFileEx`.
pub open spec fn call_succeeded(call: OsCall, platform: Platform, ret: i32) -> bool {
    match platform {
        Platform::Unix { .. } => match call {
            OsCall::Flock { .. } => ret == 0,
            OsCall::Fcntl { .. } => ret != -1,
            _ => false,
        },
        Platform::Windows { constants } => ret != constants.bool_false,
    }
}

/// Whether a failed `call` on `platform` was interrupted by a signal
/// (`EINTR`) and is to be made again; an `fcntl` failure without an OS code
/// counts as code 0. Windows calls are never retried.
pub open spec fn call_interrupted(call: OsCall, platform: Platform, raw_os_error: Option<i32>) -> bool {
    match platform {
        Platform::Unix { constants, .. } => match call {
            OsCall::Flock { .. } => raw_os_error == Some(constants.eintr),
            OsCall::Fcntl { .. } => match raw_os_error {
                Some(code) => code == constants.eintr,
                None => 0 == constants.eintr,
            },
            _ => false,
        },
        Platform::Windows { .. } => false,
    }
}

/// What the reply to `call` means within `request`. A release (an unlock,
/// or a downgrade) reports every failure that is not an interruption as an
/// I/O error carrying the OS error; acquisitions and upgrades read the
/// failure as [`verdict`] says.
pub open spec fn verdict_for(
    request: Request,
    call: OsCall,
    platform: Platform,
    ret: i32,
    raw_os_error: Option<i32>,
    kind_would_block: bool,
    error: std::io::Error,
) -> Verdict {
    if request is Unlock || request is Downgrade {
        if call_succeeded(call, platform, ret) {
            Verdict::Succeeded
        } else if call_interrupted(call, platform, raw_os_error) {
            Verdict::Retry
        } else {
            Verdict::Failed(Error::Io(error))
        }
    } else {
        verdict(call, platform, ret, raw_os_error, kind_would_block, error)
    }
}

/// Computes [`call_succeeded`].
pub fn succeeded(call: &OsCall, platform: &Platform, ret: i32) -> (ok: bool)
    ensures
        ok == call_succeeded(*call, *platform, ret),
{
    match platform {
        Platform::Unix { .. } => match call {
            OsCall::Flock { .. } => ret == 0,
            OsCall::Fcntl { .. } => ret != -1,
            _ => false,
        },
        Platform::Windows { constants } => ret != constants.bool_false,
    }
}

/// Computes [`call_interrupted`].
pub fn interrupted(call: &OsCall, platform: &Platform, raw_os_error: Option<i32>) -> (retry: bool)
    ensures
        retry == call_interrupted(*call, *platform, raw_os_error),
{
    match platform {
        Platform::Unix { constants, .. } => match call {
            OsCall::Flock { .. } => match raw_os_error {
                Some(code) => code == constants.eintr,
                None => false,
            },
            OsCall::Fcntl { .. } => match raw_os_error {
                Some(code) => code == constants.eintr,
                None => 0 == constants.eintr,
            },
            _ => false,
        },
        Platform::Windows { .. } => false,
    }
}

/// Computes [`verdict_for`].
pub fn judge_request(
    request: Request,
    call: &OsCall,
    platform: &Platform,
    ret: i32,
    raw_os_error: Option<i32>,
    kind_would_block: bool,
    error: std::io::Error,
) -> (v: Verdict)
    ensures
        v == verdict_for(request, *call, *platform, ret, raw_os_error, kind_would_block, error),
{
    match request {
        Request::Unlock | Request::Downgrade => {
            if succeeded(call, platform, ret) {
                Verdict::Succeeded
            } else if interrupted(call, platform, raw_os_error) {
                Verdict::Retry
            } else {
                Verdict::Failed(Error::Io(error))
            }
        },
        _ => judge(call, platform, ret, raw_os_error, kind_would_block, error),
    }
}

/// Computes [`verdict`].
pub fn judge(
    call: &OsCall,
    platform: &Platform,
    ret: i32,
    raw_os_error: Option<i32>,
    kind_would_block: bool,
    error: std::io::Error,
) -> (v: Verdict)
    ensures
        v == verdict(*call, *platform, ret, raw_os_error, kind_would_block, error),
{
    match platform {
        Platform::Unix { constants, .. } => match call {
            OsCall::Flock { .. } => judge_flock(
                constants,
                platform,
                ret,
                raw_os_error,
                kind_would_block,
                error,
            ),
            OsCall::Fcntl { contention_is_would_block, .. } => judge_fcntl(
                constants,
                *contention_is_would_block,
                ret,
                raw_os_error,
                error,
            ),
            _ => Verdict::Failed(
                Error::from_io_parts(error, kind_would_block, raw_os_error, platform),
            ),
        },
        Platform::Windows { constants } => judge_lock_file(
            constants,
            platform,
            ret,
            raw_os_error,
            kind_would_block,
            error,
        ),
    }
}

} // verus!

verus! {

/// Whether the reply `ret` to `call` on `platform` reports a failure: non-zero
/// from `flock`, -1 from `fcntl`, `FALSE` from `LockFileEx` / `UnlockFileEx`.
pub open spec fn call_failed(call: OsCall, platform: Platform, ret: i32) -> bool {
    !call_succeeded(call, platform, ret)
}

/// On Windows both back-ends issue the very same calls.
pub proof fn law_windows_backends_agree(p: Primitive, constants: WindowsConstants)
    ensures
        call_for(p, LockBackend::Flock, Platform::Windows { constants })
            == call_for(p, LockBackend::Fcntl, Platform::Windows { constants }),
        call_for(p, LockBackend::Flock, Platform::Windows { constants }) is Some,
{
}

/// A back-end that is available issues exactly one call per primitive; the
/// only unavailable one is `Fcntl` on a Unix target without OFD locks.
pub proof fn law_only_fcntl_without_ofd_is_unavailable(
    p: Primitive,
    backend: LockBackend,
    platform: Platform,
)
    ensures
        call_for(p, backend, platform) is None <==> (backend == LockBackend::Fcntl
            && (platform matches Platform::Unix { ofd, .. } && ofd is None)),
{
}

/// Whatever the platform, every request takes at least one primitive, and a
/// conversion on Unix is a single lock call.
pub proof fn law_every_request_has_a_step(request: Request, platform: Platform)
    ensures
        steps_for(request, platform).len() >= 1,
        platform is Unix ==> steps_for(request, platform).len() == 1,
{
}

} // verus!

verus! {

/// Unix platforms only ever get `flock` and `fcntl` calls, and Windows only
/// `LockFileEx` and `UnlockFileEx`.
pub proof fn law_calls_match_platform(p: Primitive, backend: LockBackend, platform: Platform)
    ensures
        call_for(p, backend, platform) matches Some(call) ==> (platform is Unix <==> (
        call is Flock || call is Fcntl)),
{
}

} // verus!

verus! {

/// Every call covers the whole file: `fcntl` from offset 0 of the file to its
/// end, `LockFileEx` / `UnlockFileEx` 2^64 - 1 bytes from offset 0.
pub proof fn law_whole_file(p: Primitive, backend: LockBackend, platform: Platform)
    ensures
        call_for(p, backend, platform) matches Some(call) ==> match call {
            OsCall::Fcntl { whence, start, len, .. } => platform matches Platform::Unix {
                constants,
                ..
            } && whence == constants.seek_set && start == 0 && len == 0,
            OsCall::LockFileEx { length_low, length_high, .. } => length_low == u32::MAX
                && length_high == u32::MAX,
            OsCall::UnlockFileEx { length_low, length_high } => length_low == u32::MAX
                && length_high == u32::MAX,
            OsCall::Flock { .. } => true,
        },
{
}

} // verus!

verus! {

/// Every request reads a reply alike as far as success and interruption go:
/// success is what the call reports as such, and a failure is retried
/// exactly when it was interrupted.
pub proof fn law_success_and_retry_agree(
    request: Request,
    call: OsCall,
    platform: Platform,
    ret: i32,
    raw_os_error: Option<i32>,
    kind_would_block: bool,
    error: std::io::Error,
)
    ensures
        verdict_for(request, call, platform, ret, raw_os_error, kind_would_block, error) is Succeeded
            <==> call_succeeded(call, platform, ret),
        verdict_for(request, call, platform, ret, raw_os_error, kind_would_block, error) is Retry
            <==> (!call_succeeded(call, platform, ret) && call_interrupted(
            call,
            platform,
            raw_os_error,
        )),
{
}

} // verus!

verus! {

/// On Unix a `flock` lock call is `LOCK_SH` or `LOCK_EX`, with `LOCK_NB`
/// added exactly in non-blocking mode, and an OFD lock call uses the
/// target's own `F_OFD_SETLKW` when blocking and `F_OFD_SETLK` otherwise,
/// as does every OFD release.
pub proof fn law_unix_lock_calls(
    c: UnixConstants,
    ofd: Option<OfdTarget>,
    kind: LockKind,
    mode: LockMode,
)
    ensures
        ({
            let platform = Platform::Unix { constants: c, ofd };
            let base = if kind == LockKind::Shared {
                c.lock_sh
            } else {
                c.lock_ex
            };
            &&& call_for(Primitive::Lock(kind, mode), LockBackend::Flock, platform) == Some(
                OsCall::Flock {
                    operation: if mode == LockMode::NonBlocking {
                        base | c.lock_nb
                    } else {
                        base
                    },
                },
            )
            &&& call_for(Primitive::Unlock, LockBackend::Flock, platform) == Some(
                OsCall::Flock { operation: c.lock_un },
            )
            &&& ofd matches Some(t) ==> {
                &&& call_for(Primitive::Lock(kind, mode), LockBackend::Fcntl, platform) matches Some(
                    OsCall::Fcntl { command, lock_type, .. },
                ) && command == (if mode == LockMode::Blocking {
                    t.spec_setlkw()
                } else {
                    t.spec_setlk()
                }) && lock_type == (if kind == LockKind::Shared {
                    c.f_rdlck
                } else {
                    c.f_wrlck
                })
                &&& call_for(Primitive::Unlock, LockBackend::Fcntl, platform) matches Some(
                    OsCall::Fcntl { command, lock_type, .. },
                ) && command == t.spec_setlk() && lock_type == c.f_unlck
            }
        }),
{
}

/// An upgrade in mode `m` ends with the very lock primitive that acquiring
/// an exclusive lock in mode `m` takes, so a blocking upgrade waits and a
/// non-blocking one does not; on Unix that primitive is the whole upgrade.
pub proof fn law_upgrade_keeps_mode(mode: LockMode, platform: Platform)
    ensures
        steps_for(Request::Upgrade(mode), platform).last() == Primitive::Lock(
            LockKind::Exclusive,
            mode,
        ),
        steps_for(Request::Upgrade(mode), platform).last() == steps_for(
            Request::Lock(LockKind::Exclusive, mode),
            platform,
        )[0],
        platform is Unix ==> steps_for(Request::Upgrade(mode), platform) == seq![
            Primitive::Lock(LockKind::Exclusive, mode),
        ],
{
}

/// A downgrade sets a shared lock in blocking mode, as acquiring a blocking
/// shared lock does; on Unix that is the whole downgrade.
pub proof fn law_downgrade_is_a_blocking_shared_lock(platform: Platform)
    ensures
        steps_for(Request::Downgrade, platform)[0] == steps_for(
            Request::Lock(LockKind::Shared, LockMode::Blocking),
            platform,
        )[0],
        platform is Unix ==> steps_for(Request::Downgrade, platform) == seq![
            Primitive::Lock(LockKind::Shared, LockMode::Blocking),
        ],
{
}

/// An unlock is a single release on every platform, and acquiring is a
/// single lock of the kind and mode asked for.
pub proof fn law_unlock_and_lock_are_single_calls(kind: LockKind, mode: LockMode, platform: Platform)
    ensures
        steps_for(Request::Unlock, platform) == seq![Primitive::Unlock],
        steps_for(Request::Lock(kind, mode), platform) == seq![Primitive::Lock(kind, mode)],
{
}

} // verus!

verus! {

/// On Windows a conversion takes two calls: an upgrade releases first and
/// then sets the exclusive lock; a downgrade first layers a blocking shared
/// lock and then releases once.
pub proof fn law_windows_conversions(mode: LockMode, c: WindowsConstants)
    ensures
        steps_for(Request::Upgrade(mode), Platform::Windows { constants: c }) == seq![
            Primitive::Unlock,
            Primitive::Lock(LockKind::Exclusive, mode),
        ],
        steps_for(Request::Downgrade, Platform::Windows { constants: c }) == seq![
            Primitive::Lock(LockKind::Shared, LockMode::Blocking),
            Primitive::Unlock,
        ],
{
}

/// Success is read from the raw reply alone: 0 from `flock`, anything but
/// -1 from `fcntl`, anything but `FALSE` on Windows; and a Unix failure is
/// retried exactly when its OS code is `EINTR`.
pub proof fn law_replies_read_as_the_kernel_reports(
    request: Request,
    p: Primitive,
    backend: LockBackend,
    platform: Platform,
    ret: i32,
    code: i32,
    kind_would_block: bool,
    error: std::io::Error,
)
    requires
        call_for(p, backend, platform) is Some,
    ensures
        ({
            let call = call_for(p, backend, platform).unwrap();
            let v = verdict_for(request, call, platform, ret, Some(code), kind_would_block, error);
            &&& match platform {
                Platform::Unix { constants, .. } => match backend {
                    LockBackend::Flock => (v is Succeeded <==> ret == 0) && (v is Retry <==> (
                    ret != 0 && code == constants.eintr)),
                    LockBackend::Fcntl => (v is Succeeded <==> ret != -1) && (v is Retry <==> (
                    ret == -1 && code == constants.eintr)),
                },
                Platform::Windows { constants } => (v is Succeeded <==> ret
                    != constants.bool_false) && !(v is Retry),
            }
        }),
{
}

/// An OFD lock that the kernel refuses with `EINVAL`, `ENOTSUP` or
/// `EOPNOTSUPP` (and not `EINTR`, `EACCES` or `EAGAIN`) means that OFD locks
/// are unsupported there, when acquiring or upgrading.
pub proof fn law_ofd_refusal_is_unsupported(
    request: Request,
    kind: LockKind,
    mode: LockMode,
    c: UnixConstants,
    t: OfdTarget,
    code: i32,
    kind_would_block: bool,
    error: std::io::Error,
)
    requires
        request is Lock || request is Upgrade,
        code == c.einval || code == c.enotsup || code == c.eopnotsupp,
        code != c.eintr && code != c.eacces && code != c.eagain,
    ensures
        verdict_for(
            request,
            call_for(
                Primitive::Lock(kind, mode),
                LockBackend::Fcntl,
                Platform::Unix { constants: c, ofd: Some(t) },
            ).unwrap(),
            Platform::Unix { constants: c, ofd: Some(t) },
            -1i32,
            Some(code),
            kind_would_block,
            error,
        ) == Verdict::Failed(Error::Unsupported(unix::OFD_UNSUPPORTED)),
{
}

} // verus!
