use filelocks::sys::unix::{OFD_UNAVAILABLE, OFD_UNSUPPORTED};
use filelocks::{
    Error, LockBackend, LockKind, LockMode, LockOptions, LockSession, LockState, OfdTarget,
    OsCall, Platform, UnixConstants, WindowsConstants,
};
use windows_sys::Win32::Foundation::FALSE;
use windows_sys::Win32::Storage::FileSystem::{LOCKFILE_EXCLUSIVE_LOCK, LOCKFILE_FAIL_IMMEDIATELY};

fn linux() -> Platform {
    Platform::Unix {
        constants: UnixConstants {
            lock_sh: libc::LOCK_SH,
            lock_ex: libc::LOCK_EX,
            lock_nb: libc::LOCK_NB,
            lock_un: libc::LOCK_UN,
            f_rdlck: libc::F_RDLCK as i32,
            f_wrlck: libc::F_WRLCK as i32,
            f_unlck: libc::F_UNLCK as i32,
            seek_set: libc::SEEK_SET,
            eintr: libc::EINTR,
            eacces: libc::EACCES,
            eagain: libc::EAGAIN,
            einval: libc::EINVAL,
            enotsup: libc::ENOTSUP,
            eopnotsupp: libc::EOPNOTSUPP,
        },
        ofd: Some(OfdTarget::LinuxOrAndroid),
    }
}

fn unix_without_ofd() -> Platform {
    match linux() {
        Platform::Unix { constants, .. } => Platform::Unix { constants, ofd: None },
        other => other,
    }
}

fn windows() -> Platform {
    Platform::Windows {
        constants: WindowsConstants {
            lockfile_exclusive_lock: LOCKFILE_EXCLUSIVE_LOCK,
            lockfile_fail_immediately: LOCKFILE_FAIL_IMMEDIATELY,
            bool_false: FALSE,
        },
    }
}

fn lock_file_ex(flags: u32) -> OsCall {
    OsCall::LockFileEx { flags, length_low: u32::MAX, length_high: u32::MAX }
}

const UNLOCK_FILE_EX: OsCall = OsCall::UnlockFileEx { length_low: u32::MAX, length_high: u32::MAX };

/// Answers the calls of `session` with `replies` (return value, OS code), in
/// order, and gives the calls that were due.
fn answer(session: &mut LockSession, replies: &[(i32, i32)]) -> Vec<OsCall> {
    let mut calls = Vec::new();
    for &(ret, code) in replies {
        let call = session.next_call().expect("a call should be due");
        calls.push(call);
        session.observe(ret, std::io::Error::from_raw_os_error(code));
    }
    calls
}

fn acquire(backend: LockBackend, kind: LockKind, platform: Platform) -> LockState {
    let mut session = LockOptions::new()
        .backend(backend)
        .begin_lock(kind, LockMode::Blocking, platform);
    let ok = if matches!(platform, Platform::Windows { .. }) { 1 } else { 0 };
    answer(&mut session, &[(ok, 0)]);
    assert!(session.is_finished());
    LockState::acquired(session).expect("lock should be acquired")
}

fn expected_lock_call(backend: LockBackend, kind: LockKind, mode: LockMode) -> OsCall {
    match backend {
        LockBackend::Flock => {
            let base = match kind {
                LockKind::Shared => libc::LOCK_SH,
                LockKind::Exclusive => libc::LOCK_EX,
            };
            let operation = match mode {
                LockMode::Blocking => base,
                LockMode::NonBlocking => base | libc::LOCK_NB,
            };
            OsCall::Flock { operation }
        }
        LockBackend::Fcntl => OsCall::Fcntl {
            command: match mode {
                LockMode::Blocking => 38,
                LockMode::NonBlocking => 37,
            },
            lock_type: match kind {
                LockKind::Shared => libc::F_RDLCK as i32,
                LockKind::Exclusive => libc::F_WRLCK as i32,
            },
            whence: libc::SEEK_SET,
            start: 0,
            len: 0,
            contention_is_would_block: true,
        },
    }
}

fn expected_unlock_call(backend: LockBackend) -> OsCall {
    match backend {
        LockBackend::Flock => OsCall::Flock { operation: libc::LOCK_UN },
        LockBackend::Fcntl => OsCall::Fcntl {
            command: 37,
            lock_type: libc::F_UNLCK as i32,
            whence: libc::SEEK_SET,
            start: 0,
            len: 0,
            contention_is_would_block: false,
        },
    }
}

fn lock_and_unlock(kind: LockKind) {
    for b in [LockBackend::Flock, LockBackend::Fcntl] {
        let mut session = LockOptions::new()
            .backend(b)
            .begin_lock(kind, LockMode::Blocking, linux());
        let calls = answer(&mut session, &[(0, 0)]);
        assert_eq!(calls, vec![expected_lock_call(b, kind, LockMode::Blocking)]);
        assert!(session.next_call().is_none());
        let mut guard = LockState::acquired(session).unwrap();
        assert_eq!(guard.kind(), kind);
        assert_eq!(guard.backend(), b);
        assert!(guard.is_armed());

        let mut unlock = guard.begin_unlock(linux());
        let calls = answer(&mut unlock, &[(0, 0)]);
        assert_eq!(calls, vec![expected_unlock_call(b)]);
        assert!(guard.complete(unlock).is_ok());
        assert!(!guard.is_armed());
        assert!(guard.release_on_drop(linux()).is_none());
    }
}

// ── the scenarios of the guard, on simulated kernel replies ─────────────────

#[test]
fn exclusive_blocking_lock_and_unlock() {
    lock_and_unlock(LockKind::Exclusive);
}

#[test]
fn shared_blocking_lock_and_unlock() {
    lock_and_unlock(LockKind::Shared);
}

#[test]
fn exclusive_non_blocking_fails_when_locked() {
    for (b, code) in [
        (LockBackend::Flock, libc::EWOULDBLOCK),
        (LockBackend::Fcntl, libc::EAGAIN),
        (LockBackend::Fcntl, libc::EACCES),
    ] {
        let mut session = LockOptions::new().backend(b).begin_lock(
            LockKind::Exclusive,
            LockMode::NonBlocking,
            linux(),
        );
        let calls = answer(&mut session, &[(-1, code)]);
        assert_eq!(
            calls,
            vec![expected_lock_call(b, LockKind::Exclusive, LockMode::NonBlocking)]
        );
        let res = LockState::acquired(session);
        assert!(matches!(res, Err(Error::WouldBlock)), "[{b:?}] got {res:?}");
    }
}

#[test]
fn shared_non_blocking_fails_when_exclusively_locked() {
    for (b, code) in [
        (LockBackend::Flock, libc::EWOULDBLOCK),
        (LockBackend::Fcntl, libc::EAGAIN),
    ] {
        let mut session = LockOptions::new().backend(b).begin_lock(
            LockKind::Shared,
            LockMode::NonBlocking,
            linux(),
        );
        answer(&mut session, &[(-1, code)]);
        let res = LockState::acquired(session);
        assert!(matches!(res, Err(Error::WouldBlock)), "[{b:?}] got {res:?}");
    }
}

#[test]
fn downgrade_exclusive_to_shared() {
    for b in [LockBackend::Flock, LockBackend::Fcntl] {
        let mut g1 = acquire(b, LockKind::Exclusive, linux());
        let mut session = g1.begin_downgrade(linux());
        let calls = answer(&mut session, &[(0, 0)]);
        assert_eq!(
            calls,
            vec![expected_lock_call(b, LockKind::Shared, LockMode::Blocking)]
        );
        g1.complete(session).unwrap();
        assert_eq!(g1.kind(), LockKind::Shared);
    }
}

#[test]
fn upgrade_shared_to_exclusive_non_blocking_fails_when_contested() {
    for (b, code) in [
        (LockBackend::Flock, libc::EWOULDBLOCK),
        (LockBackend::Fcntl, libc::EAGAIN),
    ] {
        let mut g1 = acquire(b, LockKind::Shared, linux());
        let mut session = g1.begin_upgrade(LockMode::NonBlocking, linux());
        let calls = answer(&mut session, &[(-1, code)]);
        assert_eq!(
            calls,
            vec![expected_lock_call(b, LockKind::Exclusive, LockMode::NonBlocking)]
        );
        let res = g1.complete(session);
        assert!(matches!(res, Err(Error::WouldBlock)), "[{b:?}] got {res:?}");
        assert_eq!(g1.kind(), LockKind::Shared);
    }
}

#[test]
fn filelock_lock_uses_flock_backend_by_default() {
    let guard = acquire(LockOptions::new().selected_backend(), LockKind::Exclusive, linux());
    assert_eq!(guard.backend(), LockBackend::Flock);
}

#[test]
fn lock_options_default_is_flock() {
    let mut session =
        LockOptions::new().begin_lock(LockKind::Shared, LockMode::Blocking, linux());
    answer(&mut session, &[(0, 0)]);
    let guard = LockState::acquired(session).unwrap();
    assert_eq!(guard.backend(), LockBackend::Flock);
    assert_eq!(LockOptions::default().selected_backend(), LockBackend::Flock);
    assert_eq!(LockBackend::default(), LockBackend::Flock);
}

#[test]
fn lock_options_fcntl_backend() {
    let guard = acquire(LockBackend::Fcntl, LockKind::Exclusive, linux());
    assert_eq!(guard.backend(), LockBackend::Fcntl);
    assert_eq!(guard.kind(), LockKind::Exclusive);
}

// ── retries and error mapping ────────────────────────────────────────────────

#[test]
fn interrupted_calls_are_retried() {
    for b in [LockBackend::Flock, LockBackend::Fcntl] {
        let mut session =
            LockOptions::new()
                .backend(b)
                .begin_lock(LockKind::Exclusive, LockMode::Blocking, linux());
        let calls = answer(
            &mut session,
            &[(-1, libc::EINTR), (-1, libc::EINTR), (0, 0)],
        );
        let call = expected_lock_call(b, LockKind::Exclusive, LockMode::Blocking);
        assert_eq!(calls, vec![call, call, call]);
        assert!(session.is_finished());
        assert!(LockState::acquired(session).is_ok());
    }
}

#[test]
fn fcntl_success_is_any_reply_but_minus_one() {
    let mut session = LockOptions::new()
        .backend(LockBackend::Fcntl)
        .begin_lock(LockKind::Shared, LockMode::Blocking, linux());
    answer(&mut session, &[(7, libc::EBADF)]);
    assert!(session.finish().is_ok());
}

#[test]
fn fcntl_refusal_of_ofd_locks_is_unsupported() {
    for code in [libc::EINVAL, libc::ENOTSUP, libc::EOPNOTSUPP] {
        let mut session = LockOptions::new().backend(LockBackend::Fcntl).begin_lock(
            LockKind::Exclusive,
            LockMode::Blocking,
            linux(),
        );
        answer(&mut session, &[(-1, code)]);
        match session.finish() {
            Err(Error::Unsupported(reason)) => assert_eq!(reason, OFD_UNSUPPORTED),
            other => panic!("expected Unsupported, got {other:?}"),
        }
    }
}

#[test]
fn fcntl_unlock_contention_is_an_io_error() {
    let guard = acquire(LockBackend::Fcntl, LockKind::Exclusive, linux());
    let mut session = guard.begin_unlock(linux());
    answer(&mut session, &[(-1, libc::EAGAIN)]);
    match session.finish() {
        Err(Error::Io(e)) => assert_eq!(e.raw_os_error(), Some(libc::EAGAIN)),
        other => panic!("expected Io, got {other:?}"),
    }
}

#[test]
fn other_failures_are_io_errors() {
    for b in [LockBackend::Flock, LockBackend::Fcntl] {
        let mut session = LockOptions::new().backend(b).begin_lock(
            LockKind::Exclusive,
            LockMode::Blocking,
            linux(),
        );
        answer(&mut session, &[(-1, libc::EBADF)]);
        match session.finish() {
            Err(Error::Io(e)) => assert_eq!(e.raw_os_error(), Some(libc::EBADF)),
            other => panic!("[{b:?}] expected Io, got {other:?}"),
        }
    }
}

#[test]
fn fcntl_without_ofd_is_unsupported_before_any_call() {
    let mut session = LockOptions::new().backend(LockBackend::Fcntl).begin_lock(
        LockKind::Shared,
        LockMode::Blocking,
        unix_without_ofd(),
    );
    assert!(session.is_finished());
    assert!(session.next_call().is_none());
    match session.finish() {
        Err(Error::Unsupported(reason)) => assert_eq!(reason, OFD_UNAVAILABLE),
        other => panic!("expected Unsupported, got {other:?}"),
    }
    let mut flock = LockOptions::new().begin_lock(
        LockKind::Shared,
        LockMode::Blocking,
        unix_without_ofd(),
    );
    assert_eq!(answer(&mut flock, &[(0, 0)]).len(), 1);
}

#[test]
fn io_error_mapping() {
    let platform = linux();
    assert!(matches!(
        Error::from_io(std::io::Error::from_raw_os_error(libc::EWOULDBLOCK), &platform),
        Error::WouldBlock
    ));
    match Error::from_io(std::io::Error::from_raw_os_error(libc::ENOENT), &platform) {
        Error::Io(e) => assert_eq!(e.raw_os_error(), Some(libc::ENOENT)),
        other => panic!("expected Io, got {other:?}"),
    }
    // Code 33 is a lock violation on Windows only.
    match Error::from_io(std::io::Error::from_raw_os_error(33), &platform) {
        Error::Io(e) => assert_eq!(e.raw_os_error(), Some(33)),
        other => panic!("expected Io, got {other:?}"),
    }
    assert!(matches!(
        Error::from_io(std::io::Error::from_raw_os_error(33), &windows()),
        Error::WouldBlock
    ));
    assert!(matches!(
        Error::from_io_parts(std::io::Error::from_raw_os_error(5), true, Some(5), &platform),
        Error::WouldBlock
    ));
}

#[test]
fn error_messages() {
    assert_eq!(
        Error::WouldBlock.message(),
        "lock would block: resource is already held by another lock holder"
    );
    assert_eq!(
        Error::Unsupported("no OFD").message(),
        "locking backend is not supported: no OFD"
    );
    let io = Error::Io(std::io::Error::new(std::io::ErrorKind::Other, "boom"));
    assert_eq!(io.message(), "I/O error during file locking: boom");
}

// ── the guard's state ────────────────────────────────────────────────────────

#[test]
fn conversions_to_the_held_kind_need_no_call() {
    let mut exclusive = acquire(LockBackend::Flock, LockKind::Exclusive, linux());
    let session = exclusive.begin_upgrade(LockMode::NonBlocking, linux());
    assert!(session.next_call().is_none());
    assert!(exclusive.complete(session).is_ok());
    assert_eq!(exclusive.kind(), LockKind::Exclusive);

    let mut shared = acquire(LockBackend::Fcntl, LockKind::Shared, linux());
    let session = shared.begin_downgrade(linux());
    assert!(session.next_call().is_none());
    assert!(shared.complete(session).is_ok());
    assert_eq!(shared.kind(), LockKind::Shared);
}

#[test]
fn upgrade_then_downgrade_restores_shared() {
    let mut guard = acquire(LockBackend::Flock, LockKind::Shared, linux());
    let mut up = guard.begin_upgrade(LockMode::Blocking, linux());
    answer(&mut up, &[(0, 0)]);
    guard.complete(up).unwrap();
    assert_eq!(guard.kind(), LockKind::Exclusive);
    let mut down = guard.begin_downgrade(linux());
    answer(&mut down, &[(0, 0)]);
    guard.complete(down).unwrap();
    assert_eq!(guard.kind(), LockKind::Shared);
    assert!(guard.is_armed());
}

#[test]
fn failed_unlock_still_disarms() {
    let mut guard = acquire(LockBackend::Flock, LockKind::Exclusive, linux());
    let mut session = guard.begin_unlock(linux());
    answer(&mut session, &[(-1, libc::EBADF)]);
    assert!(guard.complete(session).is_err());
    assert!(!guard.is_armed());
    assert!(guard.release_on_drop(linux()).is_none());
}

#[test]
fn drop_releases_only_while_armed() {
    let mut guard = acquire(LockBackend::Fcntl, LockKind::Shared, linux());
    let mut release = guard.release_on_drop(linux()).expect("armed guard releases");
    assert_eq!(answer(&mut release, &[(0, 0)]), vec![expected_unlock_call(LockBackend::Fcntl)]);
    guard.disarm();
    assert!(guard.release_on_drop(linux()).is_none());
    assert_eq!(guard.kind(), LockKind::Shared);
}

// ── Windows ──────────────────────────────────────────────────────────────────

#[test]
fn windows_calls_lock_the_whole_file_with_flags() {
    for b in [LockBackend::Flock, LockBackend::Fcntl] {
        for (kind, mode, flags) in [
            (LockKind::Shared, LockMode::Blocking, 0u32),
            (LockKind::Shared, LockMode::NonBlocking, 1),
            (LockKind::Exclusive, LockMode::Blocking, 2),
            (LockKind::Exclusive, LockMode::NonBlocking, 3),
        ] {
            let mut session = LockOptions::new().backend(b).begin_lock(kind, mode, windows());
            let calls = answer(&mut session, &[(1, 0)]);
            assert_eq!(calls, vec![lock_file_ex(flags)]);
            let guard = LockState::acquired(session).unwrap();
            assert_eq!(guard.backend(), b);
        }
    }
}

#[test]
fn windows_upgrade_releases_then_locks() {
    let mut guard = acquire(LockBackend::Fcntl, LockKind::Shared, windows());
    let mut session = guard.begin_upgrade(LockMode::NonBlocking, windows());
    let calls = answer(&mut session, &[(1, 0), (1, 0)]);
    assert_eq!(
        calls,
        vec![UNLOCK_FILE_EX, lock_file_ex(3)]
    );
    guard.complete(session).unwrap();
    assert_eq!(guard.kind(), LockKind::Exclusive);
}

#[test]
fn windows_downgrade_layers_shared_then_releases() {
    let mut guard = acquire(LockBackend::Flock, LockKind::Exclusive, windows());
    let mut session = guard.begin_downgrade(windows());
    let calls = answer(&mut session, &[(1, 0), (1, 0)]);
    assert_eq!(
        calls,
        vec![lock_file_ex(0), UNLOCK_FILE_EX]
    );
    guard.complete(session).unwrap();
    assert_eq!(guard.kind(), LockKind::Shared);
}

#[test]
fn windows_failed_step_ends_the_request() {
    let mut guard = acquire(LockBackend::Flock, LockKind::Shared, windows());
    let mut session = guard.begin_upgrade(LockMode::NonBlocking, windows());
    let calls = answer(&mut session, &[(1, 0), (0, 33)]);
    assert_eq!(calls.len(), 2);
    assert!(session.next_call().is_none());
    assert!(matches!(guard.complete(session), Err(Error::WouldBlock)));
    assert_eq!(guard.kind(), LockKind::Shared);

    let mut session = guard.begin_upgrade(LockMode::Blocking, windows());
    answer(&mut session, &[(0, 6)]);
    assert!(session.next_call().is_none());
    assert!(matches!(guard.complete(session), Err(Error::Io(_))));
}

#[test]
fn ofd_commands_per_target() {
    assert_eq!((OfdTarget::LinuxOrAndroid.setlk(), OfdTarget::LinuxOrAndroid.setlkw()), (37, 38));
    assert_eq!((OfdTarget::Apple.setlk(), OfdTarget::Apple.setlkw()), (90, 91));
    assert_eq!((OfdTarget::Illumos.setlk(), OfdTarget::Illumos.setlkw()), (48, 49));
}

#[test]
fn lock_state_is_send_and_sync() {
    fn assert_send_sync<T: Send + Sync>() {}
    assert_send_sync::<LockState>();
    assert_send_sync::<LockSession>();
}

// ── releases report their failures as I/O errors ───────────────────────────

#[test]
fn failed_unlock_is_an_io_error() {
    for (b, code) in [
        (LockBackend::Flock, libc::EWOULDBLOCK),
        (LockBackend::Fcntl, libc::EINVAL),
        (LockBackend::Fcntl, libc::ENOTSUP),
        (LockBackend::Fcntl, libc::EACCES),
    ] {
        let mut guard = acquire(b, LockKind::Exclusive, linux());
        let mut session = guard.begin_unlock(linux());
        answer(&mut session, &[(-1, libc::EINTR), (-1, code)]);
        match guard.complete(session) {
            Err(Error::Io(e)) => assert_eq!(e.raw_os_error(), Some(code)),
            other => panic!("[{b:?}] expected Io, got {other:?}"),
        }
        assert!(!guard.is_armed());
    }
}

#[test]
fn failed_downgrade_is_an_io_error() {
    for (b, code) in [
        (LockBackend::Flock, libc::EWOULDBLOCK),
        (LockBackend::Fcntl, libc::EINVAL),
        (LockBackend::Fcntl, libc::EAGAIN),
    ] {
        let mut guard = acquire(b, LockKind::Exclusive, linux());
        let mut session = guard.begin_downgrade(linux());
        answer(&mut session, &[(-1, code)]);
        match guard.complete(session) {
            Err(Error::Io(e)) => assert_eq!(e.raw_os_error(), Some(code)),
            other => panic!("[{b:?}] expected Io, got {other:?}"),
        }
        assert_eq!(guard.kind(), LockKind::Exclusive);
    }
}

#[test]
fn windows_failed_release_is_an_io_error() {
    let mut guard = acquire(LockBackend::Flock, LockKind::Exclusive, windows());
    let mut session = guard.begin_downgrade(windows());
    answer(&mut session, &[(0, 33)]);
    match guard.complete(session) {
        Err(Error::Io(e)) => assert_eq!(e.raw_os_error(), Some(33)),
        other => panic!("expected Io, got {other:?}"),
    }
    let mut session = guard.begin_unlock(windows());
    answer(&mut session, &[(0, 33)]);
    assert!(matches!(guard.complete(session), Err(Error::Io(_))));
}
