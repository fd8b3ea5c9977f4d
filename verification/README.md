# filelocks

Advisory file locking for Unix (`flock(2)`, open-file-description `fcntl(2)`
locks) and Windows (`LockFileEx`), with shared and exclusive locks, blocking
and non-blocking acquisition, upgrade and downgrade, and an RAII guard.

## Layout

- `src/` — the verified library. It decides, for every request, which kernel
  calls are made with which arguments, what each reply means (retrying
  interrupted calls, mapping contention to `WouldBlock`, refusing the `Fcntl`
  back-end where OFD locks are missing), and how a held lock's state changes.
  - `sys/` — the calls of each back-end and the meaning of their replies.
  - `session.rs` — `LockSession`, a request in progress.
  - `lock.rs` — `LockKind`, `LockMode`, `LockState` (a held lock).
  - `options.rs`, `backend.rs`, `error.rs` — `LockOptions`, `LockBackend`, `Error`.
- `app/` — the guard `FileLock` over a `std::fs::File`: it reads the target's
  `libc` / `windows-sys` constants, makes the kernel calls that a session asks
  for, and hands the replies back.
- `tests/` — the library on simulated kernel replies.
