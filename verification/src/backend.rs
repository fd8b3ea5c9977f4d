use vstd::prelude::*;

verus! {

/// Which OS locking primitive is used when acquiring a lock.
///
/// | Backend | Unix mechanism                  | Windows      | Network filesystems |
/// |---------|---------------------------------|--------------|---------------------|
/// | `Flock` | `flock(2)`                      | `LockFileEx` | Local Unix only     |
/// | `Fcntl` | OFD locks where available       | `LockFileEx` | Preferred backend   |
///
/// On Unix targets without open-file-description locks the `Fcntl` backend
/// reports [`crate::Error::Unsupported`] instead of falling back to
/// process-scoped POSIX record locks. On Windows both variants use
/// `LockFileEx`.
#[derive(Debug, Clone, Copy, PartialEq, Eq, Structural, Hash)]
pub enum LockBackend {
    /// `flock(2)` on Unix, `LockFileEx` on Windows.
    Flock,
    /// `fcntl(2)` OFD locks on supported Unix targets, `LockFileEx` on Windows.
    Fcntl,
}

impl Default for LockBackend {
    /// The default backend is [`LockBackend::Flock`].
    fn default() -> (backend: Self)
        ensures
            backend == LockBackend::Flock,
    {
        LockBackend::Flock
    }
}

} // verus!
