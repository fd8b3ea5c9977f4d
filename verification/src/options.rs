use vstd::prelude::*;

use crate::backend::LockBackend;
use crate::lock::{LockKind, LockMode};
use crate::session::{LockSession, SessionView};
use crate::sys::{Platform, Request};

verus! {

/// Builder for acquiring a lock with non-default options.
///
/// The default options match the behaviour of a plain lock acquisition: the
/// `Flock` back-end, caller-supplied kind and mode.
#[derive(Debug, Clone)]
pub struct LockOptions {
    backend: LockBackend,
}

impl View for LockOptions {
    type V = LockBackend;

    /// The back-end that the options select.
    closed spec fn view(&self) -> LockBackend {
        self.backend
    }
}

impl Default for LockOptions {
    /// The same options as [`LockOptions::new`].
    fn default() -> (options: Self)
        ensures
            options@ == LockBackend::Flock,
    {
        Self::new()
    }
}

impl LockOptions {
    /// Creates options that select the default [`LockBackend::Flock`] back-end.
    pub fn new() -> (options: Self)
        ensures
            options@ == LockBackend::Flock,
    {
        Self { backend: LockBackend::default() }
    }

    /// Selects the OS primitive used to acquire the lock.
    ///
    /// Use [`LockBackend::Fcntl`] for files that may reside on NFS or CIFS
    /// network mounts. On Unix targets without OFD-lock support, that back-end
    /// returns [`crate::Error::Unsupported`].
    pub fn backend(self, backend: LockBackend) -> (options: Self)
        ensures
            options@ == backend,
    {
        let mut options = self;
        options.backend = backend;
        options
    }

    /// The back-end that these options select.
    pub fn selected_backend(&self) -> (backend: LockBackend)
        ensures
            backend == self@,
    {
        self.backend
    }

    /// Starts acquiring a lock of `kind` in `mode` with the selected back-end.
    pub fn begin_lock(&self, kind: LockKind, mode: LockMode, platform: Platform) -> (session: LockSession)
        ensures
            session.wf(),
            session@ == SessionView::started(Request::Lock(kind, mode), self@, platform),
    {
        LockSession::start(Request::Lock(kind, mode), self.backend, platform)
    }
}

} // verus!
