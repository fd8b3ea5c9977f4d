use vstd::prelude::*;

use crate::backend::LockBackend;
use crate::error::Error;
use crate::session::{LockSession, SessionView};
use crate::sys::{Platform, Request};

verus! {

/// The kind of lock to acquire.
///
/// | Kind        | Multiple holders? |
/// |-------------|-------------------|
/// | `Shared`    | Yes               |
/// | `Exclusive` | No                |
#[derive(Debug, Clone, Copy, PartialEq, Eq, Structural, Hash)]
pub enum LockKind {
    /// A shared (read) lock.
    Shared,
    /// An exclusive (write) lock.
    Exclusive,
}

/// Whether the locking call should block until the lock is available.
#[derive(Debug, Clone, Copy, PartialEq, Eq, Structural, Hash)]
pub enum LockMode {
    /// Block the calling thread until the lock can be acquired.
    Blocking,
    /// Return immediately with [`crate::Error::WouldBlock`] when the lock is held.
    NonBlocking,
}

} // verus!

verus! {

/// The kind a guard holds after `request` ends: an upgrade that succeeded
/// leaves it exclusive, a downgrade that succeeded leaves it shared, and
/// anything else leaves it as it was.
pub open spec fn kind_after(kind: LockKind, request: Request, succeeded: bool) -> LockKind {
    if succeeded {
        match request {
            Request::Upgrade(_) => LockKind::Exclusive,
            Request::Downgrade => LockKind::Shared,
            _ => kind,
        }
    } else {
        kind
    }
}

/// Whether a guard still releases its lock when dropped, after `request`
/// ends: an explicit unlock disarms it, whatever its outcome.
pub open spec fn armed_after(armed: bool, request: Request) -> bool {
    if request is Unlock {
        false
    } else {
        armed
    }
}

/// The state of a held file lock: its kind, its back-end, and whether it is
/// still to be released when its guard goes away.
#[derive(Debug)]
pub struct LockState {
    kind: LockKind,
    backend: LockBackend,
    armed: bool,
}

impl LockState {
    /// The kind of lock held.
    pub closed spec fn spec_kind(&self) -> LockKind {
        self.kind
    }

    /// The back-end the lock was taken with.
    pub closed spec fn spec_backend(&self) -> LockBackend {
        self.backend
    }

    /// Whether the lock is still to be released when its guard goes away.
    pub closed spec fn spec_armed(&self) -> bool {
        self.armed
    }

    /// A freshly acquired lock.
    pub(crate) fn new(kind: LockKind, backend: LockBackend) -> (state: LockState)
        ensures
            state.spec_kind() == kind,
            state.spec_backend() == backend,
            state.spec_armed(),
    {
        LockState { kind, backend, armed: true }
    }

    /// The state of the lock that a finished acquisition took, or its error.
    pub fn acquired(session: LockSession) -> (result: Result<LockState, Error>)
        requires
            session.wf(),
            session@.finished(),
            session@.request is Lock,
        ensures
            match result {
                Ok(state) => {
                    &&& session@.outcome matches Some(Ok(_))
                    &&& session@.request matches Request::Lock(kind, _) && state.spec_kind() == kind
                    &&& state.spec_backend() == session@.backend
                    &&& state.spec_armed()
                },
                Err(e) => session@.outcome == Some(Err::<(), Error>(e)),
            },
    {
        let request = session.request();
        let backend = session.backend();
        let result = session.finish();
        match result {
            Ok(()) => match request {
                Request::Lock(kind, _) => {
                    let state = LockState::new(kind, backend);
                    Ok(state)
                },
                _ => {
                    assert(false);
                    Err(Error::WouldBlock)
                },
            },
            Err(e) => Err(e),
        }
    }

    /// Returns the kind of lock currently held.
    pub fn kind(&self) -> (kind: LockKind)
        ensures
            kind == self.spec_kind(),
    {
        self.kind
    }

    /// Returns the back-end the lock was taken with.
    pub fn backend(&self) -> (backend: LockBackend)
        ensures
            backend == self.spec_backend(),
    {
        self.backend
    }

    /// Whether the lock is still to be released when its guard goes away.
    pub fn is_armed(&self) -> (armed: bool)
        ensures
            armed == self.spec_armed(),
    {
        self.armed
    }

    /// Starts converting the lock into an exclusive one. A lock that is
    /// already exclusive needs no kernel call, and the conversion succeeds.
    pub fn begin_upgrade(&self, mode: LockMode, platform: Platform) -> (session: LockSession)
        ensures
            session.wf(),
            session@ == if self.spec_kind() == LockKind::Exclusive {
                SessionView::already_done(Request::Upgrade(mode), self.spec_backend(), platform)
            } else {
                SessionView::started(Request::Upgrade(mode), self.spec_backend(), platform)
            },
    {
        if self.kind == LockKind::Exclusive {
            LockSession::done(Request::Upgrade(mode), self.backend, platform)
        } else {
            LockSession::start(Request::Upgrade(mode), self.backend, platform)
        }
    }

    /// Starts converting the lock into a shared one. A lock that is already
    /// shared needs no kernel call, and the conversion succeeds.
    pub fn begin_downgrade(&self, platform: Platform) -> (session: LockSession)
        ensures
            session.wf(),
            session@ == if self.spec_kind() == LockKind::Shared {
                SessionView::already_done(Request::Downgrade, self.spec_backend(), platform)
            } else {
                SessionView::started(Request::Downgrade, self.spec_backend(), platform)
            },
    {
        if self.kind == LockKind::Shared {
            LockSession::done(Request::Downgrade, self.backend, platform)
        } else {
            LockSession::start(Request::Downgrade, self.backend, platform)
        }
    }

    /// Starts releasing the lock explicitly.
    pub fn begin_unlock(&self, platform: Platform) -> (session: LockSession)
        ensures
            session.wf(),
            session@ == SessionView::started(Request::Unlock, self.spec_backend(), platform),
    {
        LockSession::start(Request::Unlock, self.backend, platform)
    }

    /// The release that the guard makes when it goes away: one unlock while
    /// the lock is armed, nothing once it has been unlocked or handed over.
    pub fn release_on_drop(&self, platform: Platform) -> (session: Option<LockSession>)
        ensures
            session is Some <==> self.spec_armed(),
            session matches Some(s) ==> s.wf() && s@ == SessionView::started(
                Request::Unlock,
                self.spec_backend(),
                platform,
            ),
    {
        if self.armed {
            Some(LockSession::start(Request::Unlock, self.backend, platform))
        } else {
            None
        }
    }

    /// Records the end of a conversion or of an explicit unlock, and gives
    /// its result.
    pub fn complete(&mut self, session: LockSession) -> (result: Result<(), Error>)
        requires
            session.wf(),
            session@.finished(),
            !(session@.request is Lock),
            session@.backend == old(self).spec_backend(),
        ensures
            session@.outcome == Some(result),
            final(self).spec_kind() == kind_after(old(self).spec_kind(), session@.request, result is Ok),
            final(self).spec_backend() == old(self).spec_backend(),
            final(self).spec_armed() == armed_after(old(self).spec_armed(), session@.request),
    {
        let request = session.request();
        let result = session.finish();
        match request {
            Request::Upgrade(_) => {
                if result.is_ok() {
                    self.kind = LockKind::Exclusive;
                }
            },
            Request::Downgrade => {
                if result.is_ok() {
                    self.kind = LockKind::Shared;
                }
            },
            Request::Unlock => {
                self.armed = false;
            },
            Request::Lock(_, _) => {},
        }
        result
    }

    /// Hands the file over without releasing the lock: the guard will no
    /// longer release it when it goes away.
    pub fn disarm(&mut self)
        ensures
            final(self).spec_kind() == old(self).spec_kind(),
            final(self).spec_backend() == old(self).spec_backend(),
            !final(self).spec_armed(),
    {
        self.armed = false;
    }
}

} // verus!

verus! {

/// A request that fails leaves the kind of the lock as it was.
pub proof fn law_failure_keeps_kind(kind: LockKind, request: Request)
    ensures
        kind_after(kind, request, false) == kind,
{
}

/// Converting twice is converting once: an exclusive lock stays exclusive
/// under an upgrade, a shared one stays shared under a downgrade.
pub proof fn law_conversions_are_idempotent(mode: LockMode, succeeded: bool)
    ensures
        kind_after(LockKind::Exclusive, Request::Upgrade(mode), succeeded) == LockKind::Exclusive,
        kind_after(LockKind::Shared, Request::Downgrade, succeeded) == LockKind::Shared,
{
}

/// A downgrade undoes an upgrade, and an upgrade undoes a downgrade, when
/// both succeed.
pub proof fn law_downgrade_undoes_upgrade(kind: LockKind, mode: LockMode)
    ensures
        kind_after(kind_after(kind, Request::Upgrade(mode), true), Request::Downgrade, true)
            == LockKind::Shared,
        kind_after(kind_after(kind, Request::Downgrade, true), Request::Upgrade(mode), true)
            == LockKind::Exclusive,
{
}

/// An explicit unlock disarms the guard, so it releases at most once;
/// conversions leave the guard armed as it was.
pub proof fn law_release_happens_once(armed: bool, mode: LockMode)
    ensures
        !armed_after(armed, Request::Unlock),
        armed_after(armed, Request::Upgrade(mode)) == armed,
        armed_after(armed, Request::Downgrade) == armed,
{
}

} // verus!
