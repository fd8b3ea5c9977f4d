//! A locking request in progress: which kernel call is due next, and what the
//! request comes to once the kernel has answered.

use vstd::prelude::*;

use crate::backend::LockBackend;
use crate::error::{os_error_code, os_error_would_block, Error};
use crate::sys::unix::{UnixConstants, OFD_UNAVAILABLE};
use crate::sys::windows::WindowsConstants;
use crate::error::ERROR_LOCK_VIOLATION;
use crate::sys::{
    call_failed, call_for, call_interrupted, judge_request, os_call, steps, steps_for, verdict_for,
    OsCall, Platform, Primitive, Request, Verdict,
};

verus! {

/// The abstract state of a [`LockSession`].
pub struct SessionView {
    /// The request being carried out.
    pub request: Request,
    /// The back-end that carries it out.
    pub backend: LockBackend,
    /// The platform it runs on.
    pub platform: Platform,
    /// The primitives still to be carried out, the first one in progress.
    pub remaining: Seq<Primitive>,
    /// `None` while in progress; then whether the request succeeded.
    pub outcome: Option<Result<(), Error>>,
}

impl SessionView {
    /// Done: every primitive succeeded, or the request failed.
    pub open spec fn finished(self) -> bool {
        self.outcome is Some
    }

    /// A session in progress always has a call due, and a session that
    /// succeeded has carried out every primitive.
    pub open spec fn wf(self) -> bool {
        &&& self.outcome is None ==> {
            &&& self.remaining.len() > 0
            &&& call_for(self.remaining[0], self.backend, self.platform) is Some
        }
        &&& self.outcome matches Some(Ok(_)) ==> self.remaining.len() == 0
    }

    /// The kernel call due next, `None` once finished.
    pub open spec fn pending(self) -> Option<OsCall> {
        if self.outcome is None {
            call_for(self.remaining[0], self.backend, self.platform)
        } else {
            None
        }
    }

    /// Closes the session when nothing remains (success) or when the next
    /// primitive has no call on this platform (`Unsupported`).
    pub open spec fn settled(self) -> SessionView {
        if self.outcome is Some {
            self
        } else if self.remaining.len() == 0 {
            SessionView { outcome: Some(Ok(())), ..self }
        } else if call_for(self.remaining[0], self.backend, self.platform) is None {
            SessionView { outcome: Some(Err(Error::Unsupported(OFD_UNAVAILABLE))), ..self }
        } else {
            self
        }
    }

    /// A fresh session for `request`.
    pub open spec fn started(request: Request, backend: LockBackend, platform: Platform) -> SessionView {
        SessionView {
            request,
            backend,
            platform,
            remaining: steps_for(request, platform),
            outcome: None,
        }.settled()
    }

    /// A session that was finished, successfully, without any call.
    pub open spec fn already_done(request: Request, backend: LockBackend, platform: Platform) -> SessionView {
        SessionView { request, backend, platform, remaining: Seq::empty(), outcome: Some(Ok(())) }
    }

    /// The session after the kernel answered the pending call with `ret`,
    /// given what was read out of the OS error that came with it: on success
    /// the next primitive is due; an interrupted call is due again; a failure
    /// ends the request with its error (see [`verdict_for`]).
    pub open spec fn after_reply(
        self,
        ret: i32,
        raw_os_error: Option<i32>,
        kind_would_block: bool,
        error: std::io::Error,
    ) -> SessionView {
        match verdict_for(
            self.request,
            self.pending().unwrap(),
            self.platform,
            ret,
            raw_os_error,
            kind_would_block,
            error,
        ) {
            Verdict::Succeeded => SessionView { remaining: self.remaining.drop_first(), ..self }.settled(),
            Verdict::Retry => self,
            Verdict::Failed(e) => SessionView { outcome: Some(Err(e)), ..self },
        }
    }
}

/// A locking request in progress. The caller asks [`LockSession::next_call`]
/// for the kernel call that is due, makes it, and hands the reply to
/// [`LockSession::observe`], until no call is due; then
/// [`LockSession::finish`] gives the result.
pub struct LockSession {
    request: Request,
    backend: LockBackend,
    platform: Platform,
    steps: Vec<Primitive>,
    next: usize,
    outcome: Option<Result<(), Error>>,
}

impl View for LockSession {
    type V = SessionView;

    closed spec fn view(&self) -> SessionView {
        SessionView {
            request: self.request,
            backend: self.backend,
            platform: self.platform,
            remaining: self.steps@.skip(self.next as int),
            outcome: self.outcome,
        }
    }
}

impl LockSession {
    /// The session is consistent; every public operation keeps it so.
    pub closed spec fn wf(&self) -> bool {
        &&& self.next <= self.steps.len()
        &&& self@.wf()
    }

    /// Closes the session when nothing remains or the next primitive is unavailable.
    fn settle(&mut self)
        requires
            old(self).next <= old(self).steps.len(),
            old(self).outcome is None,
        ensures
            final(self).wf(),
            final(self)@ == old(self)@.settled(),
    {
        if self.next == self.steps.len() {
            self.outcome = Some(Ok(()));
            return;
        }
        let p = self.steps[self.next];
        if os_call(p, self.backend, &self.platform).is_none() {
            self.outcome = Some(Err(Error::Unsupported(OFD_UNAVAILABLE)));
        }
    }

    /// Starts carrying out `request` with `backend` on `platform`.
    pub fn start(request: Request, backend: LockBackend, platform: Platform) -> (session: LockSession)
        ensures
            session.wf(),
            session@ == SessionView::started(request, backend, platform),
    {
        let steps = steps(request, &platform);
        let mut session = LockSession { request, backend, platform, steps, next: 0, outcome: None };
        assert(session.steps@.skip(0) =~= session.steps@);
        session.settle();
        session
    }

    /// A conversion that needs no kernel call, because the lock already has
    /// the kind asked for, and succeeds.
    pub fn done(request: Request, backend: LockBackend, platform: Platform) -> (session: LockSession)
        requires
            request is Upgrade || request is Downgrade,
        ensures
            session.wf(),
            session@ == SessionView::already_done(request, backend, platform),
    {
        let session = LockSession {
            request,
            backend,
            platform,
            steps: Vec::new(),
            next: 0,
            outcome: Some(Ok(())),
        };
        assert(session.steps@.skip(0) =~= Seq::<Primitive>::empty());
        session
    }

    /// The request being carried out.
    pub fn request(&self) -> (request: Request)
        ensures
            request == self@.request,
    {
        self.request
    }

    /// The back-end that carries the request out.
    pub fn backend(&self) -> (backend: LockBackend)
        ensures
            backend == self@.backend,
    {
        self.backend
    }

    /// Whether the session is finished.
    pub fn is_finished(&self) -> (finished: bool)
        ensures
            finished == self@.finished(),
    {
        self.outcome.is_some()
    }

    /// The kernel call that is due, or `None` once the session is finished.
    pub fn next_call(&self) -> (call: Option<OsCall>)
        requires
            self.wf(),
        ensures
            call == self@.pending(),
            call is None <==> self@.finished(),
    {
        if self.outcome.is_some() {
            return None;
        }
        os_call(self.steps[self.next], self.backend, &self.platform)
    }

    /// Hands over the reply `ret` to the pending call, with what was read out
    /// of the OS error that came with it (see [`SessionView::after_reply`]).
    pub fn observe_reply(
        &mut self,
        ret: i32,
        raw_os_error: Option<i32>,
        kind_would_block: bool,
        error: std::io::Error,
    )
        requires
            old(self).wf(),
            !old(self)@.finished(),
        ensures
            final(self).wf(),
            final(self)@ == old(self)@.after_reply(ret, raw_os_error, kind_would_block, error),
    {
        let call = os_call(self.steps[self.next], self.backend, &self.platform);
        let call = match call {
            Some(call) => call,
            None => {
                assert(false);
                return;
            },
        };
        let ghost pre = self@;
        match judge_request(
            self.request,
            &call,
            &self.platform,
            ret,
            raw_os_error,
            kind_would_block,
            error,
        ) {
            Verdict::Succeeded => {
                self.next = self.next + 1;
                assert(self.steps@.skip(self.next as int) =~= pre.remaining.drop_first());
                self.settle();
            },
            Verdict::Retry => {},
            Verdict::Failed(e) => {
                self.outcome = Some(Err(e));
            },
        }
    }

    /// Hands over the reply `ret` to the pending call, with the OS error that
    /// came with it (`std::io::Error::last_os_error()` read right after the call).
    pub fn observe(&mut self, ret: i32, error: std::io::Error)
        requires
            old(self).wf(),
            !old(self)@.finished(),
        ensures
            final(self).wf(),
            final(self)@ == old(self)@.after_reply(
                ret,
                os_error_code(error),
                os_error_would_block(error),
                error,
            ),
    {
        let raw_os_error = crate::error::io_error_raw_os_error(&error);
        let kind_would_block = crate::error::io_error_kind_is_would_block(&error);
        self.observe_reply(ret, raw_os_error, kind_would_block, error);
    }

    /// The result of a finished session.
    pub fn finish(self) -> (result: Result<(), Error>)
        requires
            self.wf(),
            self@.finished(),
        ensures
            self@.outcome == Some(result),
    {
        match self.outcome {
            Some(result) => result,
            None => {
                assert(false);
                Ok(())
            },
        }
    }
}

/// An interrupted Unix call is made again: a failure with `EINTR` changes
/// nothing, so the same call stays due.
pub proof fn law_interrupted_call_is_retried(
    s: SessionView,
    c: UnixConstants,
    ret: i32,
    kind_would_block: bool,
    error: std::io::Error,
)
    requires
        s.wf(),
        !s.finished(),
        s.platform matches Platform::Unix { constants, .. } && constants == c,
        call_failed(s.pending().unwrap(), s.platform, ret),
    ensures
        s.after_reply(ret, Some(c.eintr), kind_would_block, error) == s,
{
}

/// An acquisition or upgrade that the kernel refuses because the lock is
/// held elsewhere ends in `WouldBlock`: with `fcntl`, on `EACCES` or
/// `EAGAIN`; with `flock` and on Windows, on an OS error of kind `WouldBlock`.
pub proof fn law_contention_is_would_block(
    s: SessionView,
    ret: i32,
    raw_os_error: Option<i32>,
    error: std::io::Error,
)
    requires
        s.wf(),
        !s.finished(),
        s.request is Lock || s.request is Upgrade,
        s.remaining[0] is Lock,
        call_failed(s.pending().unwrap(), s.platform, ret),
        match s.platform {
            Platform::Unix { constants, .. } => raw_os_error != Some(constants.eintr) && (
                s.backend == LockBackend::Fcntl ==> (raw_os_error == Some(constants.eacces)
                    || raw_os_error == Some(constants.eagain))),
            Platform::Windows { .. } => true,
        },
    ensures
        s.after_reply(ret, raw_os_error, true, error).outcome == Some(
            Err::<(), Error>(Error::WouldBlock),
        ),
{
}

/// On Windows an acquisition or upgrade refused with `ERROR_LOCK_VIOLATION`
/// is contention too.
pub proof fn law_lock_violation_is_would_block(
    s: SessionView,
    ret: i32,
    kind_would_block: bool,
    error: std::io::Error,
)
    requires
        s.wf(),
        !s.finished(),
        s.platform is Windows,
        s.request is Lock || s.request is Upgrade,
        call_failed(s.pending().unwrap(), s.platform, ret),
    ensures
        s.after_reply(ret, Some(ERROR_LOCK_VIOLATION), kind_would_block, error).outcome == Some(
            Err::<(), Error>(Error::WouldBlock),
        ),
{
}

/// A release (an unlock, or a downgrade) that the kernel refuses for any
/// reason but an interruption fails with `Io`, carrying the OS error.
pub proof fn law_release_failures_are_io(
    s: SessionView,
    ret: i32,
    raw_os_error: Option<i32>,
    kind_would_block: bool,
    error: std::io::Error,
)
    requires
        s.wf(),
        !s.finished(),
        s.request is Unlock || s.request is Downgrade,
        call_failed(s.pending().unwrap(), s.platform, ret),
        !call_interrupted(s.pending().unwrap(), s.platform, raw_os_error),
    ensures
        s.after_reply(ret, raw_os_error, kind_would_block, error).outcome == Some(
            Err::<(), Error>(Error::Io(error)),
        ),
{
}

/// There is no fallback to process-scoped POSIX locks: on a Unix target
/// without OFD locks every request with the `Fcntl` back-end fails with
/// `Unsupported` before any call is made.
pub proof fn law_no_posix_fallback(request: Request, c: UnixConstants)
    ensures
        SessionView::started(
            request,
            LockBackend::Fcntl,
            Platform::Unix { constants: c, ofd: None },
        ).outcome == Some(Err::<(), Error>(Error::Unsupported(OFD_UNAVAILABLE))),
        SessionView::started(
            request,
            LockBackend::Fcntl,
            Platform::Unix { constants: c, ofd: None },
        ).pending() is None,
{
}

/// On Windows the two back-ends carry out every request identically.
pub proof fn law_windows_sessions_agree(request: Request, c: WindowsConstants)
    ensures
        ({
            let by_flock = SessionView::started(request, LockBackend::Flock, Platform::Windows { constants: c });
            let by_fcntl = SessionView::started(request, LockBackend::Fcntl, Platform::Windows { constants: c });
            by_flock.remaining == by_fcntl.remaining && by_flock.outcome == by_fcntl.outcome
                && by_flock.pending() == by_fcntl.pending()
        }),
{
}

/// A fresh session on an available back-end has its first call due.
pub proof fn law_started_session_calls_first_step(
    request: Request,
    backend: LockBackend,
    platform: Platform,
)
    requires
        call_for(steps_for(request, platform)[0], backend, platform) is Some,
    ensures
        SessionView::started(request, backend, platform).pending() == call_for(
            steps_for(request, platform)[0],
            backend,
            platform,
        ),
{
}

} // verus!
