//! Server lifecycle manager: idempotent start/stop of a single HTTP listener.
//!
//! The listener handle is an opaque value of type `H` owned by the surrounding
//! process; this module manages the slot that holds it together with the
//! `running` flag, keeping the two in agreement: the server is running exactly
//! when a handle is stored. Binding the listener is outside work; its outcome
//! is passed to `start` as a `Result`.

use vstd::prelude::*;

verus! {

use crate::ServerError;

/// The process-wide server runtime state: an optional listener handle and a
/// running flag. `running` is the single source of truth for idempotency;
/// the handle is stored exactly while `running` is true.
pub struct InferenceServerState<H> {
    server: Option<H>,
    running: bool,
}

impl<H> InferenceServerState<H> {
    /// True exactly when the server is running.
    pub closed spec fn is_running(self) -> bool {
        self.running
    }

    /// The stored listener handle, if any.
    pub closed spec fn listener(self) -> Option<H> {
        self.server
    }

    /// Well-formedness: the server is running exactly when a listener handle
    /// is stored.
    pub open spec fn wf(self) -> bool {
        self.is_running() <==> self.listener() is Some
    }

    /// What `start` does, as a transition on the state: a start while running
    /// fails and changes nothing; otherwise a successful bind stores the
    /// handle and flips the flag, and a failed bind leaves the state stopped.
    pub closed spec fn start_transition(self, bind_result: Result<H, String>) -> (
        Self,
        Result<(), ServerError>,
    ) {
        if self.is_running() {
            (self, Err(ServerError::AlreadyRunning))
        } else {
            match bind_result {
                Ok(handle) => (
                    InferenceServerState { server: Some(handle), running: true },
                    Ok(()),
                ),
                Err(reason) => (self, Err(ServerError::BindFailed(reason))),
            }
        }
    }

    /// What `stop` does, as a transition on the state: a stop while not
    /// running fails and changes nothing; otherwise the handle is surrendered
    /// to the caller and the state returns to stopped.
    pub closed spec fn stop_transition(self) -> (Self, Result<H, ServerError>) {
        match self.listener() {
            Some(handle) => if self.is_running() {
                (InferenceServerState { server: None, running: false }, Ok(handle))
            } else {
                (self, Err(ServerError::NotRunning))
            },
            None => (self, Err(ServerError::NotRunning)),
        }
    }

    /// A fresh, stopped server state.
    pub fn new() -> (s: Self)
        ensures
            s.wf(),
            !s.is_running(),
            s.listener() is None,
    {
        InferenceServerState { server: None, running: false }
    }

    /// True exactly when the server is running (executable query).
    pub fn running(&self) -> (r: bool)
        ensures
            r == self.is_running(),
    {
        self.running
    }

    /// Start the server: the caller binds the listener first and passes the
    /// outcome. Fails with `AlreadyRunning` if the server is already running;
    /// propagates a bind failure as `BindFailed` and leaves the state stopped;
    /// otherwise stores the handle and flips the running flag.
    pub fn start(&mut self, bind_result: Result<H, String>) -> (r: Result<(), ServerError>)
        ensures
            (*final(self), r) == old(self).start_transition(bind_result),
            old(self).wf() ==> final(self).wf(),
            r is Ok <==> !old(self).is_running() && bind_result is Ok,
            r is Ok ==> final(self).is_running(),
            bind_result matches Ok(handle) ==> (!old(self).is_running() ==> final(self).listener()
                == Some(handle)),
            old(self).is_running() ==> r == Err::<(), ServerError>(ServerError::AlreadyRunning),
            bind_result matches Err(reason) ==> (!old(self).is_running() ==> r == Err::<
                (),
                ServerError,
            >(ServerError::BindFailed(reason))),
            r is Err ==> *final(self) == *old(self),
    {
        if self.running {
            Err(ServerError::AlreadyRunning)
        } else {
            match bind_result {
                Ok(handle) => {
                    self.server = Some(handle);
                    self.running = true;
                    Ok(())
                },
                Err(reason) => Err(ServerError::BindFailed(reason)),
            }
        }
    }

    /// Stop the server: fails with `NotRunning` if it is not running;
    /// otherwise takes ownership of the stored listener handle, flips the
    /// flag, and returns the handle so the caller can drive graceful
    /// shutdown.
    pub fn stop(&mut self) -> (r: Result<H, ServerError>)
        ensures
            (*final(self), r) == old(self).stop_transition(),
            old(self).wf() ==> final(self).wf(),
            old(self).wf() ==> (r is Ok <==> old(self).is_running()),
            r is Ok ==> !final(self).is_running() && old(self).listener() == Some(r->Ok_0),
            r is Err ==> r == Err::<H, ServerError>(ServerError::NotRunning)
                && *final(self) == *old(self),
    {
        match self.server.take() {
            Some(handle) => {
                if self.running {
                    self.running = false;
                    Ok(handle)
                } else {
                    self.server = Some(handle);
                    Err(ServerError::NotRunning)
                }
            },
            None => Err(ServerError::NotRunning),
        }
    }
}

impl<H> Default for InferenceServerState<H> {
    /// A fresh, stopped server state.
    fn default() -> (s: Self)
        ensures
            s.wf(),
            !s.is_running(),
            s.listener() is None,
    {
        InferenceServerState::new()
    }
}

/// Of two successive `start` attempts, at most one can succeed: whatever the
/// state and whatever the bind outcomes, the transitions never both return
/// `Ok`, and a start after a successful start fails with `AlreadyRunning`.
pub proof fn lemma_exactly_one_start_succeeds<H>(
    s: InferenceServerState<H>,
    bind1: Result<H, String>,
    bind2: Result<H, String>,
)
    ensures
        !(s.start_transition(bind1).1 is Ok
            && s.start_transition(bind1).0.start_transition(bind2).1 is Ok),
        s.start_transition(bind1).1 is Ok ==> s.start_transition(bind1).0.start_transition(bind2).1
            == Err::<(), ServerError>(ServerError::AlreadyRunning),
{
}

/// Of two successive `stop` attempts, at most one can succeed, whatever the
/// state.
pub proof fn lemma_exactly_one_stop_succeeds<H>(s: InferenceServerState<H>)
    ensures
        !(s.stop_transition().1 is Ok && s.stop_transition().0.stop_transition().1 is Ok),
{
}

/// Stopping twice in a row: on a running, well-formed state the first stop
/// succeeds and the second fails with `NotRunning`.
pub proof fn lemma_stop_twice_fails<H>(s: InferenceServerState<H>)
    requires
        s.wf(),
        s.is_running(),
    ensures
        s.stop_transition().1 is Ok,
        s.stop_transition().0.stop_transition().1 == Err::<H, ServerError>(ServerError::NotRunning),
{
}

} // verus!
