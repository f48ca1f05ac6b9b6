//! The server lifecycle: at most one running instance, idempotent start,
//! cooperative stop.
//!
//! The lifecycle record collapses the running flag, the bound port and
//! the shutdown signal into one value, mutated only under the caller's
//! lock. Starting when already running is a no-op on the same port and a
//! conflict on a different one — a second listener is never created.
//! Stopping consumes the one-shot shutdown signal, which asks the
//! serving task to wind down at its next suspension point; the caller
//! binds the socket and spawns the task, handing the receiver to it.
use vstd::prelude::*;
use crate::envelope::ServerError;
use crate::text::{dec_spec, u16_to_decimal};

verus! {

#[verifier::external_type_specification]
#[verifier::external_body]
#[verifier::reject_recursive_types(T)]
pub struct ExOneshotSender<T>(tokio::sync::oneshot::Sender<T>);

#[verifier::external_type_specification]
#[verifier::external_body]
#[verifier::reject_recursive_types(T)]
pub struct ExOneshotReceiver<T>(tokio::sync::oneshot::Receiver<T>);

#[verifier::external_type_specification]
#[verifier::external_body]
pub struct ExOneshotRecvError(tokio::sync::oneshot::error::RecvError);

/// Relies on tokio::sync::oneshot::channel: returns a connected
/// sender/receiver pair. Both halves are opaque here; the lifecycle only
/// records which of them it still holds.
pub assume_specification<T>[ tokio::sync::oneshot::channel::<T> ]() -> (r: (
    tokio::sync::oneshot::Sender<T>,
    tokio::sync::oneshot::Receiver<T>,
));

/// Relies on tokio::sync::oneshot::Sender::send: consumes the sender and
/// delivers the value, unless the receiving half was already dropped, in
/// which case the value comes back in the error. It neither blocks nor
/// panics, so whether delivery succeeded depends only on the receiver's
/// side and nothing can be promised about it here.
pub assume_specification<T>[ tokio::sync::oneshot::Sender::<T>::send ](
    tx: tokio::sync::oneshot::Sender<T>,
    t: T,
) -> (r: Result<(), T>)
    ensures
        r is Err ==> r->Err_0 == t,
;

/// The state every request handler shares with the lifecycle: the
/// shutdown signal (present exactly while the server runs) and the
/// handle to the data store, which is installed once and never replaced.
pub struct AppState<D> {
    pub shutdown_tx: Option<tokio::sync::oneshot::Sender<()>>,
    pub db: D,
}

/// What the lifecycle looks like to specifications: whether an instance
/// runs, on which port, and whether the shutdown signal is still held.
pub struct LifecycleView {
    pub running: bool,
    pub port: u16,
    pub has_signal: bool,
}

/// How `start` moves the lifecycle: a first start records the port and
/// the signal; any later start leaves the record as it is.
pub open spec fn start_transition(v: LifecycleView, port: u16) -> LifecycleView {
    if v.running {
        v
    } else {
        LifecycleView { running: true, port, has_signal: true }
    }
}

/// What a start attempt amounts to.
pub enum StartOutcome {
    /// No instance ran: this call launches the one listener.
    Started,
    /// An instance already runs on the same port: success, a no-op.
    AlreadyRunning,
    /// An instance already runs on a different port: an error, no side
    /// effects.
    Conflict,
}

/// Which of the three outcomes a start attempt has.
pub open spec fn start_outcome(v: LifecycleView, port: u16) -> StartOutcome {
    if !v.running {
        StartOutcome::Started
    } else if v.port == port {
        StartOutcome::AlreadyRunning
    } else {
        StartOutcome::Conflict
    }
}

/// How `stop` moves the lifecycle: a running instance is fully reset —
/// flag cleared, port back to the not-running sentinel, signal consumed;
/// a stopped one is left untouched.
pub open spec fn stop_transition(v: LifecycleView) -> LifecycleView {
    if v.running {
        LifecycleView { running: false, port: 0, has_signal: false }
    } else {
        v
    }
}

/// Whether a stop attempt succeeds: exactly when an instance runs.
pub open spec fn stop_ok(v: LifecycleView) -> bool {
    v.running
}

/// The message a conflicting start fails with: it names the port the
/// running instance is bound to.
pub open spec fn conflict_message(port: u16) -> Seq<char> {
    "HTTP server already running on port "@ + dec_spec(port as int)
}

/// The singleton server lifecycle. The caller keeps one value of this
/// behind a lock; binding the socket and serving happen in the task the
/// caller spawns after a `Started` outcome.
pub struct HttpServer<D> {
    pub running: bool,
    pub port: u16,
    pub state: AppState<D>,
}

impl<D> HttpServer<D> {
    /// The lifecycle record this value embodies.
    pub open spec fn lifecycle(&self) -> LifecycleView {
        LifecycleView {
            running: self.running,
            port: self.port,
            has_signal: self.state.shutdown_tx is Some,
        }
    }

    /// Well-formedness: the signal is held exactly while an instance
    /// runs, and a stopped record keeps the not-running port sentinel.
    pub open spec fn wf(&self) -> bool {
        &&& self.running == (self.state.shutdown_tx is Some)
        &&& !self.running ==> self.port == 0
    }

    /// A fresh lifecycle: nothing runs, no signal, the given store
    /// handle installed for good.
    pub fn new(db: D) -> (r: Self)
        ensures
            r.wf(),
            !r.running,
            r.port == 0,
            r.state.db == db,
    {
        HttpServer { running: false, port: 0, state: AppState { shutdown_tx: None, db } }
    }

    /// Starts the singleton instance, or observes the one that runs.
    ///
    /// On a first start the port and a fresh shutdown signal are
    /// recorded and the receiving half is returned: the caller must
    /// spawn the serving task with it. A repeated start on the same
    /// port succeeds without a receiver — nothing new was launched. A
    /// start on a different port fails with a `StartupError` naming the
    /// bound port and changes nothing.
    pub fn start(&mut self, port: u16) -> (r: Result<
        Option<tokio::sync::oneshot::Receiver<()>>,
        ServerError,
    >)
        requires
            old(self).wf(),
            1024 <= port,
        ensures
            final(self).wf(),
            final(self).lifecycle() == start_transition(old(self).lifecycle(), port),
            final(self).state.db == old(self).state.db,
            r is Ok <==> !(start_outcome(old(self).lifecycle(), port) is Conflict),
            start_outcome(old(self).lifecycle(), port) is Started ==> r is Ok
                && r->Ok_0 is Some,
            start_outcome(old(self).lifecycle(), port) is AlreadyRunning ==> r is Ok
                && r->Ok_0 is None && *final(self) == *old(self),
            start_outcome(old(self).lifecycle(), port) is Conflict ==> r is Err
                && r->Err_0 is StartupError
                && r->Err_0.spec_message() == conflict_message(old(self).port)
                && *final(self) == *old(self),
    {
        if self.running {
            if self.port == port {
                Ok(None)
            } else {
                let mut msg = String::from_str("HTTP server already running on port ");
                msg.append(u16_to_decimal(self.port).as_str());
                Err(ServerError::StartupError(msg))
            }
        } else {
            let pair = tokio::sync::oneshot::channel::<()>();
            self.state.shutdown_tx = Some(pair.0);
            self.running = true;
            self.port = port;
            Ok(Some(pair.1))
        }
    }

    /// Stops the running instance: consumes the shutdown signal — which
    /// only requests cooperative termination, never aborts in-flight
    /// work — and fully resets the record. With no instance registered
    /// it fails with a "not running" error and has no side effects.
    pub fn stop(&mut self) -> (r: Result<(), ServerError>)
        requires
            old(self).wf(),
        ensures
            final(self).wf(),
            final(self).lifecycle() == stop_transition(old(self).lifecycle()),
            final(self).state.db == old(self).state.db,
            r is Ok <==> stop_ok(old(self).lifecycle()),
            !old(self).running ==> r is Err && r->Err_0 is StartupError
                && r->Err_0.spec_message() == "HTTP server not running"@
                && *final(self) == *old(self),
            old(self).running ==> !final(self).running && final(self).port == 0
                && final(self).state.shutdown_tx is None,
    {
        if !self.running {
            return Err(ServerError::StartupError(String::from_str("HTTP server not running")));
        }
        match self.state.shutdown_tx.take() {
            Some(tx) => {
                let _ = tx.send(());
            },
            None => {},
        }
        self.running = false;
        self.port = 0;
        Ok(())
    }
}

/// LAW: starting twice with the same port succeeds both times and
/// results in exactly one launch — the second call observes the running
/// instance and leaves the lifecycle untouched.
pub proof fn lemma_start_idempotent(v: LifecycleView, port: u16)
    requires
        !v.running,
    ensures
        start_outcome(v, port) is Started,
        start_outcome(start_transition(v, port), port) is AlreadyRunning,
        start_transition(start_transition(v, port), port) == start_transition(v, port),
{
}

/// LAW: starting on a different port while an instance is active fails —
/// a conflict, which names the bound port in its error — and does not
/// alter the active instance.
pub proof fn lemma_start_conflict(v: LifecycleView, other_port: u16)
    requires
        v.running,
        v.port != other_port,
    ensures
        start_outcome(v, other_port) is Conflict,
        start_transition(v, other_port) == v,
{
}

/// LAW: stopping with no registered instance fails and has no side
/// effects.
pub proof fn lemma_stop_without_start(v: LifecycleView)
    requires
        !v.running,
    ensures
        !stop_ok(v),
        stop_transition(v) == v,
{
}

/// LAW: start, stop, start again with the same port succeeds at each
/// step — stopping fully resets the singleton, so the third call
/// launches afresh.
pub proof fn lemma_start_stop_start(v: LifecycleView, port: u16)
    requires
        !v.running,
    ensures
        start_outcome(v, port) is Started,
        stop_ok(start_transition(v, port)),
        !stop_transition(start_transition(v, port)).running,
        start_outcome(stop_transition(start_transition(v, port)), port) is Started,
{
}

} // verus!
