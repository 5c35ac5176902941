//! The invoker itself: its phases, the events the scheduler feeds it, the
//! actions it asks for in return, and the transition relation its operations
//! are proved against.

use vstd::prelude::*;

verus! {

/// The phase an invoker is in.
///
/// An invoker moves monotonically `Pending -> Invoking -> Completed`: while
/// `Pending` it still holds the request and waits for the capability to become
/// ready; while `Invoking` the request has been handed over and the
/// capability's own result computation is in flight; `Completed` is terminal,
/// the one outcome has been produced and the invoker must not be driven again.
#[derive(Clone, Copy, PartialEq, Eq, Structural, Debug)]
pub enum Phase {
    Pending,
    Invoking,
    Completed,
}

/// What the capability's readiness check reported when it was polled.
#[derive(Debug)]
pub enum Readiness<E> {
    /// Not ready yet; the capability registered the wake-context and will
    /// re-wake the scheduler when it becomes ready.
    NotReady,
    /// Ready: the capability may now be handed the request.
    Ready,
    /// The readiness check itself failed.
    Failed(E),
}

/// What the capability's in-flight result computation reported when polled.
#[derive(Debug)]
pub enum Completion<T, E> {
    /// Still unresolved; the wake-context was registered.
    Suspended,
    /// Resolved with the capability's outcome, success or error.
    Resolved(Result<T, E>),
}

/// What the scheduler must do after driving a `Pending` invoker.
#[derive(Debug)]
pub enum ReadyStep<Req, E> {
    /// Suspend: return control to the scheduler and re-drive on wake.
    Suspend,
    /// Hand this request to the capability's processing operation, then drive
    /// the invoker (now `Invoking`) with the computation's outcome.
    Invoke(Req),
    /// The readiness check failed: the invoker's one outcome is this error,
    /// and the processing operation is never invoked.
    Finish(E),
}

/// What the scheduler must do after driving an `Invoking` invoker.
#[derive(Debug)]
pub enum CallStep<T, E> {
    /// Suspend: return control to the scheduler and re-drive on wake.
    Suspend,
    /// The invoker's one outcome, exactly as the processing computation
    /// produced it.
    Finish(Result<T, E>),
}

enum State<Req> {
    NotReady(Option<Req>),
    Called,
    Done,
}

/// A single-use invoker: owns one request and drives the two-phase
/// "become ready, then process" protocol to exactly one outcome.
///
/// The capability itself is an external collaborator; the scheduler that owns
/// it polls it and feeds the invoker the resulting [`Readiness`] and
/// [`Completion`] events, performing the [`ReadyStep`] / [`CallStep`] actions
/// the invoker hands back.
pub struct Oneshot<Req> {
    state: State<Req>,
}

/// The mathematical view of an invoker: its phase and the request it still
/// holds, if any.
pub struct InvokerView<Req> {
    pub phase: Phase,
    pub request: Option<Req>,
}

impl<Req> View for Oneshot<Req> {
    type V = InvokerView<Req>;

    closed spec fn view(&self) -> InvokerView<Req> {
        match self.state {
            State::NotReady(req) => InvokerView { phase: Phase::Pending, request: req },
            State::Called => InvokerView { phase: Phase::Invoking, request: None },
            State::Done => InvokerView { phase: Phase::Completed, request: None },
        }
    }
}

/// The transition taken by a `Pending` invoker on a readiness event: `NotReady`
/// suspends and changes nothing, `Ready` moves the request out (the slot is
/// empty from then on) and asks for the one invocation, and `Failed` completes
/// with the readiness error without ever consuming the request.
pub open spec fn ready_transition<Req, E>(m: InvokerView<Req>, ev: Readiness<E>) -> (
    InvokerView<Req>,
    ReadyStep<Req, E>,
) {
    match ev {
        Readiness::NotReady => (m, ReadyStep::Suspend),
        Readiness::Ready => (
            InvokerView { phase: Phase::Invoking, request: None },
            ReadyStep::Invoke(m.request->0),
        ),
        Readiness::Failed(err) => (
            InvokerView { phase: Phase::Completed, request: None },
            ReadyStep::Finish(err),
        ),
    }
}

/// The transition taken by an `Invoking` invoker on a completion event:
/// `Suspended` changes nothing, `Resolved` completes with the computation's
/// outcome passed through unchanged.
pub open spec fn called_transition<Req, T, E>(m: InvokerView<Req>, ev: Completion<T, E>) -> (
    InvokerView<Req>,
    CallStep<T, E>,
) {
    match ev {
        Completion::Suspended => (m, CallStep::Suspend),
        Completion::Resolved(outcome) => (
            InvokerView { phase: Phase::Completed, request: None },
            CallStep::Finish(outcome),
        ),
    }
}

impl<Req> Oneshot<Req> {
    /// Well-formedness: a `Pending` invoker still holds its request. Driving a
    /// `Pending` invoker whose slot is already empty would be an internal
    /// logic error, so that state is ruled out up front.
    pub open spec fn wf(&self) -> bool {
        self@.phase is Pending ==> self@.request is Some
    }

    /// Creates an invoker that owns `req` and has done no work yet.
    pub fn new(req: Req) -> (invoker: Oneshot<Req>)
        ensures
            invoker.wf(),
            invoker@.phase is Pending,
            invoker@.request == Some(req),
    {
        Oneshot { state: State::NotReady(Some(req)) }
    }

    /// Reports the phase the invoker is in, so the scheduler knows which event
    /// to feed it next, and that a `Completed` invoker must not be driven at
    /// all.
    pub fn phase(&self) -> (p: Phase)
        ensures
            p == self@.phase,
    {
        match self.state {
            State::NotReady(_) => Phase::Pending,
            State::Called => Phase::Invoking,
            State::Done => Phase::Completed,
        }
    }

    /// Drives a `Pending` invoker with the outcome of the capability's
    /// readiness check. The result and the new state are exactly those of
    /// [`ready_transition`]: in particular the request leaves the invoker
    /// exactly on the first `Ready` event, and never on a failure.
    ///
    /// Calling this in any other phase is a contract violation, not a
    /// recoverable condition, and is excluded up front.
    pub fn drive_ready<E>(&mut self, ev: Readiness<E>) -> (step: ReadyStep<Req, E>)
        requires
            old(self).wf(),
            old(self)@.phase is Pending,
        ensures
            final(self).wf(),
            (final(self)@, step) == ready_transition::<Req, E>(old(self)@, ev),
    {
        match ev {
            Readiness::NotReady => ReadyStep::Suspend,
            Readiness::Ready => {
                let req = match &mut self.state {
                    State::NotReady(slot) => match slot.take() {
                        Some(req) => req,
                        None => unreached(),
                    },
                    _ => unreached(),
                };
                self.state = State::Called;
                ReadyStep::Invoke(req)
            },
            Readiness::Failed(err) => {
                self.state = State::Done;
                ReadyStep::Finish(err)
            },
        }
    }

    /// Drives an `Invoking` invoker with the outcome of polling the
    /// capability's in-flight result computation. The result and the new state
    /// are exactly those of [`called_transition`]: a resolved computation's
    /// outcome is passed through unchanged, once, and the invoker is then
    /// `Completed` and inert.
    ///
    /// Calling this in any other phase is a contract violation, not a
    /// recoverable condition, and is excluded up front.
    pub fn drive_called<T, E>(&mut self, ev: Completion<T, E>) -> (step: CallStep<T, E>)
        requires
            old(self)@.phase is Invoking,
        ensures
            final(self).wf(),
            (final(self)@, step) == called_transition::<Req, T, E>(old(self)@, ev),
    {
        match ev {
            Completion::Suspended => CallStep::Suspend,
            Completion::Resolved(outcome) => {
                self.state = State::Done;
                CallStep::Finish(outcome)
            },
        }
    }
}

} // verus!
