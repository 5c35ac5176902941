//! The guarantees the invoker gives across whole drive sequences, proved over
//! the transition relation that the executable operations are bound to.

use vstd::prelude::*;
use crate::oneshot::{
    CallStep,
    Completion,
    InvokerView,
    Readiness,
    ReadyStep,
    called_transition,
    ready_transition,
};

verus! {

/// Feeds readiness events to a `Pending` invoker one after the other, as a
/// scheduler would, and collects the step asked for after each one. The run
/// stops as soon as the invoker leaves `Pending`: from then on it is driven
/// with completion events instead, or not at all.
pub open spec fn drive_readiness<Req, E>(m: InvokerView<Req>, evs: Seq<Readiness<E>>) -> (
    InvokerView<Req>,
    Seq<ReadyStep<Req, E>>,
)
    decreases evs.len(),
{
    if evs.len() == 0 || !(m.phase is Pending) {
        (m, Seq::<ReadyStep<Req, E>>::empty())
    } else {
        let (m1, s1) = ready_transition(m, evs[0]);
        let (m2, rest) = drive_readiness(m1, evs.drop_first());
        (m2, seq![s1] + rest)
    }
}

/// A capability that is ready at once and whose processing step resolves with
/// `Ok(resp)` drives to completion in one fused pass: the `Ready` event hands
/// the request over — the one and only invocation of the processing step, the
/// slot is empty from then on — and the resolved outcome `Ok(resp)` is
/// returned exactly as produced, after which the invoker is `Completed`.
pub proof fn lemma_immediate_success<Req, T, E>(m: InvokerView<Req>, resp: T)
    requires
        m.phase is Pending,
        m.request is Some,
    ensures
        ({
            let (m1, s1) = ready_transition::<Req, E>(m, Readiness::Ready);
            let (m2, s2) = called_transition::<Req, T, E>(m1, Completion::Resolved(Ok(resp)));
            &&& s1 == ReadyStep::<Req, E>::Invoke(m.request->0)
            &&& m1.phase is Invoking
            &&& m1.request is None
            &&& s2 == CallStep::<T, E>::Finish(Ok::<T, E>(resp))
            &&& m2.phase is Completed
        }),
{
}

/// A readiness failure short-circuits: the invoker completes with exactly the
/// readiness error, the processing step is never invoked, and the request is
/// never consumed — it is dropped with the invoker.
pub proof fn lemma_readiness_failure<Req, E>(m: InvokerView<Req>, err: E)
    requires
        m.phase is Pending,
    ensures
        ({
            let (m1, s1) = ready_transition::<Req, E>(m, Readiness::Failed(err));
            &&& s1 == ReadyStep::<Req, E>::Finish(err)
            &&& !(s1 is Invoke)
            &&& m1.phase is Completed
        }),
{
}

/// A capability that reports `NotReady` `waits` times before becoming ready
/// makes the invoker suspend exactly `waits` times, unchanged each time, and
/// hand the request over exactly once, on the event where readiness first
/// succeeds; the invoker is then `Invoking` with its slot empty.
pub proof fn lemma_deferred_readiness<Req, E>(m: InvokerView<Req>, waits: nat)
    requires
        m.phase is Pending,
        m.request is Some,
    ensures
        ({
            let evs = Seq::new(waits, |i: int| Readiness::<E>::NotReady).push(Readiness::Ready);
            let (m1, steps) = drive_readiness(m, evs);
            &&& steps.len() == waits + 1
            &&& (forall|i: int| 0 <= i < waits ==> steps[i] == ReadyStep::<Req, E>::Suspend)
            &&& steps[waits as int] == ReadyStep::<Req, E>::Invoke(m.request->0)
            &&& m1.phase is Invoking
            &&& m1.request is None
        }),
    decreases waits,
{
    let evs = Seq::new(waits, |i: int| Readiness::<E>::NotReady).push(Readiness::Ready);
    let (head_m, head_s) = ready_transition(m, evs[0]);
    let (m2, rest) = drive_readiness(head_m, evs.drop_first());
    if waits == 0 {
        assert(evs[0] == Readiness::<E>::Ready);
        assert(!(head_m.phase is Pending));
        assert(drive_readiness(head_m, evs.drop_first()).1 =~= Seq::<ReadyStep<Req, E>>::empty());
        assert((seq![head_s] + rest) =~= seq![head_s]);
    } else {
        assert(evs[0] == Readiness::<E>::NotReady);
        assert(head_m == m);
        let tail = Seq::new((waits - 1) as nat, |i: int| Readiness::<E>::NotReady).push(
            Readiness::<E>::Ready,
        );
        assert(evs.drop_first() =~= tail);
        lemma_deferred_readiness::<Req, E>(m, (waits - 1) as nat);
        let steps = seq![head_s] + rest;
        assert forall|i: int| 0 <= i < waits implies steps[i] == ReadyStep::<Req, E>::Suspend by {
            if i > 0 {
                assert(steps[i] == rest[i - 1]);
            }
        }
        assert(steps[waits as int] == rest[waits - 1]);
    }
}

} // verus!
