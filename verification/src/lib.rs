//! A single-use adapter that drives a two-phase "become ready, then process a
//! request" protocol to completion.
//!
//! The adapter is an explicit state machine: an [`oneshot::Oneshot`] invoker
//! owns one request and walks through the phases `Pending`, `Invoking` and
//! `Completed` as the surrounding scheduler feeds it the outcomes of the
//! capability's readiness check and of its in-flight result computation. The
//! invoker never hands the request over before readiness was observed, hands
//! it over at most once, and produces exactly one outcome per lifetime.

pub mod laws;
pub mod oneshot;
