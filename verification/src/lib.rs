//! Middleware composition for an asynchronous job-processing pipeline: a
//! two-phase service/layer contract, a per-request context for ambient data,
//! a layer that injects a shared value into that context, and a layer that
//! instruments services with call-count and latency metrics — each decorator
//! verified against a transition-relation contract.

use vstd::prelude::*;

pub mod echo;
pub mod extensions;
pub mod instrument;
pub mod prometheus;
pub mod request;
pub mod service;

verus! {

/// Outcome of a non-blocking probe or of polling an in-flight response:
/// either the value is available now, or the caller must try again later.
pub enum Poll<T> {
    Ready(T),
    Pending,
}

} // verus!
