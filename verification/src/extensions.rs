use vstd::prelude::*;

use crate::request::JobRequest;
use crate::service::{JobFuture, Layer, Service};
use crate::Poll;

verus! {

/// A layer that shares one value with every request that passes through it.
///
/// The layer retains the value; each service it builds gives a fresh clone of
/// that value to every request's context before delegating. Cloning is taken
/// as infallible, per the shared-value contract: a clone that panics
/// propagates uncaught.
#[derive(Clone, Copy, Debug)]
pub struct Extension<T>(pub T);

impl<S, T: Clone> Layer<S> for Extension<T> {
    type Service = AddExtension<S, T>;

    open spec fn layer_ok(&self, inner: S, out: AddExtension<S, T>) -> bool {
        &&& out.inner == inner
        &&& cloned::<T>(self.0, out.value)
    }

    fn layer(&self, inner: S) -> (out: AddExtension<S, T>) {
        AddExtension { inner, value: self.0.clone() }
    }
}

/// Middleware that stores a clone of a configured value in each request's
/// context — overwriting any earlier value of the keyed type, last write wins
/// — and then hands the request to the wrapped service unchanged otherwise.
#[derive(Clone, Copy, Debug)]
pub struct AddExtension<S, T> {
    /// The wrapped service.
    pub inner: S,
    /// The value shared with every request.
    pub value: T,
}

impl<J, S, T> Service<J, T> for AddExtension<S, T> where S: Service<J, T>, T: Clone {
    type Response = S::Response;

    type Error = S::Error;

    type Future = S::Future;

    open spec fn inv(&self) -> bool {
        self.inner.inv()
    }

    /// The probe is the wrapped service's probe, with the same outcome; this
    /// layer adds no admission control of its own.
    open spec fn ready_ok(pre: Self, post: Self, r: Poll<()>) -> bool {
        &&& S::ready_ok(pre.inner, post.inner, r)
        &&& post.value == pre.value
    }

    /// The call is the wrapped service's call on the same request, except
    /// that the context now holds a clone of the layer's value; the payload
    /// and the returned future pass through untouched.
    open spec fn call_ok(pre: Self, post: Self, req: JobRequest<J, T>, fut: S::Future) -> bool {
        &&& post.value == pre.value
        &&& exists|ins: T|
            #[trigger] cloned::<T>(pre.value, ins) && S::call_ok(
                pre.inner,
                post.inner,
                JobRequest::with_value(req, ins),
                fut,
            )
    }

    fn poll_ready(&mut self) -> (r: Poll<()>) {
        self.inner.poll_ready()
    }

    fn call(&mut self, req: JobRequest<J, T>) -> (fut: S::Future) {
        let mut req = req;
        let ins = self.value.clone();
        req.context.insert(ins);
        let fut = self.inner.call(req);
        proof {
            assert(cloned::<T>(old(self).value, ins));
        }
        fut
    }
}

/// Extension invariant, and injection purity: a call through [`AddExtension`]
/// hands the wrapped service the very same request, except that the context
/// now holds exactly the layer's value — so of that value's type the context
/// carries one value, equal to the layer's — and the payload is untouched.
/// Stated for values whose clones are indistinguishable from the original,
/// which is the layer's operating assumption about its shared value.
pub proof fn lemma_injection<J, S, T>(
    pre: AddExtension<S, T>,
    post: AddExtension<S, T>,
    req: JobRequest<J, T>,
    fut: S::Future,
) where S: Service<J, T>, T: Clone
    requires
        <AddExtension<S, T> as Service<J, T>>::call_ok(pre, post, req, fut),
        forall|b: T| cloned::<T>(pre.value, b) ==> b == pre.value,
    ensures
        S::call_ok(pre.inner, post.inner, JobRequest::with_value(req, pre.value), fut),
        JobRequest::with_value(req, pre.value).context.slot == Some(pre.value),
        JobRequest::with_value(req, pre.value).payload == req.payload,
        post.value == pre.value,
{
    let ins = choose|ins: T|
        #[trigger] cloned::<T>(pre.value, ins) && S::call_ok(
            pre.inner,
            post.inner,
            JobRequest::with_value(req, ins),
            fut,
        );
    assert(ins == pre.value);
}

/// The layer's value after `i` calls of a chain is still the value it was
/// configured with.
proof fn lemma_value_constant<J, S, T>(
    states: Seq<AddExtension<S, T>>,
    reqs: Seq<JobRequest<J, T>>,
    futs: Seq<S::Future>,
    i: int,
) where S: Service<J, T>, T: Clone
    requires
        states.len() == reqs.len() + 1,
        futs.len() == reqs.len(),
        forall|k: int|
            0 <= k < reqs.len() ==> <AddExtension<S, T> as Service<J, T>>::call_ok(
                states[k],
                states[k + 1],
                #[trigger] reqs[k],
                futs[k],
            ),
        0 <= i <= reqs.len(),
    ensures
        states[i].value == states[0].value,
    decreases i,
{
    if i > 0 {
        lemma_value_constant(states, reqs, futs, i - 1);
        assert(<AddExtension<S, T> as Service<J, T>>::call_ok(
            states[i - 1],
            states[i],
            reqs[i - 1],
            futs[i - 1],
        ));
    }
}

/// Extension invariant over a whole run: across any chain of sequential calls
/// through one [`AddExtension`], the layer's value never changes, so every
/// single call hands the wrapped service a request whose context holds
/// exactly the configured value — and each payload untouched. Stated, as
/// [`lemma_injection`], for values whose clones are indistinguishable from
/// the original.
pub proof fn lemma_injection_sequential<J, S, T>(
    states: Seq<AddExtension<S, T>>,
    reqs: Seq<JobRequest<J, T>>,
    futs: Seq<S::Future>,
) where S: Service<J, T>, T: Clone
    requires
        states.len() == reqs.len() + 1,
        futs.len() == reqs.len(),
        forall|i: int|
            0 <= i < reqs.len() ==> <AddExtension<S, T> as Service<J, T>>::call_ok(
                states[i],
                states[i + 1],
                #[trigger] reqs[i],
                futs[i],
            ),
        forall|b: T| cloned::<T>(states[0].value, b) ==> b == states[0].value,
    ensures
        forall|i: int| 0 <= i <= reqs.len() ==> (#[trigger] states[i]).value == states[0].value,
        forall|i: int|
            0 <= i < reqs.len() ==> S::call_ok(
                states[i].inner,
                states[i + 1].inner,
                JobRequest::with_value(#[trigger] reqs[i], states[0].value),
                futs[i],
            ),
{
    assert forall|i: int| 0 <= i <= reqs.len() implies (#[trigger] states[i]).value == states[0].value by {
        lemma_value_constant(states, reqs, futs, i);
    }
    assert forall|i: int| 0 <= i < reqs.len() implies S::call_ok(
        states[i].inner,
        states[i + 1].inner,
        JobRequest::with_value(#[trigger] reqs[i], states[0].value),
        futs[i],
    ) by {
        lemma_value_constant(states, reqs, futs, i);
        lemma_injection::<J, S, T>(states[i], states[i + 1], reqs[i], futs[i]);
    }
}

/// Readiness transparency: a probe of the decorated service is exactly a
/// probe of the wrapped service, with the same outcome at every point in
/// time; the layer's own state never changes.
pub proof fn lemma_readiness_transparency<J, S, T>(
    pre: AddExtension<S, T>,
    post: AddExtension<S, T>,
    r: Poll<()>,
) where S: Service<J, T>, T: Clone
    requires
        <AddExtension<S, T> as Service<J, T>>::ready_ok(pre, post, r),
    ensures
        S::ready_ok(pre.inner, post.inner, r),
        post.value == pre.value,
{
}

} // verus!
