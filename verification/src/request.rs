use vstd::prelude::*;

verus! {

/// Per-request store for ambient data of the keyed value type `V`.
///
/// The store keeps at most one value of the keyed type: inserting while a
/// value is already present overwrites it (last write wins), and absence is an
/// ordinary, non-erroneous state that `get` reports as `None`.
pub struct Context<V> {
    /// The value currently stored, if any.
    pub slot: Option<V>,
}

impl<V> Context<V> {
    /// An empty store.
    pub fn new() -> (c: Context<V>)
        ensures
            c.slot == None::<V>,
    {
        Context { slot: None }
    }

    /// Stores `value`, overwriting whatever the store held before.
    pub fn insert(&mut self, value: V)
        ensures
            final(self).slot == Some(value),
    {
        self.slot = Some(value);
    }

    /// The stored value, or `None` when nothing has been stored.
    pub fn get(&self) -> (r: Option<&V>)
        ensures
            match r {
                Some(v) => self.slot == Some(*v),
                None => self.slot == None::<V>,
            },
    {
        self.slot.as_ref()
    }
}

/// One unit of work flowing through the pipeline: an opaque payload together
/// with the per-request context that layers may fill on the way in.
pub struct JobRequest<J, V> {
    /// The job's own data; no layer of this crate reads or changes it.
    pub payload: J,
    /// The ambient data attached to this request.
    pub context: Context<V>,
}

impl<J, V> JobRequest<J, V> {
    /// A fresh request around `payload`, with an empty context.
    pub fn new(payload: J) -> (r: JobRequest<J, V>)
        ensures
            r.payload == payload,
            r.context.slot == None::<V>,
    {
        JobRequest { payload, context: Context::new() }
    }

    /// Read access to the request's context.
    pub fn context(&self) -> (c: &Context<V>)
        ensures
            *c == self.context,
    {
        &self.context
    }

    /// Write access to the request's context, for layers and downstream
    /// handlers to fill and read.
    pub fn context_mut(&mut self) -> (c: &mut Context<V>)
        ensures
            *c == old(self).context,
            final(self).context == *final(c),
            final(self).payload == old(self).payload,
    {
        &mut self.context
    }

    /// The request `req` with `value` stored in its context and nothing else
    /// changed.
    pub open spec fn with_value(req: JobRequest<J, V>, value: V) -> JobRequest<J, V> {
        JobRequest { payload: req.payload, context: Context { slot: Some(value) } }
    }
}

} // verus!
