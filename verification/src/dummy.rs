//! A layer and a service that only hold their place in a stack.

use vstd::prelude::*;

verus! {

/// Layer that puts a [`DummyService`] around a service.
#[derive(Debug, Clone, Copy)]
pub struct DummyLayer;

/// A service that holds an inner service and answers nothing itself.
#[derive(Debug)]
pub struct DummyService<S>(pub S);

impl DummyLayer {
    /// Create a new [`DummyLayer`].
    pub fn new() -> (layer: DummyLayer)
        ensures
            layer == DummyLayer,
    {
        DummyLayer
    }

    /// Puts a [`DummyService`] around `inner`.
    pub fn layer<S>(&self, inner: S) -> (service: DummyService<S>)
        ensures
            service.0 == inner,
    {
        DummyService::new(inner)
    }
}

impl<S> DummyService<S> {
    /// Create a new [`DummyService`].
    pub fn new(inner: S) -> (service: DummyService<S>)
        ensures
            service.0 == inner,
    {
        DummyService(inner)
    }
}

} // verus!
