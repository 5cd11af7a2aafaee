//! Holding a response up until its whole body is read.

use vstd::prelude::*;

verus! {

/// Layer that puts a [`HoldupService`] around a service.
#[derive(Debug, Clone, Copy)]
pub struct HoldupLayer {}

/// Middleware that hands a response on once its whole body is read.
#[derive(Debug)]
pub struct HoldupService<S> {
    pub inner: S,
}

/// The state of one held response.
#[derive(Debug)]
pub struct HoldupFuture {
    /// What was read of the body so far, until it is handed out.
    pub buffer: Option<Vec<u8>>,
    /// Whether the response's head has arrived.
    pub response: bool,
}

/// What a poll of the inner service or of the response's body came back
/// with.
#[derive(Debug)]
pub enum Polled {
    /// The response's head arrived.
    Response,
    /// A chunk of the body arrived.
    Chunk(Vec<u8>),
    /// The body has ended.
    End,
}

/// What a poll of a held response comes back with.
#[derive(Debug)]
pub enum Held {
    /// The response is not ready yet.
    Pending,
    /// The response is ready, with this as its whole body.
    Ready(Vec<u8>),
}

impl HoldupLayer {
    /// Create a new [`HoldupLayer`].
    pub fn new() -> (layer: HoldupLayer)
        ensures
            layer == (HoldupLayer {  }),
    {
        HoldupLayer {  }
    }

    /// Puts a [`HoldupService`] around `inner`.
    pub fn layer<S>(&self, inner: S) -> (service: HoldupService<S>)
        ensures
            service.inner == inner,
    {
        HoldupService::new(inner)
    }
}

impl<S> HoldupService<S> {
    /// Create a new [`HoldupService`] middleware.
    pub fn new(inner: S) -> (service: HoldupService<S>)
        ensures
            service.inner == inner,
    {
        HoldupService { inner }
    }

    /// Starts to hold a response: nothing of it has arrived yet.
    pub fn call(&self) -> (future: HoldupFuture)
        ensures
            future.held() == Some(Seq::<u8>::empty()),
            !future.response,
    {
        HoldupFuture { buffer: Some(Vec::new()), response: false }
    }
}

impl HoldupFuture {
    /// The bytes read so far, none once they are handed out.
    pub open spec fn held(&self) -> Option<Seq<u8>> {
        match self.buffer {
            Some(bytes) => Some(bytes@),
            None => None,
        }
    }

    /// Takes in what a poll came back with. The head and every chunk leave
    /// the response pending; a chunk is put behind what was read. The end
    /// of the body makes the response ready, with all that was read as its
    /// body. A response that was handed out is not polled again.
    pub fn poll(&mut self, polled: Polled) -> (held: Held)
        requires
            old(self).buffer is Some,
        ensures
            match polled {
                Polled::Response => held is Pending && final(self).response && final(self).held() == old(
                    self,
                ).held(),
                Polled::Chunk(chunk) => {
                    &&& held is Pending
                    &&& final(self).response == old(self).response
                    &&& final(self).held() == Some(old(self).held().unwrap() + chunk@)
                },
                Polled::End => {
                    &&& held matches Held::Ready(body)
                    &&& Some(body@) == old(self).held()
                    &&& final(self).buffer is None
                    &&& final(self).response == old(self).response
                },
            },
    {
        match polled {
            Polled::Response => {
                self.response = true;
                Held::Pending
            },
            Polled::Chunk(mut chunk) => {
                match &mut self.buffer {
                    Some(buffer) => {
                        buffer.append(&mut chunk);
                    },
                    None => {},
                }
                Held::Pending
            },
            Polled::End => match self.buffer.take() {
                Some(body) => Held::Ready(body),
                None => Held::Pending,
            },
        }
    }
}

} // verus!
