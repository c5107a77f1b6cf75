//! The frame-scoped handle registry: a nullable slot for the current UI frame,
//! published at frame-begin and withdrawn at frame-end. Decoupled call sites
//! draw only through the scoped `with` accessor, so no caller can retain the
//! frame past `withdraw`; outside the publish/withdraw window every access is
//! a safe no-op.

use vstd::prelude::*;

verus! {

/// Holds the current UI frame, if one is published. The slot itself is
/// private: the only public reads are the scoped accessors below.
pub struct FrameRegistry<F> {
    current: Option<F>,
}

impl<F> FrameRegistry<F> {
    /// The published frame, if any.
    pub closed spec fn published(self) -> Option<F> {
        self.current
    }

    /// A fresh registry, with no frame published.
    pub fn new() -> (r: FrameRegistry<F>)
        ensures
            r.published() is None,
    {
        FrameRegistry { current: None }
    }

    /// Installs `frame` as the current handle, valid until `withdraw`.
    pub fn publish(&mut self, frame: F)
        ensures
            final(self).published() == Some(frame),
    {
        self.current = Some(frame);
    }

    /// Clears the current handle; returns the frame that was published, if
    /// any, so the caller can end it.
    pub fn withdraw(&mut self) -> (r: Option<F>)
        ensures
            final(self).published() is None,
            r == old(self).published(),
    {
        self.current.take()
    }

    /// A borrow of the current frame, exactly while one is published.
    pub fn current_ui(&self) -> (r: Option<&F>)
        ensures
            r is Some <==> self.published() is Some,
            r is Some ==> *r.unwrap() == self.published().unwrap(),
    {
        match &self.current {
            Some(frame) => Some(frame),
            None => None,
        }
    }

    /// Runs `callback` on the current frame. While a frame is published the
    /// callback is invoked exactly once, with that frame, and its result comes
    /// back as `Some`; with no frame published the callback is never invoked
    /// and the call is a safe no-op returning `None`.
    pub fn with<R, C: FnOnce(&F) -> R>(&self, callback: C) -> (r: Option<R>)
        requires
            self.published() is Some ==> call_requires(callback, (&self.published().unwrap(),)),
        ensures
            r is Some <==> self.published() is Some,
            r is Some ==> call_ensures(callback, (&self.published().unwrap(),), r.unwrap()),
    {
        match &self.current {
            Some(frame) => Some(callback(frame)),
            None => None,
        }
    }
}

} // verus!
