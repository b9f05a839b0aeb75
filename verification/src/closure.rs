//! A notifier made from a callback.
use crate::wake::Wake;
use crate::waker::Waker;
use std::sync::Arc;
use vstd::prelude::*;

verus! {

/// A notifier that wakes by calling a callback. The callback is shared: the
/// notifier holds one counted reference to it and a clone holds another, so
/// the notifier is as large as one pointer whatever the callback captures.
pub struct WakerFn<F: Fn() + Send + Sync + 'static> {
    callback: Arc<F>,
}

impl<F: Fn() + Send + Sync + 'static> WakerFn<F> {
    #[verifier::type_invariant]
    spec fn callable(self) -> bool {
        call_requires(*self.callback, ())
    }

    /// The callback that a wake calls.
    pub closed spec fn callback(self) -> F {
        *self.callback
    }
}

/// `Arc::clone` of the standard library: a second counted reference to the
/// value that `callback` refers to. The contract claims that the new
/// reference leads to the same value as the old one, which is what sharing
/// one allocation means; nothing is claimed of the count.
#[verifier::external_body]
fn share<F>(callback: &Arc<F>) -> (shared: Arc<F>)
    ensures
        shared == *callback,
{
    Arc::clone(callback)
}

impl<F: Fn() + Send + Sync + 'static> Clone for WakerFn<F> {
    /// A second notifier over the same callback.
    fn clone(&self) -> (other: Self)
        ensures
            other == *self,
    {
        proof {
            use_type_invariant(self);
        }
        WakerFn { callback: share(&self.callback) }
    }
}

impl<F: Fn() + Send + Sync + 'static> Wake for WakerFn<F> {
    /// Calls the callback once.
    fn wake_by_ref(&self)
        ensures
            call_ensures(self.callback(), (), ()),
    {
        proof {
            use_type_invariant(self);
        }
        (self.callback)()
    }
}

/// Makes a wake handle that calls `f` on every wake.
///
/// The callback must be callable at any time, with nothing known of the
/// moment: a handle may be woken whenever it lives.
pub fn waker_fn<F: Fn() + Send + Sync + 'static>(f: F) -> (waker: Waker<WakerFn<F>>)
    requires
        call_requires(f, ()),
    ensures
        waker@.notifier().callback() == f,
        waker@.well_formed(),
{
    WakerFn { callback: Arc::new(f) }.into_waker()
}

} // verus!
