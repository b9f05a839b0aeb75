//! The capability that a notifier offers.
use crate::raw::create_raw_waker;
use crate::raw::RawWaker;
use crate::waker::Waker;
use vstd::prelude::*;

verus! {

/// A notifier: a value that can signal that suspended work may go on.
///
/// The one method to write is [`Wake::wake_by_ref`], which holds the whole
/// wake-up behaviour. A notifier is cloneable, and safe to share with and to
/// wake from any thread; a redundant wake must be harmless. How clones
/// relate is the notifier's own affair: keeping the state behind a counted
/// reference is common.
///
/// A notifier no larger than a machine word travels inside the handle's slot
/// and costs no allocation, neither when the handle is made nor when it is
/// cloned. A larger one costs one heap block each time.
pub trait Wake: Send + Sync + Clone {
    /// Wakes and gives the notifier up. An implementation that overrides
    /// this for a cheaper owned path must deliver the same notification as
    /// [`Wake::wake_by_ref`].
    fn wake(self)
        ensures
            call_ensures(Self::wake_by_ref, (&self,), ()),
    {
        self.wake_by_ref();
    }

    /// Wakes through a borrow. The notifier stays usable, any number of
    /// times.
    fn wake_by_ref(&self);

    /// Turns the notifier into a raw handle, in the representation that the
    /// size of its type calls for.
    fn into_raw_waker(self) -> (raw: RawWaker<Self>)
        ensures
            raw == RawWaker::made_of(self),
    {
        create_raw_waker(self)
    }

    /// Turns the notifier into a wake handle, in the representation that the
    /// size of its type calls for. The handle holds this very notifier.
    fn into_waker(self) -> (waker: Waker<Self>)
        ensures
            waker@ == RawWaker::made_of(self),
    {
        Waker::from_raw(self.into_raw_waker())
    }
}

} // verus!
