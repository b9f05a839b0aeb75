//! The wake handle.
use crate::raw::create_boxed;
use crate::raw::create_raw_waker;
use crate::raw::RawWaker;
use crate::representation::Representation;
use crate::wake::Wake;
use vstd::prelude::*;

verus! {

/// A wake handle over a notifier of type `W`.
///
/// A handle is the one owner of its notifier. It can be woken by reference
/// and cloned as long as it lives; [`Waker::wake`] and dropping it take it by
/// value, so nothing can touch it afterwards. Dropping a handle releases the
/// notifier, and the heap block of a boxed one, without waking.
///
/// The view of a handle is the raw handle inside it, which is always
/// [well formed](RawWaker::well_formed): every handle over `W` has the one
/// representation that the size of `W` calls for.
pub struct Waker<W> {
    raw: RawWaker<W>,
}

impl<W> View for Waker<W> {
    type V = RawWaker<W>;

    closed spec fn view(&self) -> RawWaker<W> {
        self.raw
    }
}

impl<W> Waker<W> {
    #[verifier::type_invariant]
    spec fn paired(self) -> bool {
        self.raw.well_formed()
    }

    /// Makes a handle of a raw handle whose representation suits `W`.
    pub fn from_raw(raw: RawWaker<W>) -> (waker: Self)
        requires
            raw.well_formed(),
        ensures
            waker@ == raw,
    {
        Waker { raw }
    }

    /// Gives up the handle for the raw handle inside it. The notifier is
    /// neither woken nor released.
    pub fn into_raw(self) -> (raw: RawWaker<W>)
        ensures
            raw == self@,
            raw.well_formed(),
    {
        proof {
            use_type_invariant(&self);
        }
        self.raw
    }

    /// The representation of this handle, which is that of every handle over
    /// `W`.
    pub fn representation(&self) -> (kept: Representation)
        ensures
            kept == self@.spec_representation(),
            kept == Representation::spec_of::<W>(),
    {
        proof {
            use_type_invariant(self);
        }
        self.raw.representation()
    }
}

impl<W: Wake> Waker<W> {
    /// Wakes the notifier through a borrow of the slot. The handle is left as
    /// it was and stays usable.
    pub fn wake_by_ref(&self)
        ensures
            call_ensures(W::wake_by_ref, (&self@.notifier(),), ()),
    {
        match &self.raw {
            // The slot is read in place as a borrowed notifier.
            RawWaker::Thin(wake) => wake.wake_by_ref(),
            // The slot is followed to the block, which stays allocated.
            RawWaker::Boxed(block) => block.wake_by_ref(),
        }
    }

    /// Wakes the notifier and gives the handle up. The notifier is taken out
    /// of the slot and handed to its own consuming wake, which releases it.
    pub fn wake(self)
        ensures
            call_ensures(W::wake, (self@.notifier(),), ()),
            call_ensures(W::wake_by_ref, (&self@.notifier(),), ()),
    {
        match self.raw {
            // The slot is read as an owned notifier and never again.
            RawWaker::Thin(wake) => wake.wake(),
            // The block is reclaimed: the notifier moves out and it is freed.
            RawWaker::Boxed(block) => (*block).wake(),
        }
    }
}

impl<W: Wake> Clone for Waker<W> {
    /// Makes a second handle over a clone of the notifier. The two handles
    /// share nothing but what the notifier's own clone shares; a boxed clone
    /// owns a heap block of its own.
    fn clone(&self) -> (other: Self)
        ensures
            cloned(self@.notifier(), other@.notifier()),
            other@.spec_representation() == self@.spec_representation(),
            other@.well_formed(),
    {
        proof {
            use_type_invariant(self);
        }
        let raw = match &self.raw {
            // The clone goes through the choice of representation again,
            // which for the same type chooses the same.
            RawWaker::Thin(wake) => create_raw_waker(wake.clone()),
            // The pointee is cloned and the clone boxed afresh.
            RawWaker::Boxed(block) => create_boxed((**block).clone()),
        };
        Waker { raw }
    }
}

} // verus!
