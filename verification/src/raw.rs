//! The raw form of a handle: a notifier in the slot of one representation.
use crate::representation::Representation;
use vstd::layout::size_of;
use vstd::prelude::*;

verus! {

/// A notifier together with the representation that keeps it. The variant
/// plays the part of a dispatch table: it alone says how the slot is read,
/// so a slot can never be read through the table of the other
/// representation.
///
/// A raw handle records what it was made with. Nothing in the type says that
/// the representation suits the size of `W`: [`RawWaker::well_formed`] does,
/// and [`Waker`](crate::waker::Waker) holds only raw handles of which it is
/// true.
pub enum RawWaker<W> {
    /// The notifier lies in the slot itself.
    Thin(W),
    /// The slot addresses the one heap block that holds the notifier.
    Boxed(Box<W>),
}

impl<W> RawWaker<W> {
    /// The notifier that this handle wakes.
    pub open spec fn notifier(&self) -> W {
        match *self {
            RawWaker::Thin(wake) => wake,
            RawWaker::Boxed(block) => *block,
        }
    }

    /// The representation that this handle was made with.
    pub open spec fn spec_representation(&self) -> Representation {
        match *self {
            RawWaker::Thin(_) => Representation::Thin,
            RawWaker::Boxed(_) => Representation::Boxed,
        }
    }

    /// The handle that keeps `wake` in the representation of its type.
    pub open spec fn made_of(wake: W) -> RawWaker<W> {
        match Representation::spec_of::<W>() {
            Representation::Thin => RawWaker::Thin(wake),
            Representation::Boxed => RawWaker::Boxed(Box::new(wake)),
        }
    }

    /// The representation is the one that the size of `W` calls for.
    pub open spec fn well_formed(&self) -> bool {
        self.spec_representation() == Representation::spec_of::<W>()
    }

    /// The representation that this handle was made with.
    #[verifier::when_used_as_spec(spec_representation)]
    pub fn representation(&self) -> (kept: Representation)
        ensures
            kept == self.spec_representation(),
    {
        match self {
            RawWaker::Thin(_) => Representation::Thin,
            RawWaker::Boxed(_) => Representation::Boxed,
        }
    }

    /// Tells whether the representation is the one that the size of `W`
    /// calls for. Only such a raw handle can become a
    /// [`Waker`](crate::waker::Waker).
    pub fn is_well_formed(&self) -> (suits: bool)
        ensures
            suits == self.well_formed(),
    {
        self.representation() == Representation::of::<W>()
    }
}

/// Keeps `wake` in the slot itself, with no heap block. The notifier is moved
/// in: from here on the handle is its one owner.
pub fn create_thin<W>(wake: W) -> (raw: RawWaker<W>)
    requires
        size_of::<W>() <= size_of::<usize>(),
    ensures
        raw == RawWaker::Thin(wake),
        raw.well_formed(),
{
    RawWaker::Thin(wake)
}

/// Moves `wake` into one fresh heap block and keeps the block.
pub fn create_boxed<W>(wake: W) -> (raw: RawWaker<W>)
    ensures
        raw == RawWaker::Boxed(Box::new(wake)),
        raw.notifier() == wake,
{
    RawWaker::Boxed(Box::new(wake))
}

/// Keeps `wake` in the representation that the size of `W` calls for.
pub fn create_raw_waker<W>(wake: W) -> (raw: RawWaker<W>)
    ensures
        raw == RawWaker::made_of(wake),
        raw.notifier() == wake,
        raw.well_formed(),
{
    match Representation::of::<W>() {
        Representation::Thin => create_thin(wake),
        Representation::Boxed => create_boxed(wake),
    }
}

} // verus!
