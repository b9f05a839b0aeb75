//! The choice between the two representations of a handle.
use vstd::layout::size_of;
use vstd::prelude::*;

verus! {

/// How a handle keeps its notifier.
#[derive(Clone, Copy, Debug, PartialEq, Eq, Structural)]
pub enum Representation {
    /// The notifier's own bytes fill the handle's word-sized slot.
    Thin,
    /// The slot holds the address of a heap block that holds the notifier.
    Boxed,
}

impl Representation {
    /// The representation of a notifier of `size` bytes on a machine whose
    /// words have `word` bytes: thin exactly when the notifier fits the word.
    pub open spec fn spec_select(size: nat, word: nat) -> Representation {
        if size <= word {
            Representation::Thin
        } else {
            Representation::Boxed
        }
    }

    /// The representation of every handle whose notifier has type `W`.
    pub open spec fn spec_of<W>() -> Representation {
        Self::spec_select(size_of::<W>(), size_of::<usize>())
    }

    /// The number of heap blocks that a handle in this representation owns.
    pub open spec fn heap_blocks(self) -> nat {
        match self {
            Representation::Thin => 0,
            Representation::Boxed => 1,
        }
    }

    /// Chooses the representation from the two sizes, in bytes.
    pub fn select(size: usize, word: usize) -> (chosen: Representation)
        ensures
            chosen == Self::spec_select(size as nat, word as nat),
    {
        if size <= word {
            Representation::Thin
        } else {
            Representation::Boxed
        }
    }

    /// Chooses the representation for notifiers of type `W`. The choice reads
    /// nothing but the size of the type, so it is the same wherever and
    /// whenever it is made.
    #[verifier::when_used_as_spec(spec_of)]
    pub fn of<W>() -> (chosen: Representation)
        ensures
            chosen == Self::spec_of::<W>(),
    {
        Self::select(core::mem::size_of::<W>(), core::mem::size_of::<usize>())
    }
}

} // verus!
