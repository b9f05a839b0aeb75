//! What holds of every handle, stated over the contracts of the operations.
//!
//! A hypothesis `call_ensures(f, args, result)` stands for a call of `f` on
//! `args` that gave `result`. A conclusion of that form says that what was
//! done meets the contract of such a call, and a conclusion
//! `call_requires(f, args)` that `f` may be called on `args`.
use crate::closure::waker_fn;
use crate::closure::WakerFn;
use crate::raw::RawWaker;
use crate::representation::Representation;
use crate::wake::Wake;
use crate::waker::Waker;
use vstd::layout::size_of;
use vstd::prelude::*;

verus! {

/// Whichever representation keeps it, a handle wakes as the notifier it was
/// made of: a wake by reference through the handle is a wake by reference of
/// that notifier, and waking the handle away is that notifier's consuming
/// wake, which notifies as its wake by reference does.
pub proof fn lemma_handle_wakes_as_its_notifier<W: Wake>(wake: W, waker: Waker<W>)
    requires
        call_ensures(W::into_waker, (wake,), waker),
    ensures
        waker@.notifier() == wake,
        call_ensures(Waker::<W>::wake_by_ref, (&waker,), ()) ==> call_ensures(
            W::wake_by_ref,
            (&wake,),
            (),
        ),
        call_ensures(Waker::<W>::wake, (waker,), ()) ==> call_ensures(W::wake, (wake,), ())
            && call_ensures(W::wake_by_ref, (&wake,), ()),
{
}

/// A notifier no larger than a machine word is kept thin: the handle made of
/// it holds that very notifier in its slot and owns no heap block, and a wake
/// by reference through the handle is a wake by reference of the notifier.
pub proof fn lemma_thin_handle_wakes_its_notifier<W: Wake>(wake: W, waker: Waker<W>)
    requires
        size_of::<W>() <= size_of::<usize>(),
        call_ensures(W::into_waker, (wake,), waker),
        call_ensures(Waker::<W>::wake_by_ref, (&waker,), ()),
    ensures
        waker@ == RawWaker::Thin(wake),
        waker@.spec_representation().heap_blocks() == 0,
        call_ensures(W::wake_by_ref, (&wake,), ()),
{
}

/// A notifier larger than a machine word is kept boxed: the handle made of
/// it holds that very notifier in the one heap block it owns, and a wake by
/// reference through the handle is a wake by reference of the notifier.
pub proof fn lemma_boxed_handle_wakes_its_notifier<W: Wake>(wake: W, waker: Waker<W>)
    requires
        size_of::<W>() > size_of::<usize>(),
        call_ensures(W::into_waker, (wake,), waker),
        call_ensures(Waker::<W>::wake_by_ref, (&waker,), ()),
    ensures
        waker@ == RawWaker::Boxed(Box::new(wake)),
        waker@.spec_representation().heap_blocks() == 1,
        call_ensures(W::wake_by_ref, (&wake,), ()),
{
}

/// The choice of representation made when a notifier becomes a handle and
/// the one made when that handle is cloned agree: the clone holds a clone of
/// the notifier in the same representation, so a thin handle clones without
/// a heap block and a boxed one with exactly one of its own.
pub proof fn lemma_clone_keeps_representation<W: Wake>(wake: W, waker: Waker<W>, other: Waker<W>)
    requires
        call_ensures(W::into_waker, (wake,), waker),
        call_ensures(<Waker<W> as Clone>::clone, (&waker,), other),
    ensures
        cloned(wake, other@.notifier()),
        other@ == RawWaker::made_of(other@.notifier()),
        other@.spec_representation() == waker@.spec_representation(),
        other@.spec_representation() == Representation::spec_of::<W>(),
        other@.spec_representation().heap_blocks() == (if size_of::<W>() <= size_of::<usize>() {
            0nat
        } else {
            1nat
        }),
{
}

/// A wake by reference only reads the handle. Each one is one wake by
/// reference of the notifier inside, and after any number of them the handle
/// can still be woken by reference, cloned, or woken away.
pub proof fn lemma_wake_by_ref_keeps_handle<W: Wake>(waker: Waker<W>)
    requires
        call_ensures(Waker::<W>::wake_by_ref, (&waker,), ()),
    ensures
        call_ensures(W::wake_by_ref, (&waker@.notifier(),), ()),
        call_requires(Waker::<W>::wake_by_ref, (&waker,)),
        call_requires(<Waker<W> as Clone>::clone, (&waker,)),
        call_requires(Waker::<W>::wake, (waker,)),
{
}

/// A clone stands on its own. Waking the clone away wakes the clone's
/// notifier and uses up the clone alone: the handle it was cloned from can
/// still be woken by reference and cloned.
pub proof fn lemma_clone_is_independent<W: Wake>(waker: Waker<W>, other: Waker<W>)
    requires
        call_ensures(<Waker<W> as Clone>::clone, (&waker,), other),
        call_ensures(Waker::<W>::wake, (other,), ()),
    ensures
        cloned(waker@.notifier(), other@.notifier()),
        call_ensures(W::wake, (other@.notifier(),), ()),
        call_requires(Waker::<W>::wake_by_ref, (&waker,)),
        call_requires(<Waker<W> as Clone>::clone, (&waker,)),
{
}

/// A handle made from a callback calls that callback, whether it is woken by
/// reference or woken away.
pub proof fn lemma_waker_fn_calls_back<F: Fn() + Send + Sync + 'static>(
    f: F,
    waker: Waker<WakerFn<F>>,
)
    requires
        call_ensures(waker_fn::<F>, (f,), waker),
        call_ensures(Waker::<WakerFn<F>>::wake_by_ref, (&waker,), ()) || call_ensures(
            Waker::<WakerFn<F>>::wake,
            (waker,),
            (),
        ),
    ensures
        call_ensures(f, (), ()),
{
}

} // verus!
