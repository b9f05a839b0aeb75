use std::mem::size_of;
use std::sync::atomic::{AtomicUsize, Ordering};
use std::sync::Arc;
use wakeful::raw::{create_boxed, create_raw_waker, create_thin};
use wakeful::{RawWaker, Representation, Wake, Waker};

#[derive(Clone)]
struct Unit;

impl Wake for Unit {
    fn wake_by_ref(&self) {}
}

#[derive(Clone)]
struct Word(Arc<AtomicUsize>);

impl Wake for Word {
    fn wake_by_ref(&self) {
        self.0.fetch_add(1, Ordering::SeqCst);
    }
}

#[derive(Clone)]
struct Wide(Arc<AtomicUsize>, usize);

impl Wake for Wide {
    fn wake_by_ref(&self) {
        self.0.fetch_add(1, Ordering::SeqCst);
    }
}

#[test]
fn select_is_thin_up_to_the_word() {
    assert_eq!(Representation::select(0, 8), Representation::Thin);
    assert_eq!(Representation::select(1, 8), Representation::Thin);
    assert_eq!(Representation::select(7, 8), Representation::Thin);
    assert_eq!(Representation::select(8, 8), Representation::Thin);
    assert_eq!(Representation::select(4, 4), Representation::Thin);
    assert_eq!(Representation::select(0, 0), Representation::Thin);
}

#[test]
fn select_is_boxed_beyond_the_word() {
    assert_eq!(Representation::select(9, 8), Representation::Boxed);
    assert_eq!(Representation::select(16, 8), Representation::Boxed);
    assert_eq!(Representation::select(5, 4), Representation::Boxed);
    assert_eq!(Representation::select(1, 0), Representation::Boxed);
    assert_eq!(Representation::select(usize::MAX, 8), Representation::Boxed);
}

#[test]
fn of_reads_the_size_of_the_type() {
    assert_eq!(Representation::of::<()>(), Representation::Thin);
    assert_eq!(Representation::of::<u8>(), Representation::Thin);
    assert_eq!(Representation::of::<usize>(), Representation::Thin);
    assert_eq!(Representation::of::<Arc<AtomicUsize>>(), Representation::Thin);
    assert_eq!(Representation::of::<(usize, u8)>(), Representation::Boxed);
    assert_eq!(Representation::of::<[usize; 2]>(), Representation::Boxed);
    assert_eq!(
        Representation::of::<Wide>(),
        Representation::select(size_of::<Wide>(), size_of::<usize>())
    );
}

#[test]
fn of_is_the_same_at_every_call() {
    let first = Representation::of::<Wide>();
    let waker = Wide(Arc::new(AtomicUsize::new(0)), 0).into_waker();
    assert_eq!(waker.representation(), first);
    assert_eq!(waker.clone().representation(), first);
    assert_eq!(waker.clone().clone().representation(), first);
    assert_eq!(Representation::of::<Wide>(), first);
}

#[test]
fn zero_sized_notifier_is_thin() {
    assert_eq!(size_of::<Unit>(), 0);
    let waker = Unit.into_waker();
    assert_eq!(waker.representation(), Representation::Thin);
    assert_eq!(waker.clone().representation(), Representation::Thin);
}

#[test]
fn word_sized_notifier_is_thin() {
    assert_eq!(size_of::<Word>(), size_of::<usize>());
    let woke = Arc::new(AtomicUsize::new(0));
    let waker = Word(woke.clone()).into_waker();
    assert_eq!(waker.representation(), Representation::Thin);
    waker.wake_by_ref();
    assert_eq!(woke.load(Ordering::SeqCst), 1);
    assert!(matches!(waker.into_raw(), RawWaker::Thin(_)));
}

#[test]
fn wider_notifier_is_boxed() {
    assert!(size_of::<Wide>() > size_of::<usize>());
    let woke = Arc::new(AtomicUsize::new(0));
    let waker = Wide(woke.clone(), 7).into_waker();
    assert_eq!(waker.representation(), Representation::Boxed);
    waker.wake_by_ref();
    assert_eq!(woke.load(Ordering::SeqCst), 1);
    let clone = waker.clone();
    assert_eq!(clone.representation(), Representation::Boxed);
    match clone.into_raw() {
        RawWaker::Boxed(block) => assert_eq!(block.1, 7),
        RawWaker::Thin(_) => panic!("a notifier wider than a word was kept thin"),
    }
}

#[test]
fn raw_handle_keeps_the_notifier_it_was_given() {
    let woke = Arc::new(AtomicUsize::new(0));
    match Word(woke.clone()).into_raw_waker() {
        RawWaker::Thin(wake) => assert!(Arc::ptr_eq(&wake.0, &woke)),
        RawWaker::Boxed(_) => panic!("a word-sized notifier was boxed"),
    }
    match Wide(woke.clone(), 3).into_raw_waker() {
        RawWaker::Boxed(block) => {
            assert!(Arc::ptr_eq(&block.0, &woke));
            assert_eq!(block.1, 3);
        }
        RawWaker::Thin(_) => panic!("a notifier wider than a word was kept thin"),
    }
}

#[test]
fn create_thin_keeps_the_notifier_in_the_slot() {
    let woke = Arc::new(AtomicUsize::new(0));
    let raw = create_thin(Word(woke.clone()));
    assert_eq!(raw.representation(), Representation::Thin);
    assert!(raw.is_well_formed());
    let waker = Waker::from_raw(raw);
    waker.wake_by_ref();
    assert_eq!(woke.load(Ordering::SeqCst), 1);
}

#[test]
fn create_boxed_keeps_the_notifier_in_a_block() {
    let woke = Arc::new(AtomicUsize::new(0));
    let raw = create_boxed(Wide(woke.clone(), 1));
    assert_eq!(raw.representation(), Representation::Boxed);
    assert!(raw.is_well_formed());
    let waker = Waker::from_raw(raw);
    waker.wake();
    assert_eq!(woke.load(Ordering::SeqCst), 1);
}

#[test]
fn boxed_word_is_not_well_formed() {
    let raw = create_boxed(Word(Arc::new(AtomicUsize::new(0))));
    assert_eq!(raw.representation(), Representation::Boxed);
    assert!(!raw.is_well_formed());
}

#[test]
fn create_raw_waker_follows_the_choice() {
    let woke = Arc::new(AtomicUsize::new(0));
    let thin = create_raw_waker(Word(woke.clone()));
    assert_eq!(thin.representation(), Representation::of::<Word>());
    assert!(thin.is_well_formed());
    let boxed = create_raw_waker(Wide(woke, 0));
    assert_eq!(boxed.representation(), Representation::of::<Wide>());
    assert!(boxed.is_well_formed());
}

#[test]
fn handle_survives_a_trip_through_its_raw_form() {
    let woke = Arc::new(AtomicUsize::new(0));
    let waker = Wide(woke.clone(), 0).into_waker();
    let raw = waker.into_raw();
    assert_eq!(woke.load(Ordering::SeqCst), 0);
    let waker = Waker::from_raw(raw);
    waker.wake_by_ref();
    assert_eq!(woke.load(Ordering::SeqCst), 1);
    assert_eq!(Arc::strong_count(&woke), 2);
}
