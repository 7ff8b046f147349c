use finarc::FinArc;
use std::sync::atomic::AtomicUsize;
use std::sync::atomic::Ordering;

#[derive(Clone)]
struct ManuallyClosable<'a>(&'a AtomicUsize);

impl ManuallyClosable<'_> {
    fn close(&mut self) {
        self.0.fetch_add(1, Ordering::SeqCst);
    }
}

#[test]
fn test_finalizer_is_called_once_last_clone_is_dropped() {
    let close_counter = AtomicUsize::new(0);
    let data = ManuallyClosable(&close_counter);
    let arc = FinArc::new(data, |data| data.close());
    let arc_clone = arc.clone();
    drop(arc);
    assert_eq!(close_counter.load(Ordering::SeqCst), 0);
    drop(arc_clone);
    assert_eq!(close_counter.load(Ordering::SeqCst), 1);
}

#[test]
fn try_unwrap_doesnt_call_drop() {
    let close_counter = AtomicUsize::new(0);
    let data = ManuallyClosable(&close_counter);
    let arc = FinArc::new(data, |data| data.close());
    assert!(FinArc::try_unwrap(arc).is_ok());
    assert_eq!(close_counter.load(Ordering::SeqCst), 0);

    let data = ManuallyClosable(&close_counter);
    let arc = FinArc::new(data, |data| data.close());
    let arc_clone = arc.clone();
    assert!(FinArc::try_unwrap(arc).is_err());
    assert_eq!(close_counter.load(Ordering::SeqCst), 0);
    drop(arc_clone);
    assert_eq!(close_counter.load(Ordering::SeqCst), 1);
}

#[test]
fn finalizer_exactly_once_many_clones_any_order() {
    let counter = AtomicUsize::new(0);
    let first = FinArc::new(0_u8, |_: &mut u8| {
        counter.fetch_add(1, Ordering::SeqCst);
    });
    let mut clones = Vec::new();
    for _ in 0..5 {
        clones.push(first.clone());
    }
    drop(first);
    assert_eq!(counter.load(Ordering::SeqCst), 0);
    clones.swap(0, 4);
    clones.swap(1, 3);
    while clones.len() > 1 {
        drop(clones.pop());
        assert_eq!(counter.load(Ordering::SeqCst), 0);
    }
    drop(clones.pop());
    assert_eq!(counter.load(Ordering::SeqCst), 1);
}

#[test]
fn finalizer_observes_last_handles_value() {
    let observed = AtomicUsize::new(0);
    let mut a = FinArc::new(1_usize, |v: &mut usize| {
        observed.store(*v, Ordering::SeqCst);
    });
    let b = a.clone();
    a.set(42);
    assert_eq!(*b.get(), 1);
    drop(b);
    assert_eq!(observed.load(Ordering::SeqCst), 0);
    drop(a);
    assert_eq!(observed.load(Ordering::SeqCst), 42);
}

#[test]
fn mutation_is_independent_between_handles() {
    let a = FinArc::new(10_i32, |_: &mut i32| {});
    let mut b = a.clone();
    b.set(99);
    assert_eq!(*a.get(), 10);
    assert_eq!(*b.get(), 99);
}

#[test]
fn new_wraps_the_given_value() {
    let h = FinArc::new(3_i32, |_: &mut i32| {});
    assert_eq!(*h.get(), 3);
}

#[test]
fn counter_scenario() {
    let counter = AtomicUsize::new(0);
    let h = FinArc::new(3_i32, |_: &mut i32| {
        counter.fetch_add(1, Ordering::SeqCst);
    });
    match FinArc::try_unwrap(h) {
        Ok(v) => assert_eq!(v, 3),
        Err(_) => panic!("sole handle must unwrap"),
    }
    assert_eq!(counter.load(Ordering::SeqCst), 0);

    let counter = AtomicUsize::new(0);
    let h = FinArc::new(4_i32, |_: &mut i32| {
        counter.fetch_add(1, Ordering::SeqCst);
    });
    let c = h.clone();
    drop(c);
    assert_eq!(counter.load(Ordering::SeqCst), 0);
    drop(h);
    assert_eq!(counter.load(Ordering::SeqCst), 1);

    let counter = AtomicUsize::new(0);
    let h = FinArc::new(5_i32, |_: &mut i32| {
        counter.fetch_add(1, Ordering::SeqCst);
    });
    let c = h.clone();
    match FinArc::try_unwrap(h) {
        Ok(_) => panic!("a clone is still live, unwrap must fail"),
        Err(handle) => {
            assert_eq!(*handle.get(), 5);
            assert_eq!(counter.load(Ordering::SeqCst), 0);
            drop(handle);
        }
    }
    assert_eq!(counter.load(Ordering::SeqCst), 0);
    drop(c);
    assert_eq!(counter.load(Ordering::SeqCst), 1);
}
