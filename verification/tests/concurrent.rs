use http_stress::concurrent::ConcurrentAtomicUsize;
use std::sync::atomic::Ordering;

#[test]
fn new_starts_at_the_given_value() {
    let counter = ConcurrentAtomicUsize::new(42);
    assert_eq!(counter.load(Ordering::Relaxed), 42);
    let zero = ConcurrentAtomicUsize::new(0);
    assert_eq!(zero.load(Ordering::Relaxed), 0);
}

#[test]
fn new2_gives_two_handles_to_one_counter() {
    let (a, b) = ConcurrentAtomicUsize::new2(5);
    assert_eq!(a.load(Ordering::Relaxed), 5);
    assert_eq!(b.load(Ordering::Relaxed), 5);
    a.fetch_add(1, Ordering::Relaxed);
    assert_eq!(b.load(Ordering::Relaxed), 6);
    b.fetch_sub(2, Ordering::Relaxed);
    assert_eq!(a.load(Ordering::Relaxed), 4);
}

#[test]
fn clone2_gives_two_more_handles_to_the_same_counter() {
    let origin = ConcurrentAtomicUsize::new(1);
    let (a, b) = origin.clone2();
    a.fetch_add(10, Ordering::Relaxed);
    assert_eq!(origin.load(Ordering::Relaxed), 11);
    assert_eq!(b.load(Ordering::Relaxed), 11);
    b.store(3, Ordering::Relaxed);
    assert_eq!(origin.load(Ordering::Relaxed), 3);
    assert_eq!(a.load(Ordering::Relaxed), 3);
}

#[test]
fn clone_shares_and_new_does_not() {
    let first = ConcurrentAtomicUsize::new(7);
    let same = first.clone();
    let other = ConcurrentAtomicUsize::new(7);
    first.fetch_add(1, Ordering::Relaxed);
    assert_eq!(same.load(Ordering::Relaxed), 8);
    assert_eq!(other.load(Ordering::Relaxed), 7);
}

#[test]
fn a_handle_outlives_the_one_it_was_cloned_from() {
    let first = ConcurrentAtomicUsize::new(9);
    let second = first.clone();
    drop(first);
    second.fetch_add(1, Ordering::Relaxed);
    assert_eq!(second.load(Ordering::Relaxed), 10);
}
