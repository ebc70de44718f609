use http_stress::concurrent::ConcurrentAtomicUsize;
use http_stress::gate::{admit_next, granted, release_next, ConcurrencyGate};
use std::sync::atomic::Ordering;

#[test]
fn admission_rule_on_values() {
    assert_eq!(admit_next(0, 1), Some(1));
    assert_eq!(admit_next(1, 1), None);
    assert_eq!(admit_next(0, 0), None);
    assert_eq!(admit_next(4, 5), Some(5));
    assert_eq!(admit_next(5, 5), None);
    assert_eq!(admit_next(9, 5), None);
    assert_eq!(admit_next(usize::MAX - 1, usize::MAX), Some(usize::MAX));
    assert_eq!(admit_next(usize::MAX, usize::MAX), None);
}

#[test]
fn release_rule_on_values() {
    assert_eq!(release_next(3), 2);
    assert_eq!(release_next(1), 0);
    assert_eq!(release_next(0), usize::MAX);
}

#[test]
fn granted_tells_ok_from_err() {
    assert!(granted(Ok(0)));
    assert!(granted(Ok(17)));
    assert!(!granted(Err(0)));
    assert!(!granted(Err(17)));
}

#[test]
fn gate_admits_up_to_its_bound() {
    let gate = ConcurrencyGate::new(2);
    assert_eq!(gate.limit(), 2);
    assert_eq!(gate.in_flight(), 0);
    assert!(gate.try_admit());
    assert_eq!(gate.in_flight(), 1);
    assert!(gate.try_admit());
    assert_eq!(gate.in_flight(), 2);
    assert!(!gate.try_admit());
    assert!(!gate.try_admit());
    assert_eq!(gate.in_flight(), 2);
}

#[test]
fn attempt_reports_the_count_it_found() {
    let gate = ConcurrencyGate::new(2);
    assert_eq!(gate.attempt(), Ok(0));
    assert_eq!(gate.attempt(), Ok(1));
    assert_eq!(gate.attempt(), Err(2));
    assert_eq!(gate.in_flight(), 2);
    gate.release();
    assert_eq!(gate.attempt(), Ok(1));
    assert_eq!(gate.attempt(), Err(2));
}

#[test]
fn release_frees_a_slot() {
    let gate = ConcurrencyGate::new(1);
    assert!(gate.try_admit());
    assert!(!gate.try_admit());
    gate.release();
    assert_eq!(gate.in_flight(), 0);
    assert!(gate.try_admit());
    assert_eq!(gate.in_flight(), 1);
}

#[test]
fn a_gate_with_a_bound_of_zero_admits_nothing() {
    let gate = ConcurrencyGate::new(0);
    assert!(!gate.try_admit());
    assert_eq!(gate.attempt(), Err(0));
    assert_eq!(gate.in_flight(), 0);
}

#[test]
fn admits_and_releases_pair_up() {
    let gate = ConcurrencyGate::new(3);
    let mut admits = 0;
    let mut releases = 0;
    for round in 0..10 {
        for _ in 0..5 {
            if gate.try_admit() {
                admits += 1;
            }
            assert!(gate.in_flight() <= 3);
        }
        let running = gate.in_flight();
        let leave = if round % 2 == 0 { running } else { running - 1 };
        for _ in 0..leave {
            gate.release();
            releases += 1;
        }
        assert_eq!(gate.in_flight(), admits - releases);
    }
    while gate.in_flight() > 0 {
        gate.release();
        releases += 1;
    }
    assert_eq!(admits, releases);
    assert_eq!(gate.in_flight(), 0);
}

#[test]
fn shared_gates_work_on_one_counter() {
    let gate = ConcurrencyGate::new(2);
    let other = gate.share();
    assert_eq!(other.limit(), 2);
    assert!(gate.try_admit());
    assert_eq!(other.in_flight(), 1);
    assert!(other.try_admit());
    assert!(!gate.try_admit());
    other.release();
    assert_eq!(gate.in_flight(), 1);
}

#[test]
fn a_gate_over_a_counter_uses_that_counter() {
    let (counter, watch) = ConcurrentAtomicUsize::new2(1);
    let gate = ConcurrencyGate::over(counter, 2);
    assert_eq!(gate.in_flight(), 1);
    assert!(gate.try_admit());
    assert_eq!(watch.load(Ordering::Relaxed), 2);
    assert!(!gate.try_admit());
    gate.release();
    assert_eq!(watch.load(Ordering::Relaxed), 1);
}
