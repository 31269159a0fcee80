use mcp_arch_linux::admission::AdmissionGate;

#[test]
fn capacity_one_serializes_two_requests() {
    let mut gate = AdmissionGate::new(1);
    assert!(gate.try_acquire());
    // while the first execution is in flight the second is refused
    assert!(!gate.try_acquire());
    assert_eq!(gate.in_flight, 1);
    // once the first completes, the second is admitted
    gate.release();
    assert!(gate.try_acquire());
    gate.release();
    assert_eq!(gate.in_flight, 0);
}

#[test]
fn capacity_two_admits_two_at_once() {
    let mut gate = AdmissionGate::new(2);
    assert!(gate.try_acquire());
    assert!(gate.try_acquire());
    assert!(!gate.try_acquire());
    assert_eq!(gate.in_flight, 2);
    gate.release();
    gate.release();
}

#[test]
fn in_flight_never_exceeds_capacity() {
    let mut gate = AdmissionGate::new(3);
    for _ in 0..10 {
        let _ = gate.try_acquire();
        assert!(gate.in_flight <= gate.capacity);
    }
    assert_eq!(gate.in_flight, 3);
}

#[test]
fn zero_capacity_admits_nothing() {
    let mut gate = AdmissionGate::new(0);
    assert!(!gate.try_acquire());
    assert_eq!(gate.in_flight, 0);
}
