use rust_discord_bot::admission::{Admission, AdmissionGate};

#[test]
fn up_to_limit_acquires_succeed_then_wait_until_release() {
    for limit in 0..6usize {
        let mut gate = AdmissionGate::new(limit);
        let mut permits = Vec::new();
        for _ in 0..limit {
            match gate.try_acquire() {
                Admission::Granted(p) => permits.push(p),
                _ => panic!("a permit should be free"),
            }
        }
        assert_eq!(gate.in_use(), limit);
        assert!(matches!(gate.try_acquire(), Admission::Full));
        if let Some(p) = permits.pop() {
            gate.release(p);
            assert!(matches!(gate.try_acquire(), Admission::Granted(_)));
        }
    }
}

#[test]
fn closed_gate_refuses() {
    let mut gate = AdmissionGate::new(5);
    gate.close();
    assert!(matches!(gate.try_acquire(), Admission::Closed));
    assert_eq!(gate.in_use(), 0);
}
