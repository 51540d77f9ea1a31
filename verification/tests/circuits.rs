//! Satisfaction predicates of the demonstration circuits.

use zkp_backend::circuits::{Circuit, TestCircuit};

#[test]
fn equality_circuit_satisfied_by_demo_assignment() {
    let circuit = Circuit::assigned(1, 2, 3);
    assert!(circuit.satisfied());
    assert_eq!(circuit.public_input(), Some(3));
}

#[test]
fn equality_circuit_rejects_wrong_sum() {
    assert!(!Circuit::assigned(1, 2, 4).satisfied());
}

#[test]
fn equality_circuit_rejects_missing_assignment() {
    assert!(!Circuit::blank().satisfied());
    assert_eq!(Circuit::blank().public_input(), None);
    let partial = Circuit { a: Some(1), b: None, c: Some(1) };
    assert!(!partial.satisfied());
}

#[test]
fn equality_circuit_handles_large_sums() {
    // The sum leaves the 64-bit range but stays far below the field
    // modulus; the predicate must not wrap.
    let circuit = Circuit::assigned(u64::MAX, 1, 0);
    assert!(!circuit.satisfied());
}

#[test]
fn arithmetic_gates_hold_of_default_assignment() {
    let circuit = TestCircuit::default();
    assert_eq!(circuit.a, 0);
    assert!(circuit.gates_satisfied());
}

#[test]
fn arithmetic_gates_hold_of_consistent_assignment() {
    let circuit = TestCircuit { a: 2, b: 3, c: 5, d: 6 };
    assert!(circuit.gates_satisfied());
}

#[test]
fn arithmetic_gates_reject_wrong_product() {
    let circuit = TestCircuit { a: 2, b: 3, c: 5, d: 7 };
    assert!(!circuit.gates_satisfied());
}

#[test]
fn arithmetic_gates_reject_wrong_sum() {
    let circuit = TestCircuit { a: 2, b: 3, c: 6, d: 6 };
    assert!(!circuit.gates_satisfied());
}
