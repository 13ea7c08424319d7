// The original surface's tests, carried over onto the registry-backed
// boundary: every handle is an opaque token validated per call, and the
// circuit's qubit count is an explicit argument of creation.

use circuit_boundary::circuit::Gate;
use circuit_boundary::circuit::PassStage;
use circuit_boundary::registry::CircuitHandle;
use circuit_boundary::registry::Registry;
use circuit_boundary::registry::TranspiledHandle;

#[test]
fn it_works() {
    let result = circuit_boundary::add(2, 2);
    assert_eq!(result, 4);
}

#[test]
fn test_create_quantum_circuit() {
    let mut reg = Registry::new();
    let circuit = reg.create_quantum_circuit(1);
    assert!(!circuit.is_null());
    reg.free_quantum_circuit(circuit);
}

#[test]
fn test_add_hadamard() {
    let mut reg = Registry::new();
    let circuit = reg.create_quantum_circuit(1);
    let result = reg.add_hadamard(circuit, 0);
    assert_eq!(result, 0); // Success
    reg.free_quantum_circuit(circuit);
}

#[test]
fn test_add_hadamard_null_circuit() {
    let mut reg = Registry::new();
    let result = reg.add_hadamard(CircuitHandle::null(), 0);
    assert_eq!(result, -1); // Null handle error
}

#[test]
fn test_add_hadamard_invalid_qubit() {
    let mut reg = Registry::new();
    let circuit = reg.create_quantum_circuit(1);
    let result = reg.add_hadamard(circuit, 1); // The circuit has only 1 qubit
    assert_eq!(result, -2); // Invalid qubit index error
    reg.free_quantum_circuit(circuit);
}

#[test]
fn test_add_cnot() {
    let mut reg = Registry::new();
    let circuit = reg.create_quantum_circuit(2);
    let result = reg.add_cnot(circuit, 0, 1);
    assert_eq!(result, 0); // Success
    reg.free_quantum_circuit(circuit);
}

#[test]
fn test_apply_basic_transpiler_pass() {
    let mut reg = Registry::new();
    let circuit = reg.create_quantum_circuit(1);
    let result = reg.apply_basic_transpiler_pass(circuit);
    assert_eq!(result, 0); // Success
    reg.free_quantum_circuit(circuit);
}

#[test]
fn test_apply_advanced_transpiler_pass() {
    let mut reg = Registry::new();
    let circuit = reg.create_quantum_circuit(1);
    let result = reg.apply_advanced_transpiler_pass(circuit);
    assert_eq!(result, 0); // Success
    reg.free_quantum_circuit(circuit);
}

#[test]
fn create_then_free_succeeds_for_positive_counts() {
    let mut reg = Registry::new();
    let counts: [usize; 4] = [1, 2, 16, 1000];
    for &n in counts.iter() {
        let h = reg.create_quantum_circuit(n);
        assert!(!h.is_null());
        assert!(reg.circuit_is_live(h));
        assert_eq!(reg.circuit_qubit_count(h), Some(n));
        reg.free_quantum_circuit(h);
        assert!(!reg.circuit_is_live(h));
    }
    assert_eq!(reg.live_circuit_count(), 0);
}

#[test]
fn create_zero_qubits_is_rejected() {
    let mut reg = Registry::new();
    let h = reg.create_quantum_circuit(0);
    assert!(h.is_null());
    assert_eq!(reg.live_circuit_count(), 0);
}

#[test]
fn null_handle_mutates_nothing() {
    let mut reg = Registry::new();
    let live = reg.create_quantum_circuit(2);
    let null = CircuitHandle::null();
    assert_eq!(reg.add_hadamard(null, 0), -1);
    assert_eq!(reg.add_pauli_x(null, 0), -1);
    assert_eq!(reg.add_pauli_y(null, 0), -1);
    assert_eq!(reg.add_pauli_z(null, 0), -1);
    assert_eq!(reg.add_s(null, 0), -1);
    assert_eq!(reg.add_t(null, 0), -1);
    assert_eq!(reg.add_cnot(null, 0, 1), -1);
    assert_eq!(reg.apply_basic_transpiler_pass(null), -1);
    assert_eq!(reg.apply_advanced_transpiler_pass(null), -1);
    // the one live circuit is untouched throughout
    assert_eq!(reg.circuit_op_count(live), Some(0));
    assert_eq!(reg.circuit_pass_count(live), Some(0));
    assert_eq!(reg.live_circuit_count(), 1);
}

#[test]
fn single_qubit_gates_respect_bounds() {
    let mut reg = Registry::new();
    let h = reg.create_quantum_circuit(3);
    // index just inside the range succeeds for every single-qubit gate
    assert_eq!(reg.add_hadamard(h, 2), 0);
    assert_eq!(reg.add_pauli_x(h, 2), 0);
    assert_eq!(reg.add_pauli_y(h, 2), 0);
    assert_eq!(reg.add_pauli_z(h, 2), 0);
    assert_eq!(reg.add_s(h, 2), 0);
    assert_eq!(reg.add_t(h, 2), 0);
    assert_eq!(reg.circuit_op_count(h), Some(6));
    // index just outside the range is rejected and appends nothing
    assert_eq!(reg.add_hadamard(h, 3), -2);
    assert_eq!(reg.add_pauli_x(h, 3), -2);
    assert_eq!(reg.add_pauli_y(h, 3), -2);
    assert_eq!(reg.add_pauli_z(h, 3), -2);
    assert_eq!(reg.add_s(h, 3), -2);
    assert_eq!(reg.add_t(h, 3), -2);
    assert_eq!(reg.circuit_op_count(h), Some(6));
}

#[test]
fn cnot_rejects_either_index_out_of_range() {
    let mut reg = Registry::new();
    let h = reg.create_quantum_circuit(2);
    assert_eq!(reg.add_cnot(h, 2, 0), -2); // control out of range
    assert_eq!(reg.add_cnot(h, 0, 2), -2); // target out of range
    assert_eq!(reg.add_cnot(h, 2, 2), -2); // both out of range
    assert_eq!(reg.circuit_op_count(h), Some(0)); // neither partial nor full gate appended
    assert_eq!(reg.add_cnot(h, 1, 0), 0);
    assert_eq!(reg.circuit_op_count(h), Some(1));
}

#[test]
fn insertion_order_is_preserved() {
    let mut reg = Registry::new();
    let h = reg.create_quantum_circuit(2);
    assert_eq!(reg.add_hadamard(h, 0), 0);
    assert_eq!(reg.add_pauli_x(h, 1), 0);
    assert_eq!(reg.add_cnot(h, 0, 1), 0);
    assert_eq!(reg.circuit_op_count(h), Some(3));
    assert_eq!(reg.circuit_op_at(h, 0), Some(Gate::Hadamard { qubit: 0 }));
    assert_eq!(reg.circuit_op_at(h, 1), Some(Gate::PauliX { qubit: 1 }));
    assert_eq!(reg.circuit_op_at(h, 2), Some(Gate::Cnot { control: 0, target: 1 }));
    assert_eq!(reg.circuit_op_at(h, 3), None);
}

#[test]
fn basic_pass_runs_stages_in_fixed_order() {
    let mut reg = Registry::new();
    let h = reg.create_quantum_circuit(1);
    // an empty circuit is fine: success depends only on the handle
    assert_eq!(reg.apply_basic_transpiler_pass(h), 0);
    assert_eq!(reg.circuit_pass_count(h), Some(3));
    assert_eq!(reg.circuit_pass_at(h, 0), Some(PassStage::RedundantGateRemoval));
    assert_eq!(reg.circuit_pass_at(h, 1), Some(PassStage::IdleWireRemoval));
    assert_eq!(reg.circuit_pass_at(h, 2), Some(PassStage::BarrierRemoval));
}

#[test]
fn advanced_pass_runs_stages_in_fixed_order() {
    let mut reg = Registry::new();
    let h = reg.create_quantum_circuit(1);
    assert_eq!(reg.apply_advanced_transpiler_pass(h), 0);
    assert_eq!(reg.circuit_pass_count(h), Some(3));
    assert_eq!(reg.circuit_pass_at(h, 0), Some(PassStage::HardwareRouting));
    assert_eq!(reg.circuit_pass_at(h, 1), Some(PassStage::NoiseAwareOptimization));
    assert_eq!(reg.circuit_pass_at(h, 2), Some(PassStage::DepthOptimization));
}

#[test]
fn pass_groups_may_repeat_and_append_in_order() {
    let mut reg = Registry::new();
    let h = reg.create_quantum_circuit(2);
    assert_eq!(reg.apply_basic_transpiler_pass(h), 0);
    assert_eq!(reg.apply_advanced_transpiler_pass(h), 0);
    assert_eq!(reg.circuit_pass_count(h), Some(6));
    assert_eq!(reg.circuit_pass_at(h, 3), Some(PassStage::HardwareRouting));
    assert_eq!(reg.circuit_pass_at(h, 5), Some(PassStage::DepthOptimization));
}

#[test]
fn transpile_null_returns_null() {
    let mut reg = Registry::new();
    let t = reg.transpile_circuit(CircuitHandle::null());
    assert!(t.is_null());
    assert_eq!(reg.live_transpiled_count(), 0);
}

#[test]
fn transpile_consumes_without_double_release() {
    let mut reg = Registry::new();
    let h = reg.create_quantum_circuit(2);
    assert_eq!(reg.add_hadamard(h, 0), 0);
    assert_eq!(reg.live_circuit_count(), 1);
    let t = reg.transpile_circuit(h);
    assert!(!t.is_null());
    // exactly one live object moved from one arena to the other
    assert_eq!(reg.live_circuit_count(), 0);
    assert_eq!(reg.live_transpiled_count(), 1);
    // the consumed handle is dead: every use is rejected, freeing it
    // releases nothing further
    assert!(!reg.circuit_is_live(h));
    assert_eq!(reg.add_hadamard(h, 0), -1);
    reg.free_quantum_circuit(h);
    assert_eq!(reg.live_transpiled_count(), 1);
    assert!(reg.transpiled_is_live(t));
    reg.free_transpiled_circuit(t);
    assert_eq!(reg.live_transpiled_count(), 0);
}

#[test]
fn free_null_handles_is_a_no_op() {
    let mut reg = Registry::new();
    reg.free_quantum_circuit(CircuitHandle::null());
    reg.free_transpiled_circuit(TranspiledHandle::null());
    let h = reg.create_quantum_circuit(1);
    reg.free_quantum_circuit(CircuitHandle::null());
    assert!(reg.circuit_is_live(h)); // the live circuit was untouched
}

#[test]
fn double_free_and_stale_handles_are_detected() {
    let mut reg = Registry::new();
    let h = reg.create_quantum_circuit(2);
    reg.free_quantum_circuit(h);
    assert!(!reg.circuit_is_live(h));
    // a second free is a no-op, not a fault
    reg.free_quantum_circuit(h);
    // every operation on the stale handle reports a dead handle
    assert_eq!(reg.add_hadamard(h, 0), -1);
    assert_eq!(reg.apply_basic_transpiler_pass(h), -1);
    assert!(reg.transpile_circuit(h).is_null());
    // a forged token is rejected the same way
    let forged = CircuitHandle::from_raw(999);
    assert!(!reg.circuit_is_live(forged));
    assert_eq!(reg.add_hadamard(forged, 0), -1);
}

#[test]
fn end_to_end_two_qubit_circuit() {
    let mut reg = Registry::new();
    let h = reg.create_quantum_circuit(2);
    assert_eq!(reg.add_hadamard(h, 0), 0);
    assert_eq!(reg.add_cnot(h, 0, 1), 0);
    assert_eq!(reg.apply_basic_transpiler_pass(h), 0);
    let t = reg.transpile_circuit(h);
    assert!(!t.is_null());
    // the transpiled circuit carries the content over unchanged
    assert_eq!(reg.transpiled_op_count(t), Some(2));
    assert_eq!(reg.transpiled_op_at(t, 0), Some(Gate::Hadamard { qubit: 0 }));
    assert_eq!(reg.transpiled_op_at(t, 1), Some(Gate::Cnot { control: 0, target: 1 }));
    reg.free_transpiled_circuit(t);
    assert!(!reg.transpiled_is_live(t));
}

#[test]
fn end_to_end_one_qubit_cnot_rejected() {
    let mut reg = Registry::new();
    let h = reg.create_quantum_circuit(1);
    assert_eq!(reg.add_cnot(h, 0, 1), -2); // target index 1 is out of range
    assert_eq!(reg.circuit_op_count(h), Some(0));
    reg.free_quantum_circuit(h);
}

#[test]
fn independent_circuits_share_no_state() {
    let mut reg = Registry::new();
    let first = reg.create_quantum_circuit(2);
    let second = reg.create_quantum_circuit(3);
    assert_eq!(reg.add_hadamard(first, 0), 0);
    assert_eq!(reg.apply_advanced_transpiler_pass(first), 0);
    // the second circuit saw none of it
    assert_eq!(reg.circuit_op_count(second), Some(0));
    assert_eq!(reg.circuit_pass_count(second), Some(0));
    assert_eq!(reg.circuit_qubit_count(second), Some(3));
    // consuming the first leaves the second alone
    let t = reg.transpile_circuit(first);
    assert!(!t.is_null());
    assert!(reg.circuit_is_live(second));
    assert_eq!(reg.add_pauli_x(second, 2), 0);
    assert_eq!(reg.circuit_op_count(second), Some(1));
    reg.free_quantum_circuit(second);
    assert!(reg.transpiled_is_live(t));
}

#[test]
fn handles_round_trip_through_raw_tokens() {
    let mut reg = Registry::new();
    let h = reg.create_quantum_circuit(2);
    let raw = h.to_raw();
    let back = CircuitHandle::from_raw(raw);
    assert_eq!(reg.add_hadamard(back, 0), 0);
    assert_eq!(reg.circuit_op_count(h), Some(1));
    let t = reg.transpile_circuit(back);
    let traw = t.to_raw();
    let tback = TranspiledHandle::from_raw(traw);
    assert!(reg.transpiled_is_live(tback));
    reg.free_transpiled_circuit(tback);
    assert!(!reg.transpiled_is_live(t));
}

#[test]
fn getters_reject_dead_and_null_handles() {
    let mut reg = Registry::new();
    assert_eq!(reg.circuit_qubit_count(CircuitHandle::null()), None);
    assert_eq!(reg.circuit_op_count(CircuitHandle::null()), None);
    assert_eq!(reg.circuit_op_at(CircuitHandle::null(), 0), None);
    assert_eq!(reg.circuit_pass_count(CircuitHandle::null()), None);
    assert_eq!(reg.circuit_pass_at(CircuitHandle::null(), 0), None);
    assert_eq!(reg.transpiled_op_count(TranspiledHandle::null()), None);
    assert_eq!(reg.transpiled_op_at(TranspiledHandle::null(), 0), None);
    let h = reg.create_quantum_circuit(1);
    reg.free_quantum_circuit(h);
    assert_eq!(reg.circuit_qubit_count(h), None);
    assert_eq!(reg.circuit_op_count(h), None);
}
