//! The boundary's laws: proof functions stating, over the registry's
//! abstract transition functions, how the lifecycle operations behave
//! and compose. Every executable operation's contract equates its effect
//! with one of those transitions, so these laws hold of the executable
//! surface as well.

use vstd::prelude::*;

use crate::circuit::CircuitView;
use crate::circuit::Gate;
use crate::circuit::PassStage;
use crate::registry::count_live;
use crate::registry::CircuitHandle;
use crate::registry::RegistryView;
use crate::registry::TranspiledHandle;
use crate::registry::advanced_stages;
use crate::registry::basic_stages;
use crate::registry::spec_add_gate;
use crate::registry::spec_apply_stages;
use crate::registry::spec_create;
use crate::registry::spec_free_circuit;
use crate::registry::spec_free_transpiled;
use crate::registry::spec_gate_status;
use crate::registry::spec_pass_status;
use crate::registry::spec_transpile;
use crate::registry::spec_transpile_token;
use crate::registry::STATUS_INVALID_INDEX;
use crate::registry::STATUS_NULL_HANDLE;
use crate::registry::STATUS_OK;

verus! {

/// Law: creating a circuit with any positive qubit count yields a live,
/// empty circuit behind the returned token, and freeing that token right
/// afterward empties exactly the slot it names and touches nothing else.
pub proof fn lemma_create_then_free(v: RegistryView, qubit_count: nat, h: CircuitHandle)
    requires
        qubit_count >= 1,
        h@ == v.circuits.len() + 1,
    ensures
        spec_create(v, qubit_count).circuit_live(h),
        spec_create(v, qubit_count).circuit_at(h) == (CircuitView {
            qubit_count,
            ops: Seq::<Gate>::empty(),
            passes: Seq::<PassStage>::empty(),
        }),
        !spec_free_circuit(spec_create(v, qubit_count), h).circuit_live(h),
        spec_free_circuit(spec_create(v, qubit_count), h).circuits =~= v.circuits.push(None),
        spec_free_circuit(spec_create(v, qubit_count), h).transpiled == v.transpiled,
{
}

/// Law: a null handle is rejected by every operation with exactly the
/// null-handle status (or the null sentinel), and nothing is mutated;
/// both frees on null handles are no-ops.
pub proof fn lemma_null_handle_rejected(
    v: RegistryView,
    h: CircuitHandle,
    t: TranspiledHandle,
    g: Gate,
)
    requires
        h@ == 0,
        t@ == 0,
    ensures
        spec_gate_status(v, h, g) == STATUS_NULL_HANDLE,
        spec_add_gate(v, h, g) == v,
        spec_pass_status(v, h) == STATUS_NULL_HANDLE,
        spec_apply_stages(v, h, basic_stages()) == v,
        spec_apply_stages(v, h, advanced_stages()) == v,
        spec_transpile_token(v, h) == 0,
        spec_transpile(v, h) == v,
        spec_free_circuit(v, h) == v,
        spec_free_transpiled(v, t) == v,
{
}

/// Law: on a live circuit of `n` qubits, a single-qubit gate at index
/// `qubit` succeeds exactly when `qubit < n` and is then appended at the
/// end of the operation sequence; an out-of-range index is rejected with
/// the invalid-index status and the registry is left unchanged.
pub proof fn lemma_single_qubit_gate(v: RegistryView, h: CircuitHandle, g: Gate, qubit: usize)
    requires
        v.circuit_live(h),
        g == (Gate::Hadamard { qubit }) || g == (Gate::PauliX { qubit }) || g == (
        Gate::PauliY { qubit }) || g == (Gate::PauliZ { qubit }) || g == (Gate::PhaseS { qubit })
            || g == (Gate::PhaseT { qubit }),
    ensures
        qubit < v.circuit_at(h).qubit_count ==> spec_gate_status(v, h, g) == STATUS_OK
            && spec_add_gate(v, h, g).circuit_live(h) && spec_add_gate(v, h, g).circuit_at(h).ops
            == v.circuit_at(h).ops.push(g),
        qubit >= v.circuit_at(h).qubit_count ==> spec_gate_status(v, h, g)
            == STATUS_INVALID_INDEX && spec_add_gate(v, h, g) == v,
{
}

/// Law: a CNOT succeeds on a live circuit exactly when both its control
/// and its target index are in range; if either is out of range, the one
/// invalid-index status comes back and no gate — partial or full — is
/// appended.
pub proof fn lemma_cnot_bounds(v: RegistryView, h: CircuitHandle, control: usize, target: usize)
    requires
        v.circuit_live(h),
    ensures
        control < v.circuit_at(h).qubit_count && target < v.circuit_at(h).qubit_count
            ==> spec_gate_status(v, h, Gate::Cnot { control, target }) == STATUS_OK
            && spec_add_gate(v, h, Gate::Cnot { control, target }).circuit_at(h).ops
            == v.circuit_at(h).ops.push(Gate::Cnot { control, target }),
        control >= v.circuit_at(h).qubit_count || target >= v.circuit_at(h).qubit_count
            ==> spec_gate_status(v, h, Gate::Cnot { control, target }) == STATUS_INVALID_INDEX
            && spec_add_gate(v, h, Gate::Cnot { control, target }) == v,
{
}

/// Law: insertion order is preserved. Appending gate `a` and then gate
/// `b` extends the operation sequence by exactly those two gates, with
/// `a` strictly before `b` and everything already there untouched.
pub proof fn lemma_insertion_order(v: RegistryView, h: CircuitHandle, a: Gate, b: Gate)
    requires
        spec_gate_status(v, h, a) == STATUS_OK,
        spec_gate_status(spec_add_gate(v, h, a), h, b) == STATUS_OK,
    ensures
        ({
            let before = v.circuit_at(h).ops;
            let after = spec_add_gate(spec_add_gate(v, h, a), h, b).circuit_at(h).ops;
            &&& after == before.push(a).push(b)
            &&& after.len() == before.len() + 2
            &&& after[before.len() as int] == a
            &&& after[before.len() as int + 1] == b
            &&& forall|i: int| 0 <= i < before.len() ==> after[i] == before[i]
        }),
{
}

/// Law: a pass group applied through a live handle succeeds whatever the
/// circuit holds — an empty circuit included — and appends exactly its
/// stages to the pass record, in their fixed documented order, leaving
/// both the operation sequence and the qubit count untouched.
pub proof fn lemma_pass_group(v: RegistryView, h: CircuitHandle)
    requires
        v.circuit_live(h),
    ensures
        spec_pass_status(v, h) == STATUS_OK,
        spec_apply_stages(v, h, basic_stages()).circuit_live(h),
        spec_apply_stages(v, h, basic_stages()).circuit_at(h).passes == v.circuit_at(h).passes
            + basic_stages(),
        spec_apply_stages(v, h, basic_stages()).circuit_at(h).ops == v.circuit_at(h).ops,
        spec_apply_stages(v, h, basic_stages()).circuit_at(h).qubit_count == v.circuit_at(
            h,
        ).qubit_count,
        spec_apply_stages(v, h, advanced_stages()).circuit_live(h),
        spec_apply_stages(v, h, advanced_stages()).circuit_at(h).passes == v.circuit_at(h).passes
            + advanced_stages(),
        spec_apply_stages(v, h, advanced_stages()).circuit_at(h).ops == v.circuit_at(h).ops,
        spec_apply_stages(v, h, advanced_stages()).circuit_at(h).qubit_count == v.circuit_at(
            h,
        ).qubit_count,
{
}

/// Law: transpilation consumes its input. On a live handle the returned
/// token is non-null, the circuit handle is dead afterward, the new
/// transpiled handle is live with the very content the circuit had, and
/// freeing the consumed circuit handle afterward releases nothing — no
/// double release is possible.
pub proof fn lemma_transpile_consumes(v: RegistryView, h: CircuitHandle, t: TranspiledHandle)
    requires
        v.circuit_live(h),
        t@ == spec_transpile_token(v, h),
    ensures
        spec_transpile_token(v, h) >= 1,
        !spec_transpile(v, h).circuit_live(h),
        spec_transpile(v, h).transpiled_live(t),
        spec_transpile(v, h).transpiled_at(t) == v.circuit_at(h),
        spec_free_circuit(spec_transpile(v, h), h) == spec_transpile(v, h),
{
}

/// Law: independent handles share no state. An operation through one
/// circuit handle never changes what a different circuit handle names,
/// and creation never disturbs a handle that was already live; likewise
/// transpilation and the frees leave every other slot as it was.
pub proof fn lemma_handle_isolation(
    v: RegistryView,
    h: CircuitHandle,
    other: CircuitHandle,
    g: Gate,
    stages: Seq<PassStage>,
    qubit_count: nat,
)
    requires
        other@ != h@,
    ensures
        spec_add_gate(v, h, g).circuit_live(other) == v.circuit_live(other),
        v.circuit_live(other) ==> spec_add_gate(v, h, g).circuit_at(other) == v.circuit_at(other),
        spec_apply_stages(v, h, stages).circuit_live(other) == v.circuit_live(other),
        v.circuit_live(other) ==> spec_apply_stages(v, h, stages).circuit_at(other)
            == v.circuit_at(other),
        spec_transpile(v, h).circuit_live(other) == v.circuit_live(other),
        v.circuit_live(other) ==> spec_transpile(v, h).circuit_at(other) == v.circuit_at(other),
        spec_free_circuit(v, h).circuit_live(other) == v.circuit_live(other),
        v.circuit_live(other) ==> spec_free_circuit(v, h).circuit_at(other) == v.circuit_at(
            other,
        ),
        v.circuit_live(other) ==> spec_create(v, qubit_count).circuit_live(other)
            && spec_create(v, qubit_count).circuit_at(other) == v.circuit_at(other),
{
}

/// Appending a slot to an arena raises its live count exactly when the
/// slot is live.
pub proof fn lemma_count_live_push(s: Seq<Option<CircuitView>>, slot: Option<CircuitView>)
    ensures
        count_live(s.push(slot)) == count_live(s) + (if slot is Some {
            1nat
        } else {
            0nat
        }),
{
    assert(s.push(slot).drop_last() =~= s);
}

/// Emptying one slot of an arena lowers its live count by one exactly
/// when that slot was live.
pub proof fn lemma_count_live_update_none(s: Seq<Option<CircuitView>>, i: int)
    requires
        0 <= i < s.len(),
    ensures
        count_live(s.update(i, None)) + (if s[i] is Some {
            1nat
        } else {
            0nat
        }) == count_live(s),
    decreases s.len(),
{
    let s1 = s.update(i, None);
    if i == s.len() - 1 {
        assert(s1.drop_last() =~= s.drop_last());
    } else {
        assert(s1.drop_last() =~= s.drop_last().update(i, None));
        lemma_count_live_update_none(s.drop_last(), i);
        assert(s1.last() == s.last());
    }
}

/// Law: destruction is exactly-once, counted. Creating adds one live
/// circuit; freeing a live handle removes exactly one; freeing a null or
/// stale handle removes nothing; transpiling moves exactly one live
/// object from the circuit arena to the transpiled arena. So no call
/// sequence can release the same object twice.
pub proof fn lemma_live_counts(
    v: RegistryView,
    qubit_count: nat,
    h: CircuitHandle,
    t: TranspiledHandle,
)
    ensures
        count_live(spec_create(v, qubit_count).circuits) == count_live(v.circuits) + 1,
        v.circuit_live(h) ==> count_live(spec_free_circuit(v, h).circuits) + 1 == count_live(
            v.circuits,
        ),
        !v.circuit_live(h) ==> spec_free_circuit(v, h) == v,
        v.circuit_live(h) ==> count_live(spec_transpile(v, h).circuits) + 1 == count_live(
            v.circuits,
        ) && count_live(spec_transpile(v, h).transpiled) == count_live(v.transpiled) + 1,
        v.transpiled_live(t) ==> count_live(spec_free_transpiled(v, t).transpiled) + 1
            == count_live(v.transpiled),
        !v.transpiled_live(t) ==> spec_free_transpiled(v, t) == v,
{
    lemma_count_live_push(
        v.circuits,
        Some(
            CircuitView {
                qubit_count,
                ops: Seq::<Gate>::empty(),
                passes: Seq::<PassStage>::empty(),
            },
        ),
    );
    if v.circuit_live(h) {
        lemma_count_live_update_none(v.circuits, h@ - 1);
        lemma_count_live_push(v.transpiled, Some(v.circuit_at(h)));
    }
    if v.transpiled_live(t) {
        lemma_count_live_update_none(v.transpiled, t@ - 1);
    }
}

/// Law: creation preserves registry well-formedness, provided the new
/// circuit has at least one qubit.
pub proof fn lemma_create_preserves_wf(v: RegistryView, qubit_count: nat)
    requires
        v.wf(),
        qubit_count >= 1,
    ensures
        spec_create(v, qubit_count).wf(),
{
    let v1 = spec_create(v, qubit_count);
    assert forall|i: int|
        0 <= i < v1.circuits.len() implies (#[trigger] v1.circuits[i] matches Some(c)
        ==> c.wf()) by {
        if i < v.circuits.len() {
            assert(v1.circuits[i] == v.circuits[i]);
        }
    }
}

/// Law: appending a gate preserves registry well-formedness; in
/// particular the appended gate is in range, because the operation only
/// succeeds after validating it.
pub proof fn lemma_add_gate_preserves_wf(v: RegistryView, h: CircuitHandle, g: Gate)
    requires
        v.wf(),
    ensures
        spec_add_gate(v, h, g).wf(),
{
    let v1 = spec_add_gate(v, h, g);
    if spec_gate_status(v, h, g) == STATUS_OK {
        let c0 = v.circuit_at(h);
        let c1 = CircuitView { ops: c0.ops.push(g), ..c0 };
        assert(v.circuits[h@ - 1] matches Some(c) && c.wf());
        assert forall|j: int|
            0 <= j < c1.ops.len() implies #[trigger] c1.ops[j].in_range(c1.qubit_count) by {
            if j < c0.ops.len() {
                assert(c0.ops[j].in_range(c0.qubit_count));
            }
        }
        assert forall|i: int|
            0 <= i < v1.circuits.len() implies (#[trigger] v1.circuits[i] matches Some(c)
            ==> c.wf()) by {
            if i != h@ - 1 {
                assert(v1.circuits[i] == v.circuits[i]);
            }
        }
    }
}

/// Law: recording pass stages preserves registry well-formedness, since
/// it touches neither the operation sequence nor the qubit count.
pub proof fn lemma_apply_stages_preserves_wf(
    v: RegistryView,
    h: CircuitHandle,
    stages: Seq<PassStage>,
)
    requires
        v.wf(),
    ensures
        spec_apply_stages(v, h, stages).wf(),
{
    let v1 = spec_apply_stages(v, h, stages);
    if v.circuit_live(h) {
        assert(v.circuits[h@ - 1] matches Some(c) && c.wf());
        assert forall|i: int|
            0 <= i < v1.circuits.len() implies (#[trigger] v1.circuits[i] matches Some(c)
            ==> c.wf()) by {
            if i != h@ - 1 {
                assert(v1.circuits[i] == v.circuits[i]);
            }
        }
    }
}

/// Law: transpilation preserves registry well-formedness — the consumed
/// circuit was well-formed and carries over unchanged.
pub proof fn lemma_transpile_preserves_wf(v: RegistryView, h: CircuitHandle)
    requires
        v.wf(),
    ensures
        spec_transpile(v, h).wf(),
{
    let v1 = spec_transpile(v, h);
    if v.circuit_live(h) {
        assert(v.circuits[h@ - 1] matches Some(c) && c.wf());
        assert forall|i: int|
            0 <= i < v1.circuits.len() implies (#[trigger] v1.circuits[i] matches Some(c)
            ==> c.wf()) by {
            if i != h@ - 1 {
                assert(v1.circuits[i] == v.circuits[i]);
            }
        }
        assert forall|i: int|
            0 <= i < v1.transpiled.len() implies (#[trigger] v1.transpiled[i] matches Some(c)
            ==> c.wf()) by {
            if i < v.transpiled.len() {
                assert(v1.transpiled[i] == v.transpiled[i]);
            }
        }
    }
}

/// Law: freeing a handle of either kind preserves registry
/// well-formedness.
pub proof fn lemma_free_preserves_wf(v: RegistryView, h: CircuitHandle, t: TranspiledHandle)
    requires
        v.wf(),
    ensures
        spec_free_circuit(v, h).wf(),
        spec_free_transpiled(v, t).wf(),
{
    let v1 = spec_free_circuit(v, h);
    assert forall|i: int|
        0 <= i < v1.circuits.len() implies (#[trigger] v1.circuits[i] matches Some(c)
        ==> c.wf()) by {
        if !(v.circuit_live(h) && i == h@ - 1) {
            assert(v1.circuits[i] == v.circuits[i]);
        }
    }
    let v2 = spec_free_transpiled(v, t);
    assert forall|i: int|
        0 <= i < v2.transpiled.len() implies (#[trigger] v2.transpiled[i] matches Some(c)
        ==> c.wf()) by {
        if !(v.transpiled_live(t) && i == t@ - 1) {
            assert(v2.transpiled[i] == v.transpiled[i]);
        }
    }
}

} // verus!
