//! The handle lifecycle manager: an arena that owns every circuit and
//! every transpiled circuit, hands out opaque tokens for them, and
//! validates each token before any use.
//!
//! A handle is a small integer token, never an address. Token 0 is the
//! reserved null sentinel; token `i + 1` names slot `i` of the arena.
//! A slot is emptied, and never refilled, when its circuit is freed or
//! consumed by transpilation, so a stale token is rejected exactly like
//! a null one instead of touching reclaimed memory. Every operation's
//! contract states its result and the whole new registry state through
//! the `spec_*` transition functions below.

use vstd::prelude::*;

use crate::circuit::Circuit;
use crate::circuit::CircuitView;
use crate::circuit::Gate;
use crate::circuit::PassStage;
use crate::circuit::TranspiledCircuit;

verus! {

/// Status of a successful boundary operation.
pub const STATUS_OK: i32 = 0;

/// Status returned when the handle passed in is null, stale, or foreign.
pub const STATUS_NULL_HANDLE: i32 = -1;

/// Status returned when a qubit index is outside the circuit's range.
pub const STATUS_INVALID_INDEX: i32 = -2;

/// An opaque reference to a circuit builder owned by a `Registry`.
/// Token 0 is the null sentinel and names nothing.
#[derive(Clone, Copy, PartialEq, Eq, Structural, Debug)]
pub struct CircuitHandle {
    token: usize,
}

impl View for CircuitHandle {
    type V = nat;

    closed spec fn view(&self) -> nat {
        self.token as nat
    }
}

impl CircuitHandle {
    /// The null sentinel: rejected by every operation that needs a live circuit.
    pub fn null() -> (h: CircuitHandle)
        ensures
            h@ == 0,
    {
        CircuitHandle { token: 0 }
    }

    /// Whether this handle is the null sentinel.
    pub fn is_null(&self) -> (b: bool)
        ensures
            b == (self@ == 0),
    {
        self.token == 0
    }

    /// The raw token value, for carrying the handle across a foreign boundary.
    pub fn to_raw(self) -> (raw: usize)
        ensures
            raw == self@,
    {
        self.token
    }

    /// Rebuilds a handle from a raw token value. A forged token is safe:
    /// the registry validates it on every use.
    pub fn from_raw(raw: usize) -> (h: CircuitHandle)
        ensures
            h@ == raw,
    {
        CircuitHandle { token: raw }
    }
}

/// An opaque reference to a transpiled circuit owned by a `Registry`.
/// A distinct nominal type from `CircuitHandle`, so the two kinds can
/// never be interchanged at a call site. Token 0 is the null sentinel.
#[derive(Clone, Copy, PartialEq, Eq, Structural, Debug)]
pub struct TranspiledHandle {
    token: usize,
}

impl View for TranspiledHandle {
    type V = nat;

    closed spec fn view(&self) -> nat {
        self.token as nat
    }
}

impl TranspiledHandle {
    /// The null sentinel for the transpiled kind.
    pub fn null() -> (h: TranspiledHandle)
        ensures
            h@ == 0,
    {
        TranspiledHandle { token: 0 }
    }

    /// Whether this handle is the null sentinel.
    pub fn is_null(&self) -> (b: bool)
        ensures
            b == (self@ == 0),
    {
        self.token == 0
    }

    /// The raw token value, for carrying the handle across a foreign boundary.
    pub fn to_raw(self) -> (raw: usize)
        ensures
            raw == self@,
    {
        self.token
    }

    /// Rebuilds a handle from a raw token value.
    pub fn from_raw(raw: usize) -> (h: TranspiledHandle)
        ensures
            h@ == raw,
    {
        TranspiledHandle { token: raw }
    }
}

/// Everything a registry owns, abstractly: one slot per token ever
/// issued, holding the object's content while it is live and nothing
/// after it has been freed or consumed.
#[verifier::ext_equal]
pub ghost struct RegistryView {
    pub circuits: Seq<Option<CircuitView>>,
    pub transpiled: Seq<Option<CircuitView>>,
}

impl RegistryView {
    /// Whether `h` names a live circuit slot.
    pub open spec fn circuit_live(self, h: CircuitHandle) -> bool {
        &&& 1 <= h@
        &&& h@ <= self.circuits.len()
        &&& self.circuits[h@ - 1] is Some
    }

    /// The circuit `h` names.
    pub open spec fn circuit_at(self, h: CircuitHandle) -> CircuitView
        recommends
            self.circuit_live(h),
    {
        self.circuits[h@ - 1]->0
    }

    /// Whether `t` names a live transpiled slot.
    pub open spec fn transpiled_live(self, t: TranspiledHandle) -> bool {
        &&& 1 <= t@
        &&& t@ <= self.transpiled.len()
        &&& self.transpiled[t@ - 1] is Some
    }

    /// The transpiled circuit `t` names.
    pub open spec fn transpiled_at(self, t: TranspiledHandle) -> CircuitView
        recommends
            self.transpiled_live(t),
    {
        self.transpiled[t@ - 1]->0
    }

    /// Well-formed: every live object in the registry is a well-formed
    /// circuit, so in particular every recorded gate is in range.
    pub open spec fn wf(self) -> bool {
        &&& forall|i: int|
            0 <= i < self.circuits.len() ==> (#[trigger] self.circuits[i] matches Some(c)
                ==> c.wf())
        &&& forall|i: int|
            0 <= i < self.transpiled.len() ==> (#[trigger] self.transpiled[i] matches Some(c)
                ==> c.wf())
    }
}

/// The state after creating a circuit of `qubit_count` qubits: one new
/// live slot at the end of the circuit arena; everything else unchanged.
pub open spec fn spec_create(v: RegistryView, qubit_count: nat) -> RegistryView {
    RegistryView {
        circuits: v.circuits.push(
            Some(
                CircuitView {
                    qubit_count,
                    ops: Seq::<Gate>::empty(),
                    passes: Seq::<PassStage>::empty(),
                },
            ),
        ),
        ..v
    }
}

/// The status of appending gate `g` through handle `h`: the handle is
/// checked first, and qubit indices only once it is live.
pub open spec fn spec_gate_status(v: RegistryView, h: CircuitHandle, g: Gate) -> i32 {
    if !v.circuit_live(h) {
        STATUS_NULL_HANDLE
    } else if !g.in_range(v.circuit_at(h).qubit_count) {
        STATUS_INVALID_INDEX
    } else {
        STATUS_OK
    }
}

/// The state after appending gate `g` through handle `h`: on success the
/// gate goes at the end of that circuit's operation sequence and nothing
/// else changes; on any rejection the registry is untouched.
pub open spec fn spec_add_gate(v: RegistryView, h: CircuitHandle, g: Gate) -> RegistryView {
    if spec_gate_status(v, h, g) == STATUS_OK {
        RegistryView {
            circuits: v.circuits.update(
                h@ - 1,
                Some(CircuitView { ops: v.circuit_at(h).ops.push(g), ..v.circuit_at(h) }),
            ),
            ..v
        }
    } else {
        v
    }
}

/// The three stages of the basic pass group, in their fixed order.
pub open spec fn basic_stages() -> Seq<PassStage> {
    seq![
        PassStage::RedundantGateRemoval,
        PassStage::IdleWireRemoval,
        PassStage::BarrierRemoval,
    ]
}

/// The three stages of the advanced pass group, in their fixed order.
pub open spec fn advanced_stages() -> Seq<PassStage> {
    seq![
        PassStage::HardwareRouting,
        PassStage::NoiseAwareOptimization,
        PassStage::DepthOptimization,
    ]
}

/// The status of applying a pass group through handle `h`: success on
/// any live handle, whatever the circuit holds; no index check applies.
pub open spec fn spec_pass_status(v: RegistryView, h: CircuitHandle) -> i32 {
    if v.circuit_live(h) {
        STATUS_OK
    } else {
        STATUS_NULL_HANDLE
    }
}

/// The state after applying the pass stages `stages` through handle `h`:
/// on a live handle they are appended, in order, to that circuit's pass
/// record; otherwise the registry is untouched.
pub open spec fn spec_apply_stages(
    v: RegistryView,
    h: CircuitHandle,
    stages: Seq<PassStage>,
) -> RegistryView {
    if v.circuit_live(h) {
        RegistryView {
            circuits: v.circuits.update(
                h@ - 1,
                Some(
                    CircuitView { passes: v.circuit_at(h).passes + stages, ..v.circuit_at(h) },
                ),
            ),
            ..v
        }
    } else {
        v
    }
}

/// The token of the transpiled handle that transpiling through `h`
/// returns: 0 on a null or stale handle, a fresh live token otherwise.
pub open spec fn spec_transpile_token(v: RegistryView, h: CircuitHandle) -> nat {
    if v.circuit_live(h) {
        v.transpiled.len() + 1
    } else {
        0
    }
}

/// The state after transpiling through `h`: the circuit slot is emptied
/// (the builder is consumed, never to be used or freed again) and its
/// content reappears as a new live transpiled slot. A null or stale
/// handle leaves the registry untouched.
pub open spec fn spec_transpile(v: RegistryView, h: CircuitHandle) -> RegistryView {
    if v.circuit_live(h) {
        RegistryView {
            circuits: v.circuits.update(h@ - 1, None),
            transpiled: v.transpiled.push(Some(v.circuit_at(h))),
        }
    } else {
        v
    }
}

/// The state after freeing circuit handle `h`: the slot it names is
/// emptied; a null or stale handle frees nothing and faults nothing.
pub open spec fn spec_free_circuit(v: RegistryView, h: CircuitHandle) -> RegistryView {
    if v.circuit_live(h) {
        RegistryView { circuits: v.circuits.update(h@ - 1, None), ..v }
    } else {
        v
    }
}

/// The state after freeing transpiled handle `t`, mirroring
/// `spec_free_circuit` on the transpiled arena.
pub open spec fn spec_free_transpiled(v: RegistryView, t: TranspiledHandle) -> RegistryView {
    if v.transpiled_live(t) {
        RegistryView { transpiled: v.transpiled.update(t@ - 1, None), ..v }
    } else {
        v
    }
}

/// The abstract content of one circuit arena slot.
pub open spec fn circuit_slot_view(slot: Option<Circuit>) -> Option<CircuitView> {
    match slot {
        Some(c) => Some(c@),
        None => None,
    }
}

/// The abstract content of one transpiled arena slot.
pub open spec fn transpiled_slot_view(slot: Option<TranspiledCircuit>) -> Option<CircuitView> {
    match slot {
        Some(t) => Some(t@),
        None => None,
    }
}

/// The arena that owns every circuit and transpiled circuit reachable
/// through handles. Freed and consumed slots stay empty forever, so no
/// token is ever reissued for a different object.
pub struct Registry {
    circuits: Vec<Option<Circuit>>,
    transpiled: Vec<Option<TranspiledCircuit>>,
}

impl View for Registry {
    type V = RegistryView;

    closed spec fn view(&self) -> RegistryView {
        RegistryView {
            circuits: self.circuits@.map_values(|slot: Option<Circuit>| circuit_slot_view(slot)),
            transpiled: self.transpiled@.map_values(
                |slot: Option<TranspiledCircuit>| transpiled_slot_view(slot),
            ),
        }
    }
}

impl Registry {
    /// An empty registry: no slots of either kind.
    pub fn new() -> (r: Registry)
        ensures
            r@.circuits == Seq::<Option<CircuitView>>::empty(),
            r@.transpiled == Seq::<Option<CircuitView>>::empty(),
            r@.wf(),
    {
        let r = Registry { circuits: Vec::new(), transpiled: Vec::new() };
        proof {
            assert(r@.circuits =~= Seq::<Option<CircuitView>>::empty());
            assert(r@.transpiled =~= Seq::<Option<CircuitView>>::empty());
        }
        r
    }

    /// Creates a new circuit with `qubit_count` qubits and returns its
    /// handle. A qubit count of zero is rejected with the null sentinel
    /// and the registry is untouched; any positive count succeeds.
    pub fn create_quantum_circuit(&mut self, qubit_count: usize) -> (h: CircuitHandle)
        ensures
            qubit_count == 0 ==> h@ == 0 && final(self)@ == old(self)@,
            qubit_count >= 1 ==> {
                &&& h@ == old(self)@.circuits.len() + 1
                &&& final(self)@ == spec_create(old(self)@, qubit_count as nat)
                &&& final(self)@.circuit_live(h)
            },
    {
        if qubit_count == 0 {
            return CircuitHandle::null();
        }
        let c = Circuit::new(qubit_count);
        self.circuits.push(Some(c));
        let token = self.circuits.len();
        proof {
            assert(self@ =~= spec_create(old(self)@, qubit_count as nat));
        }
        CircuitHandle { token }
    }

    /// The shared body of every gate operation: validate the handle,
    /// then its qubit indices, then append in place.
    fn add_gate(&mut self, h: CircuitHandle, g: Gate) -> (status: i32)
        ensures
            status == spec_gate_status(old(self)@, h, g),
            final(self)@ == spec_add_gate(old(self)@, h, g),
    {
        if h.token == 0 {
            return STATUS_NULL_HANDLE;
        }
        let idx = h.token - 1;
        if idx >= self.circuits.len() {
            return STATUS_NULL_HANDLE;
        }
        let mut taken: Option<Circuit> = None;
        let slot = &mut self.circuits[idx];
        core::mem::swap(slot, &mut taken);
        match taken {
            None => {
                proof {
                    assert(self@ =~= old(self)@);
                }
                STATUS_NULL_HANDLE
            },
            Some(mut c) => {
                if !g.fits(c.qubit_count()) {
                    let slot_back = &mut self.circuits[idx];
                    *slot_back = Some(c);
                    proof {
                        assert(self@ =~= old(self)@);
                    }
                    STATUS_INVALID_INDEX
                } else {
                    c.push_gate(g);
                    let slot_back = &mut self.circuits[idx];
                    *slot_back = Some(c);
                    proof {
                        assert(self@ =~= spec_add_gate(old(self)@, h, g));
                    }
                    STATUS_OK
                }
            },
        }
    }

    /// Appends a Hadamard gate on `qubit`. Returns 0 on success, -1 for
    /// a null or stale handle, -2 for an out-of-range qubit index.
    pub fn add_hadamard(&mut self, h: CircuitHandle, qubit: usize) -> (status: i32)
        ensures
            status == spec_gate_status(old(self)@, h, Gate::Hadamard { qubit }),
            final(self)@ == spec_add_gate(old(self)@, h, Gate::Hadamard { qubit }),
    {
        self.add_gate(h, Gate::Hadamard { qubit })
    }

    /// Appends a Pauli-X gate on `qubit`. Returns 0 on success, -1 for
    /// a null or stale handle, -2 for an out-of-range qubit index.
    pub fn add_pauli_x(&mut self, h: CircuitHandle, qubit: usize) -> (status: i32)
        ensures
            status == spec_gate_status(old(self)@, h, Gate::PauliX { qubit }),
            final(self)@ == spec_add_gate(old(self)@, h, Gate::PauliX { qubit }),
    {
        self.add_gate(h, Gate::PauliX { qubit })
    }

    /// Appends a Pauli-Y gate on `qubit`. Returns 0 on success, -1 for
    /// a null or stale handle, -2 for an out-of-range qubit index.
    pub fn add_pauli_y(&mut self, h: CircuitHandle, qubit: usize) -> (status: i32)
        ensures
            status == spec_gate_status(old(self)@, h, Gate::PauliY { qubit }),
            final(self)@ == spec_add_gate(old(self)@, h, Gate::PauliY { qubit }),
    {
        self.add_gate(h, Gate::PauliY { qubit })
    }

    /// Appends a Pauli-Z gate on `qubit`. Returns 0 on success, -1 for
    /// a null or stale handle, -2 for an out-of-range qubit index.
    pub fn add_pauli_z(&mut self, h: CircuitHandle, qubit: usize) -> (status: i32)
        ensures
            status == spec_gate_status(old(self)@, h, Gate::PauliZ { qubit }),
            final(self)@ == spec_add_gate(old(self)@, h, Gate::PauliZ { qubit }),
    {
        self.add_gate(h, Gate::PauliZ { qubit })
    }

    /// Appends an S gate on `qubit`. Returns 0 on success, -1 for a null
    /// or stale handle, -2 for an out-of-range qubit index.
    pub fn add_s(&mut self, h: CircuitHandle, qubit: usize) -> (status: i32)
        ensures
            status == spec_gate_status(old(self)@, h, Gate::PhaseS { qubit }),
            final(self)@ == spec_add_gate(old(self)@, h, Gate::PhaseS { qubit }),
    {
        self.add_gate(h, Gate::PhaseS { qubit })
    }

    /// Appends a T gate on `qubit`. Returns 0 on success, -1 for a null
    /// or stale handle, -2 for an out-of-range qubit index.
    pub fn add_t(&mut self, h: CircuitHandle, qubit: usize) -> (status: i32)
        ensures
            status == spec_gate_status(old(self)@, h, Gate::PhaseT { qubit }),
            final(self)@ == spec_add_gate(old(self)@, h, Gate::PhaseT { qubit }),
    {
        self.add_gate(h, Gate::PhaseT { qubit })
    }

    /// Appends a CNOT gate between `control` and `target`. Returns 0 on
    /// success, -1 for a null or stale handle, -2 when either index is
    /// out of range (the two cases are not distinguished).
    pub fn add_cnot(&mut self, h: CircuitHandle, control: usize, target: usize) -> (status: i32)
        ensures
            status == spec_gate_status(old(self)@, h, Gate::Cnot { control, target }),
            final(self)@ == spec_add_gate(old(self)@, h, Gate::Cnot { control, target }),
    {
        self.add_gate(h, Gate::Cnot { control, target })
    }

    /// The shared body of both pass groups: validate the handle, then
    /// record the three stages in place, in the order given.
    fn apply_stage_group(
        &mut self,
        h: CircuitHandle,
        first: PassStage,
        second: PassStage,
        third: PassStage,
    ) -> (status: i32)
        ensures
            status == spec_pass_status(old(self)@, h),
            final(self)@ == spec_apply_stages(old(self)@, h, seq![first, second, third]),
    {
        if h.token == 0 {
            return STATUS_NULL_HANDLE;
        }
        let idx = h.token - 1;
        if idx >= self.circuits.len() {
            return STATUS_NULL_HANDLE;
        }
        let mut taken: Option<Circuit> = None;
        let slot = &mut self.circuits[idx];
        core::mem::swap(slot, &mut taken);
        match taken {
            None => {
                proof {
                    assert(self@ =~= old(self)@);
                }
                STATUS_NULL_HANDLE
            },
            Some(mut c) => {
                c.push_pass(first);
                c.push_pass(second);
                c.push_pass(third);
                let slot_back = &mut self.circuits[idx];
                *slot_back = Some(c);
                proof {
                    assert(old(self)@.circuit_at(h).passes.push(first).push(second).push(third)
                        =~= old(self)@.circuit_at(h).passes + seq![first, second, third]);
                    assert(self@ =~= spec_apply_stages(old(self)@, h, seq![first, second, third]));
                }
                STATUS_OK
            },
        }
    }

    /// Applies the basic transpiler pass group: redundant-gate removal,
    /// then idle-wire removal, then barrier removal, in that order.
    /// Returns 0 on any live handle, whatever the circuit holds, and -1
    /// for a null or stale handle.
    pub fn apply_basic_transpiler_pass(&mut self, h: CircuitHandle) -> (status: i32)
        ensures
            status == spec_pass_status(old(self)@, h),
            final(self)@ == spec_apply_stages(old(self)@, h, basic_stages()),
    {
        let status = self.apply_stage_group(
            h,
            PassStage::RedundantGateRemoval,
            PassStage::IdleWireRemoval,
            PassStage::BarrierRemoval,
        );
        proof {
            assert(seq![
                PassStage::RedundantGateRemoval,
                PassStage::IdleWireRemoval,
                PassStage::BarrierRemoval,
            ] =~= basic_stages());
        }
        status
    }

    /// Applies the advanced transpiler pass group: hardware routing, then
    /// noise-aware optimization, then depth optimization, in that order.
    /// Returns 0 on any live handle, whatever the circuit holds, and -1
    /// for a null or stale handle.
    pub fn apply_advanced_transpiler_pass(&mut self, h: CircuitHandle) -> (status: i32)
        ensures
            status == spec_pass_status(old(self)@, h),
            final(self)@ == spec_apply_stages(old(self)@, h, advanced_stages()),
    {
        let status = self.apply_stage_group(
            h,
            PassStage::HardwareRouting,
            PassStage::NoiseAwareOptimization,
            PassStage::DepthOptimization,
        );
        proof {
            assert(seq![
                PassStage::HardwareRouting,
                PassStage::NoiseAwareOptimization,
                PassStage::DepthOptimization,
            ] =~= advanced_stages());
        }
        status
    }

    /// Transpiles the circuit behind `h`, consuming it: the circuit slot
    /// is emptied for good and the content moves to a fresh transpiled
    /// slot whose handle is returned. On a null or stale handle the null
    /// transpiled sentinel comes back and nothing changes. The consumed
    /// circuit handle must not be freed afterward; doing so is a no-op.
    pub fn transpile_circuit(&mut self, h: CircuitHandle) -> (t: TranspiledHandle)
        ensures
            t@ == spec_transpile_token(old(self)@, h),
            final(self)@ == spec_transpile(old(self)@, h),
    {
        if h.token == 0 {
            return TranspiledHandle::null();
        }
        let idx = h.token - 1;
        if idx >= self.circuits.len() {
            return TranspiledHandle::null();
        }
        let mut taken: Option<Circuit> = None;
        let slot = &mut self.circuits[idx];
        core::mem::swap(slot, &mut taken);
        match taken {
            None => {
                proof {
                    assert(self@ =~= old(self)@);
                }
                TranspiledHandle::null()
            },
            Some(c) => {
                let tc = c.transpile();
                self.transpiled.push(Some(tc));
                let token = self.transpiled.len();
                proof {
                    assert(self@ =~= spec_transpile(old(self)@, h));
                }
                TranspiledHandle { token }
            },
        }
    }

    /// Frees the circuit behind `h`. A null or stale handle, including
    /// one already freed or consumed by transpilation, is a no-op and
    /// never a fault; a live circuit is released exactly once.
    pub fn free_quantum_circuit(&mut self, h: CircuitHandle)
        ensures
            final(self)@ == spec_free_circuit(old(self)@, h),
    {
        if h.token == 0 {
            return;
        }
        let idx = h.token - 1;
        if idx >= self.circuits.len() {
            return;
        }
        let slot = &mut self.circuits[idx];
        *slot = None;
        proof {
            assert(self@ =~= spec_free_circuit(old(self)@, h));
        }
    }

    /// Frees the transpiled circuit behind `t`, mirroring
    /// `free_quantum_circuit` on the transpiled arena.
    pub fn free_transpiled_circuit(&mut self, t: TranspiledHandle)
        ensures
            final(self)@ == spec_free_transpiled(old(self)@, t),
    {
        if t.token == 0 {
            return;
        }
        let idx = t.token - 1;
        if idx >= self.transpiled.len() {
            return;
        }
        let slot = &mut self.transpiled[idx];
        *slot = None;
        proof {
            assert(self@ =~= spec_free_transpiled(old(self)@, t));
        }
    }

    /// Whether `h` currently names a live circuit.
    pub fn circuit_is_live(&self, h: CircuitHandle) -> (live: bool)
        ensures
            live == self@.circuit_live(h),
    {
        if h.token == 0 {
            return false;
        }
        let idx = h.token - 1;
        idx < self.circuits.len() && self.circuits[idx].is_some()
    }

    /// Whether `t` currently names a live transpiled circuit.
    pub fn transpiled_is_live(&self, t: TranspiledHandle) -> (live: bool)
        ensures
            live == self@.transpiled_live(t),
    {
        if t.token == 0 {
            return false;
        }
        let idx = t.token - 1;
        idx < self.transpiled.len() && self.transpiled[idx].is_some()
    }

    /// The qubit count of the circuit behind `h`, if `h` is live.
    pub fn circuit_qubit_count(&self, h: CircuitHandle) -> (r: Option<usize>)
        ensures
            self@.circuit_live(h) ==> r == Some(self@.circuit_at(h).qubit_count as usize),
            !self@.circuit_live(h) ==> r is None,
    {
        if h.token == 0 {
            return None;
        }
        let idx = h.token - 1;
        if idx >= self.circuits.len() {
            return None;
        }
        match &self.circuits[idx] {
            None => None,
            Some(c) => Some(c.qubit_count()),
        }
    }

    /// How many gates the circuit behind `h` holds, if `h` is live.
    pub fn circuit_op_count(&self, h: CircuitHandle) -> (r: Option<usize>)
        ensures
            self@.circuit_live(h) ==> r == Some(self@.circuit_at(h).ops.len() as usize),
            !self@.circuit_live(h) ==> r is None,
    {
        if h.token == 0 {
            return None;
        }
        let idx = h.token - 1;
        if idx >= self.circuits.len() {
            return None;
        }
        match &self.circuits[idx] {
            None => None,
            Some(c) => Some(c.op_count()),
        }
    }

    /// The operation at position `i` of the circuit behind `h`, if `h` is
    /// live and `i` is within its operation sequence.
    pub fn circuit_op_at(&self, h: CircuitHandle, i: usize) -> (r: Option<Gate>)
        ensures
            self@.circuit_live(h) && i < self@.circuit_at(h).ops.len() ==> r == Some(
                self@.circuit_at(h).ops[i as int],
            ),
            !(self@.circuit_live(h) && i < self@.circuit_at(h).ops.len()) ==> r is None,
    {
        if h.token == 0 {
            return None;
        }
        let idx = h.token - 1;
        if idx >= self.circuits.len() {
            return None;
        }
        match &self.circuits[idx] {
            None => None,
            Some(c) => if i < c.op_count() {
                Some(c.op_at(i))
            } else {
                None
            },
        }
    }

    /// How many pass stages have been applied to the circuit behind `h`,
    /// if `h` is live.
    pub fn circuit_pass_count(&self, h: CircuitHandle) -> (r: Option<usize>)
        ensures
            self@.circuit_live(h) ==> r == Some(self@.circuit_at(h).passes.len() as usize),
            !self@.circuit_live(h) ==> r is None,
    {
        if h.token == 0 {
            return None;
        }
        let idx = h.token - 1;
        if idx >= self.circuits.len() {
            return None;
        }
        match &self.circuits[idx] {
            None => None,
            Some(c) => Some(c.pass_count()),
        }
    }

    /// The pass stage at position `i` of the circuit behind `h`, if `h`
    /// is live and `i` is within its pass record.
    pub fn circuit_pass_at(&self, h: CircuitHandle, i: usize) -> (r: Option<PassStage>)
        ensures
            self@.circuit_live(h) && i < self@.circuit_at(h).passes.len() ==> r == Some(
                self@.circuit_at(h).passes[i as int],
            ),
            !(self@.circuit_live(h) && i < self@.circuit_at(h).passes.len()) ==> r is None,
    {
        if h.token == 0 {
            return None;
        }
        let idx = h.token - 1;
        if idx >= self.circuits.len() {
            return None;
        }
        match &self.circuits[idx] {
            None => None,
            Some(c) => if i < c.pass_count() {
                Some(c.pass_at(i))
            } else {
                None
            },
        }
    }

    /// How many gates the transpiled circuit behind `t` holds, if `t` is
    /// live.
    pub fn transpiled_op_count(&self, t: TranspiledHandle) -> (r: Option<usize>)
        ensures
            self@.transpiled_live(t) ==> r == Some(self@.transpiled_at(t).ops.len() as usize),
            !self@.transpiled_live(t) ==> r is None,
    {
        if t.token == 0 {
            return None;
        }
        let idx = t.token - 1;
        if idx >= self.transpiled.len() {
            return None;
        }
        match &self.transpiled[idx] {
            None => None,
            Some(tc) => Some(tc.op_count()),
        }
    }

    /// The operation at position `i` of the transpiled circuit behind `t`, if
    /// `t` is live and `i` is within its operation sequence.
    pub fn transpiled_op_at(&self, t: TranspiledHandle, i: usize) -> (r: Option<Gate>)
        ensures
            self@.transpiled_live(t) && i < self@.transpiled_at(t).ops.len() ==> r == Some(
                self@.transpiled_at(t).ops[i as int],
            ),
            !(self@.transpiled_live(t) && i < self@.transpiled_at(t).ops.len()) ==> r is None,
    {
        if t.token == 0 {
            return None;
        }
        let idx = t.token - 1;
        if idx >= self.transpiled.len() {
            return None;
        }
        match &self.transpiled[idx] {
            None => None,
            Some(tc) => if i < tc.op_count() {
                Some(tc.op_at(i))
            } else {
                None
            },
        }
    }

    /// How many live circuit slots the registry holds.
    pub fn live_circuit_count(&self) -> (n: usize)
        ensures
            n == count_live(self@.circuits),
    {
        let ghost all = self@.circuits;
        let mut n: usize = 0;
        let mut i: usize = 0;
        while i < self.circuits.len()
            invariant
                i <= self.circuits.len(),
                all == self@.circuits,
                all.len() == self.circuits.len(),
                n == count_live(all.take(i as int)),
                n <= i,
            decreases self.circuits.len() - i,
        {
            proof {
                assert(all.take(i + 1).drop_last() =~= all.take(i as int));
                assert(all.take(i + 1).last() == all[i as int]);
            }
            if self.circuits[i].is_some() {
                n = n + 1;
            }
            i = i + 1;
        }
        proof {
            assert(all.take(i as int) =~= all);
        }
        n
    }

    /// How many live transpiled slots the registry holds.
    pub fn live_transpiled_count(&self) -> (n: usize)
        ensures
            n == count_live(self@.transpiled),
    {
        let ghost all = self@.transpiled;
        let mut n: usize = 0;
        let mut i: usize = 0;
        while i < self.transpiled.len()
            invariant
                i <= self.transpiled.len(),
                all == self@.transpiled,
                all.len() == self.transpiled.len(),
                n == count_live(all.take(i as int)),
                n <= i,
            decreases self.transpiled.len() - i,
        {
            proof {
                assert(all.take(i + 1).drop_last() =~= all.take(i as int));
                assert(all.take(i + 1).last() == all[i as int]);
            }
            if self.transpiled[i].is_some() {
                n = n + 1;
            }
            i = i + 1;
        }
        proof {
            assert(all.take(i as int) =~= all);
        }
        n
    }
}

/// How many slots of an arena hold a live object.
pub open spec fn count_live(slots: Seq<Option<CircuitView>>) -> nat
    decreases slots.len(),
{
    if slots.len() == 0 {
        0
    } else {
        count_live(slots.drop_last()) + (if slots.last() is Some {
            1nat
        } else {
            0nat
        })
    }
}

} // verus!
