//! The circuit data model: gates, transpiler pass stages, the mutable
//! circuit builder, and the transpiled circuit it is consumed into.
//!
//! Gate semantics (what a Hadamard or a CNOT does to quantum state) are
//! out of scope here: a circuit is its qubit count, its ordered gate
//! sequence, and the ordered record of pass stages applied to it. That is
//! exactly what the boundary validates and what its contracts speak of.

use vstd::prelude::*;

verus! {

/// A single gate operation on one or two qubit positions.
#[derive(Clone, Copy, PartialEq, Eq, Structural, Debug)]
pub enum Gate {
    Hadamard { qubit: usize },
    PauliX { qubit: usize },
    PauliY { qubit: usize },
    PauliZ { qubit: usize },
    PhaseS { qubit: usize },
    PhaseT { qubit: usize },
    Cnot { control: usize, target: usize },
}

impl Gate {
    /// Every qubit position this operation touches lies below `qubit_count`.
    pub open spec fn in_range(self, qubit_count: nat) -> bool {
        match self {
            Gate::Hadamard { qubit } => qubit < qubit_count,
            Gate::PauliX { qubit } => qubit < qubit_count,
            Gate::PauliY { qubit } => qubit < qubit_count,
            Gate::PauliZ { qubit } => qubit < qubit_count,
            Gate::PhaseS { qubit } => qubit < qubit_count,
            Gate::PhaseT { qubit } => qubit < qubit_count,
            Gate::Cnot { control, target } => control < qubit_count && target < qubit_count,
        }
    }

    /// Runtime check matching `in_range`.
    pub fn fits(&self, qubit_count: usize) -> (ok: bool)
        ensures
            ok == self.in_range(qubit_count as nat),
    {
        match self {
            Gate::Hadamard { qubit } => *qubit < qubit_count,
            Gate::PauliX { qubit } => *qubit < qubit_count,
            Gate::PauliY { qubit } => *qubit < qubit_count,
            Gate::PauliZ { qubit } => *qubit < qubit_count,
            Gate::PhaseS { qubit } => *qubit < qubit_count,
            Gate::PhaseT { qubit } => *qubit < qubit_count,
            Gate::Cnot { control, target } => *control < qubit_count && *target < qubit_count,
        }
    }
}

/// One stage of a transpiler pass group, named after the engine-side
/// transformation it stands for. The stages' effects on gate-level
/// semantics are engine-defined; the boundary guarantees only which
/// stages run and in which order, which is what a circuit records.
#[derive(Clone, Copy, PartialEq, Eq, Structural, Debug)]
pub enum PassStage {
    RedundantGateRemoval,
    IdleWireRemoval,
    BarrierRemoval,
    HardwareRouting,
    NoiseAwareOptimization,
    DepthOptimization,
}

/// The mathematical content of a circuit: a fixed qubit count, its gate
/// operations in insertion order, and the pass stages applied so far in
/// application order.
#[verifier::ext_equal]
pub ghost struct CircuitView {
    pub qubit_count: nat,
    pub ops: Seq<Gate>,
    pub passes: Seq<PassStage>,
}

impl CircuitView {
    /// Well-formed: at least one qubit, and every recorded gate addresses
    /// only qubit positions below the circuit's qubit count.
    pub open spec fn wf(self) -> bool {
        &&& self.qubit_count >= 1
        &&& forall|i: int| 0 <= i < self.ops.len() ==> self.ops[i].in_range(self.qubit_count)
    }
}

/// A mutable circuit builder: gates are appended one at a time and pass
/// stages are recorded in the order they are applied.
pub struct Circuit {
    qubit_count: usize,
    ops: Vec<Gate>,
    passes: Vec<PassStage>,
}

impl View for Circuit {
    type V = CircuitView;

    closed spec fn view(&self) -> CircuitView {
        CircuitView {
            qubit_count: self.qubit_count as nat,
            ops: self.ops@,
            passes: self.passes@,
        }
    }
}

impl Circuit {
    /// A fresh circuit: the given qubit count, no gates, no passes.
    pub fn new(qubit_count: usize) -> (c: Circuit)
        ensures
            c@ == (CircuitView {
                qubit_count: qubit_count as nat,
                ops: Seq::<Gate>::empty(),
                passes: Seq::<PassStage>::empty(),
            }),
    {
        Circuit { qubit_count, ops: Vec::new(), passes: Vec::new() }
    }

    /// The circuit's fixed qubit count.
    pub fn qubit_count(&self) -> (n: usize)
        ensures
            n == self@.qubit_count,
    {
        self.qubit_count
    }

    /// How many gates have been appended so far.
    pub fn op_count(&self) -> (n: usize)
        ensures
            n == self@.ops.len(),
    {
        self.ops.len()
    }

    /// The operation at position `i` of the insertion order.
    pub fn op_at(&self, i: usize) -> (g: Gate)
        requires
            i < self@.ops.len(),
        ensures
            g == self@.ops[i as int],
    {
        self.ops[i]
    }

    /// How many pass stages have been applied so far.
    pub fn pass_count(&self) -> (n: usize)
        ensures
            n == self@.passes.len(),
    {
        self.passes.len()
    }

    /// The pass stage at position `i` of the application order.
    pub fn pass_at(&self, i: usize) -> (s: PassStage)
        requires
            i < self@.passes.len(),
        ensures
            s == self@.passes[i as int],
    {
        self.passes[i]
    }

    /// Appends one gate at the end of the operation sequence; nothing
    /// else about the circuit changes.
    pub fn push_gate(&mut self, g: Gate)
        ensures
            final(self)@ == (CircuitView { ops: old(self)@.ops.push(g), ..old(self)@ }),
    {
        self.ops.push(g);
    }

    /// Records one applied pass stage at the end of the pass sequence;
    /// nothing else about the circuit changes.
    pub fn push_pass(&mut self, s: PassStage)
        ensures
            final(self)@ == (CircuitView { passes: old(self)@.passes.push(s), ..old(self)@ }),
    {
        self.passes.push(s);
    }

    /// Consumes the builder into its transpiled form. The content carries
    /// over unchanged; only the type changes, so a consumed circuit can
    /// never again be passed where a builder is expected.
    pub fn transpile(self) -> (t: TranspiledCircuit)
        ensures
            t@ == self@,
    {
        TranspiledCircuit { inner: self }
    }
}

/// A hardware-targeted circuit, produced only by consuming a `Circuit`.
/// It is a distinct nominal type so that the two handle kinds of the
/// boundary can never be confused at compile time.
pub struct TranspiledCircuit {
    inner: Circuit,
}

impl View for TranspiledCircuit {
    type V = CircuitView;

    closed spec fn view(&self) -> CircuitView {
        self.inner@
    }
}

impl TranspiledCircuit {
    /// The transpiled circuit's qubit count.
    pub fn qubit_count(&self) -> (n: usize)
        ensures
            n == self@.qubit_count,
    {
        self.inner.qubit_count()
    }

    /// How many gate operations the transpiled circuit holds.
    pub fn op_count(&self) -> (n: usize)
        ensures
            n == self@.ops.len(),
    {
        self.inner.op_count()
    }

    /// The operation at position `i` of the operation order.
    pub fn op_at(&self, i: usize) -> (g: Gate)
        requires
            i < self@.ops.len(),
        ensures
            g == self@.ops[i as int],
    {
        self.inner.op_at(i)
    }

    /// How many pass stages were applied before transpilation.
    pub fn pass_count(&self) -> (n: usize)
        ensures
            n == self@.passes.len(),
    {
        self.inner.pass_count()
    }

    /// The pass stage at position `i` of the application order.
    pub fn pass_at(&self, i: usize) -> (s: PassStage)
        requires
            i < self@.passes.len(),
        ensures
            s == self@.passes[i as int],
    {
        self.inner.pass_at(i)
    }
}

} // verus!
