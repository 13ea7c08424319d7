//! A crash-proof boundary over an incrementally built quantum circuit.
//!
//! Callers work through opaque handles and small integer status codes:
//! create a circuit with a fixed qubit count, append gates one at a time,
//! apply named transpiler pass groups, consume the circuit into a
//! transpiled form, and free whatever handles remain. Every operation
//! validates its handle and its qubit indices before touching anything,
//! so no call can fault; stale or foreign handles are rejected rather
//! than dereferenced.

use vstd::prelude::*;

pub mod circuit;
pub mod laws;
pub mod registry;

verus! {

/// Adds two machine integers.
pub fn add(left: usize, right: usize) -> (sum: usize)
    requires
        left + right <= usize::MAX,
    ensures
        sum == left + right,
{
    left + right
}

} // verus!
