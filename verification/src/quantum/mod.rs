//! Quantum-safe algorithms.

pub mod signature;

use vstd::prelude::*;

verus! {

/// An algorithm designed to resist attacks by quantum computers.
pub trait QuantumSafe {
    /// The algorithm's standard name.
    fn algorithm_name() -> &'static str;

    /// The algorithm's security level.
    fn security_level() -> u8;
}

} // verus!
