//! A model of the Semaphore anonymous-signaling circuit: identity commitments,
//! nullifier derivation, Merkle-path membership, the statement the circuit
//! enforces over its four public inputs, and the synthesis plan that a proving
//! backend must follow to realise that statement.

pub mod budget;
pub mod circuit;
pub mod field;
pub mod hash;
pub mod merkle;
pub mod plan;
