//! The two-input Poseidon hash the protocol is built on, and the values the
//! circuit derives with it: the identity secret, the identity commitment and
//! the nullifier hash.

use vstd::prelude::*;
use crate::field::Felt;
use halo2_proofs::pasta::Fp;
use halo2_gadgets::poseidon::primitives::{ConstantLength, P128Pow5T3};

verus! {

/// The value of the two-input Poseidon permutation (`P128Pow5T3`, width 3,
/// rate 2) over the Pallas base field, a function of its inputs alone.
pub uninterp spec fn poseidon2_of(a: nat, b: nat) -> nat;

/// Relies on `halo2_gadgets::poseidon::primitives::Hash`: the constant-length
/// two-input Poseidon hash of two field elements, deterministic in its inputs,
/// returned in canonical form.
#[verifier::external_body]
fn poseidon_hash(a: &Felt, b: &Felt) -> (r: Felt)
    requires
        a.wf(),
        b.wf(),
    ensures
        r.wf(),
        r@ == poseidon2_of(a@, b@),
{
    let x = Fp::from_raw([a.l0, a.l1, a.l2, a.l3]);
    let y = Fp::from_raw([b.l0, b.l1, b.l2, b.l3]);
    let hasher =
        halo2_gadgets::poseidon::primitives::Hash::<Fp, P128Pow5T3, ConstantLength<2>, 3, 2>::init();
    let bytes: [u8; 32] = hasher.hash([x, y]).into();
    Felt {
        l0: u64::from_le_bytes(bytes[0..8].try_into().unwrap()),
        l1: u64::from_le_bytes(bytes[8..16].try_into().unwrap()),
        l2: u64::from_le_bytes(bytes[16..24].try_into().unwrap()),
        l3: u64::from_le_bytes(bytes[24..32].try_into().unwrap()),
    }
}

/// Hashes a pair of field elements with the protocol's Poseidon instance.
pub fn hash_pair(a: &Felt, b: &Felt) -> (r: Felt)
    requires
        a.wf(),
        b.wf(),
    ensures
        r.wf(),
        r@ == poseidon2_of(a@, b@),
{
    poseidon_hash(a, b)
}

/// The identity secret: the hash of the two private identity scalars.
pub open spec fn secret_of(nullifier: nat, trapdoor: nat) -> nat {
    poseidon2_of(nullifier, trapdoor)
}

/// The identity commitment. A single-input hash is unavailable, so the
/// two-input hash is applied to the secret twice.
pub open spec fn commitment_of(nullifier: nat, trapdoor: nat) -> nat {
    poseidon2_of(secret_of(nullifier, trapdoor), secret_of(nullifier, trapdoor))
}

/// The nullifier hash: the hash of the external nullifier and the private
/// identity nullifier.
pub open spec fn nullifier_hash_of(external_nullifier: nat, identity_nullifier: nat) -> nat {
    poseidon2_of(external_nullifier, identity_nullifier)
}

/// Derives the identity secret from the two private identity scalars.
pub fn derive_secret(identity_nullifier: &Felt, identity_trapdoor: &Felt) -> (r: Felt)
    requires
        identity_nullifier.wf(),
        identity_trapdoor.wf(),
    ensures
        r.wf(),
        r@ == secret_of(identity_nullifier@, identity_trapdoor@),
{
    hash_pair(identity_nullifier, identity_trapdoor)
}

/// Derives the identity commitment, the value stored as a tree leaf.
pub fn derive_commitment(identity_nullifier: &Felt, identity_trapdoor: &Felt) -> (r: Felt)
    requires
        identity_nullifier.wf(),
        identity_trapdoor.wf(),
    ensures
        r.wf(),
        r@ == commitment_of(identity_nullifier@, identity_trapdoor@),
{
    let secret = derive_secret(identity_nullifier, identity_trapdoor);
    hash_pair(&secret, &secret)
}

/// Derives the nullifier hash the circuit exposes as its third public input.
pub fn derive_nullifier_hash(external_nullifier: &Felt, identity_nullifier: &Felt) -> (r: Felt)
    requires
        external_nullifier.wf(),
        identity_nullifier.wf(),
    ensures
        r.wf(),
        r@ == nullifier_hash_of(external_nullifier@, identity_nullifier@),
{
    hash_pair(external_nullifier, identity_nullifier)
}

/// The nullifier hash is a pure function of the external nullifier and the
/// identity nullifier: equal inputs give an equal derived value.
pub proof fn lemma_nullifier_hash_deterministic(e1: nat, n1: nat, e2: nat, n2: nat)
    requires
        e1 == e2,
        n1 == n2,
    ensures
        nullifier_hash_of(e1, n1) == nullifier_hash_of(e2, n2),
{
}

} // verus!
