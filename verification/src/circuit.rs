//! The Semaphore circuit's witness and the statement it enforces: the four
//! public inputs `[signal_hash, external_nullifier, nullifier_hash, root]`,
//! in that fixed order, are bound to the witness exactly when the derived
//! commitment sits in the tree under the claimed root and the nullifier hash
//! is the one derived in-circuit.

use vstd::prelude::*;
use crate::field::Felt;
use crate::hash::{
    commitment_of, derive_commitment, derive_nullifier_hash, nullifier_hash_of,
};
use crate::merkle::{check_membership, merkle_root_of, MerklePath, PathLevel};

verus! {

/// The witness of one proving run: the private identity scalars, the signal
/// context, the claimed root and the authentication path to the commitment.
pub struct SemaphoreCircuit {
    pub path: MerklePath,
    pub root: Felt,
    pub identity_nullifier: Felt,
    pub identity_trapdoor: Felt,
    pub signal_hash: Felt,
    pub external_nullifier: Felt,
}

/// The values of a public-input vector.
pub open spec fn publics_view(v: Seq<Felt>) -> Seq<nat> {
    v.map_values(|f: Felt| f@)
}

/// The statement the circuit enforces: a witness and a public-input vector
/// satisfy every constraint exactly when the vector is
/// `[signal_hash, external_nullifier, nullifier_hash, root]` with the
/// nullifier hash derived in-circuit from the witness, and recomputing the
/// root from the derived commitment along the witnessed path yields the
/// claimed root.
pub open spec fn semaphore_statement(c: SemaphoreCircuit, publics: Seq<nat>) -> bool {
    &&& publics.len() == 4
    &&& publics[0] == c.signal_hash@
    &&& publics[1] == c.external_nullifier@
    &&& publics[2] == nullifier_hash_of(c.external_nullifier@, c.identity_nullifier@)
    &&& publics[3] == c.root@
    &&& merkle_root_of(
        commitment_of(c.identity_nullifier@, c.identity_trapdoor@),
        c.path@,
    ) == c.root@
}

impl SemaphoreCircuit {
    /// A circuit shape with every witness value zeroed and a path of the
    /// given height, as the backend uses for key generation.
    pub fn without_witnesses(height: usize) -> (r: SemaphoreCircuit)
        ensures
            r.wf(),
            r.root@ == 0,
            r.identity_nullifier@ == 0,
            r.identity_trapdoor@ == 0,
            r.signal_hash@ == 0,
            r.external_nullifier@ == 0,
            r.path@.len() == height,
            forall|i: int| 0 <= i < height ==> r.path@[i] == (0nat, false),
    {
        let zero = Felt::from_u64(0);
        let mut levels: Vec<PathLevel> = Vec::new();
        let mut i: usize = 0;
        while i < height
            invariant
                i <= height,
                zero@ == 0,
                zero.wf(),
                levels@.len() == i,
                forall|j: int| 0 <= j < i ==> levels@[j].sibling@ == 0 && !levels@[j].is_right,
            decreases height - i,
        {
            levels.push(PathLevel { sibling: zero, is_right: false });
            i = i + 1;
        }
        SemaphoreCircuit {
            path: MerklePath { levels },
            root: zero,
            identity_nullifier: zero,
            identity_trapdoor: zero,
            signal_hash: zero,
            external_nullifier: zero,
        }
    }

    pub open spec fn wf(&self) -> bool {
        &&& self.path.wf()
        &&& self.root.wf()
        &&& self.identity_nullifier.wf()
        &&& self.identity_trapdoor.wf()
        &&& self.signal_hash.wf()
        &&& self.external_nullifier.wf()
    }

    /// The public-input vector a verifier must supply: exactly four elements,
    /// in the order `[signal_hash, external_nullifier, nullifier_hash, root]`,
    /// with the nullifier hash derived from the witness, never taken from a
    /// caller.
    pub fn public_inputs(&self) -> (r: Vec<Felt>)
        requires
            self.wf(),
        ensures
            publics_view(r@) == seq![
                self.signal_hash@,
                self.external_nullifier@,
                nullifier_hash_of(self.external_nullifier@, self.identity_nullifier@),
                self.root@,
            ],
            forall|i: int| 0 <= i < r@.len() ==> r@[i].wf(),
    {
        let nullifier_hash = derive_nullifier_hash(&self.external_nullifier, &self.identity_nullifier);
        let mut r: Vec<Felt> = Vec::new();
        r.push(self.signal_hash);
        r.push(self.external_nullifier);
        r.push(nullifier_hash);
        r.push(self.root);
        proof {
            assert(publics_view(r@) =~= seq![
                self.signal_hash@,
                self.external_nullifier@,
                nullifier_hash_of(self.external_nullifier@, self.identity_nullifier@),
                self.root@,
            ]);
        }
        r
    }

    /// Evaluates every constraint of the circuit against a supplied
    /// public-input vector, as an exhaustive mock evaluation would: true
    /// exactly when the statement holds of this witness and those publics.
    pub fn check_assignment(&self, publics: &Vec<Felt>) -> (r: bool)
        requires
            self.wf(),
        ensures
            r <==> semaphore_statement(*self, publics_view(publics@)),
    {
        if publics.len() != 4 {
            return false;
        }
        let nullifier_hash = derive_nullifier_hash(&self.external_nullifier, &self.identity_nullifier);
        let commitment = derive_commitment(&self.identity_nullifier, &self.identity_trapdoor);
        let member = check_membership(&self.root, &commitment, &self.path);
        let ok = self.signal_hash.eq_felt(&publics[0])
            && self.external_nullifier.eq_felt(&publics[1])
            && nullifier_hash.eq_felt(&publics[2])
            && self.root.eq_felt(&publics[3])
            && member;
        ok
    }
}

/// Completeness of the statement: an honest witness is accepted. For any
/// identity scalars and any placement of the derived commitment in a tree,
/// if recomputing the root along the witnessed path yields the claimed root,
/// the statement holds of the public-input vector
/// `[signal_hash, external_nullifier, derived nullifier hash, root]`.
pub proof fn lemma_honest_witness_accepted(c: SemaphoreCircuit, publics: Seq<nat>)
    requires
        merkle_root_of(
            commitment_of(c.identity_nullifier@, c.identity_trapdoor@),
            c.path@,
        ) == c.root@,
        publics == seq![
            c.signal_hash@,
            c.external_nullifier@,
            nullifier_hash_of(c.external_nullifier@, c.identity_nullifier@),
            c.root@,
        ],
    ensures
        semaphore_statement(c, publics),
{
}

/// Soundness of the public-input binding: with the witness fixed, changing
/// any single one of the four exposed public inputs makes the statement fail.
pub proof fn lemma_public_input_binding(
    c: SemaphoreCircuit,
    publics: Seq<nat>,
    tampered: Seq<nat>,
    i: int,
)
    requires
        semaphore_statement(c, publics),
        0 <= i < 4,
        tampered.len() == 4,
        tampered[i] != publics[i],
    ensures
        !semaphore_statement(c, tampered),
{
}

/// Soundness of the membership binding: with the root and every other field
/// fixed, a path along which the derived commitment does not recompute to the
/// claimed root makes the statement fail.
pub proof fn lemma_path_binding(c: SemaphoreCircuit, other: SemaphoreCircuit, publics: Seq<nat>)
    requires
        semaphore_statement(c, publics),
        other.root == c.root,
        other.identity_nullifier == c.identity_nullifier,
        other.identity_trapdoor == c.identity_trapdoor,
        other.signal_hash == c.signal_hash,
        other.external_nullifier == c.external_nullifier,
        merkle_root_of(
            commitment_of(other.identity_nullifier@, other.identity_trapdoor@),
            other.path@,
        ) != other.root@,
    ensures
        !semaphore_statement(other, publics),
{
}

/// The circuit never accepts a caller-supplied nullifier hash that disagrees
/// with the in-circuit derivation: whenever the statement holds, the third
/// public input is the value derived from the external nullifier and the
/// identity nullifier.
pub proof fn lemma_nullifier_hash_bound(c: SemaphoreCircuit, publics: Seq<nat>)
    requires
        semaphore_statement(c, publics),
    ensures
        publics[2] == nullifier_hash_of(c.external_nullifier@, c.identity_nullifier@),
{
}

} // verus!
