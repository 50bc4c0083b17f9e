//! Merkle authentication paths and the root recomputation the membership
//! gadget enforces: hashing from a leaf up to the root, placing the running
//! value on the side each level's direction bit says.

use vstd::prelude::*;
use crate::field::Felt;
use crate::hash::{hash_pair, poseidon2_of};

verus! {

/// One level of a Merkle authentication path: the sibling value, and whether
/// the node on the path is the right child at this level.
#[derive(Clone, Copy, Debug)]
pub struct PathLevel {
    pub sibling: Felt,
    pub is_right: bool,
}

impl View for PathLevel {
    type V = (nat, bool);

    open spec fn view(&self) -> (nat, bool) {
        (self.sibling@, self.is_right)
    }
}

/// A Merkle authentication path, ordered from the leaf's level up to the
/// level just below the root.
#[derive(Debug)]
pub struct MerklePath {
    pub levels: Vec<PathLevel>,
}

impl View for MerklePath {
    type V = Seq<(nat, bool)>;

    open spec fn view(&self) -> Seq<(nat, bool)> {
        self.levels@.map_values(|l: PathLevel| l@)
    }
}

impl MerklePath {
    pub open spec fn wf(&self) -> bool {
        forall|i: int| 0 <= i < self.levels@.len() ==> self.levels@[i].sibling.wf()
    }
}

/// The root recomputed from a leaf along an authentication path: at each
/// level the running value is hashed with the sibling, on the side the
/// direction bit selects.
pub open spec fn merkle_root_of(leaf: nat, levels: Seq<(nat, bool)>) -> nat
    decreases levels.len(),
{
    if levels.len() == 0 {
        leaf
    } else {
        let parent = if levels[0].1 {
            poseidon2_of(levels[0].0, leaf)
        } else {
            poseidon2_of(leaf, levels[0].0)
        };
        merkle_root_of(parent, levels.drop_first())
    }
}

/// Recomputes the tree root from a leaf and an authentication path.
pub fn calculate_root(leaf: &Felt, path: &MerklePath) -> (r: Felt)
    requires
        leaf.wf(),
        path.wf(),
    ensures
        r.wf(),
        r@ == merkle_root_of(leaf@, path@),
{
    let mut cur: Felt = *leaf;
    let n = path.levels.len();
    let mut i: usize = 0;
    proof {
        assert(path@.skip(0) =~= path@);
    }
    while i < n
        invariant
            n == path.levels@.len(),
            0 <= i <= n,
            path.wf(),
            cur.wf(),
            merkle_root_of(cur@, path@.skip(i as int)) == merkle_root_of(leaf@, path@),
        decreases n - i,
    {
        let level = &path.levels[i];
        let next = if level.is_right {
            hash_pair(&level.sibling, &cur)
        } else {
            hash_pair(&cur, &level.sibling)
        };
        proof {
            assert(path@.skip(i as int)[0] == path@[i as int]);
            assert(path@.skip(i as int).drop_first() =~= path@.skip(i as int + 1));
        }
        cur = next;
        i = i + 1;
    }
    cur
}

/// Decides membership: whether recomputing the root from `leaf` along `path`
/// yields `root`. This is the result the membership gadget binds to the
/// constant one.
pub fn check_membership(root: &Felt, leaf: &Felt, path: &MerklePath) -> (r: bool)
    requires
        root.wf(),
        leaf.wf(),
        path.wf(),
    ensures
        r <==> merkle_root_of(leaf@, path@) == root@,
{
    let computed = calculate_root(leaf, path);
    computed.eq_felt(root)
}

} // verus!
