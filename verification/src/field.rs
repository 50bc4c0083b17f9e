//! Elements of the Pallas base field, the field the circuit is defined over.
//! A `Felt` holds a fully reduced element as four little-endian 64-bit limbs;
//! its mathematical value is the natural number those limbs encode.

use vstd::prelude::*;
use halo2_proofs::pasta::Fp;

verus! {

/// The Pallas base field modulus,
/// `0x40000000000000000000000000000000224698fc094cf91b992d30ed00000001`,
/// assembled from its four little-endian 64-bit limbs; the weight of one limb
/// position is two to the 64th power.
pub open spec fn p_nat() -> nat {
    0x992d30ed00000001
        + 0x224698fc094cf91b * 0x10000000000000000
        + 0x4000000000000000 * 0x10000000000000000 * 0x10000000000000000 * 0x10000000000000000
}

/// A canonical (fully reduced) element of the Pallas base field, as
/// little-endian 64-bit limbs (`l0` least significant).
#[derive(Clone, Copy, Debug)]
pub struct Felt {
    pub l0: u64,
    pub l1: u64,
    pub l2: u64,
    pub l3: u64,
}

impl View for Felt {
    type V = nat;

    open spec fn view(&self) -> nat {
        self.l0 as nat
            + self.l1 as nat * 0x10000000000000000
            + self.l2 as nat * 0x10000000000000000 * 0x10000000000000000
            + self.l3 as nat * 0x10000000000000000 * 0x10000000000000000 * 0x10000000000000000
    }
}

impl Felt {
    /// A `Felt` is well formed when its limbs encode a value below the modulus.
    pub open spec fn wf(&self) -> bool {
        self@ < p_nat()
    }

    /// Embeds a 64-bit integer into the field; every such value is already
    /// below the modulus.
    pub fn from_u64(x: u64) -> (r: Felt)
        ensures
            r.wf(),
            r@ == x,
    {
        Felt { l0: x, l1: 0, l2: 0, l3: 0 }
    }

    /// Whether the limbs encode a value below the modulus, decided by
    /// comparing limbs from the most significant end against the modulus
    /// limbs `[0x992d30ed00000001, 0x224698fc094cf91b, 0, 0x4000000000000000]`.
    pub fn is_canonical(&self) -> (r: bool)
        ensures
            r <==> self.wf(),
    {
        self.l3 < 0x4000000000000000 || (self.l3 == 0x4000000000000000 && self.l2 == 0 && (
            self.l1 < 0x224698fc094cf91b || (self.l1 == 0x224698fc094cf91b && self.l0
                < 0x992d30ed00000001)))
    }

    /// Reads little-endian limbs, accepting exactly the canonical encodings:
    /// `None` when the limbs encode a value at or above the modulus.
    pub fn from_limbs(l0: u64, l1: u64, l2: u64, l3: u64) -> (r: Option<Felt>)
        ensures
            r is Some <==> (Felt { l0, l1, l2, l3 }).wf(),
            r is Some ==> r->0 == (Felt { l0, l1, l2, l3 }),
    {
        let f = Felt { l0, l1, l2, l3 };
        if f.is_canonical() {
            Some(f)
        } else {
            None
        }
    }

    /// Equality of field elements, decided limb by limb.
    pub fn eq_felt(&self, other: &Felt) -> (r: bool)
        ensures
            r <==> self@ == other@,
    {
        let r = self.l0 == other.l0 && self.l1 == other.l1 && self.l2 == other.l2
            && self.l3 == other.l3;
        proof {
            if !r {
                if self@ == other@ {
                    lemma_view_determines_limbs(*self, *other);
                }
            }
        }
        r
    }

}

/// The limb encoding is a positional numeral system, so equal values have
/// equal limbs.
pub proof fn lemma_view_determines_limbs(a: Felt, b: Felt)
    requires
        a@ == b@,
    ensures
        a.l0 == b.l0,
        a.l1 == b.l1,
        a.l2 == b.l2,
        a.l3 == b.l3,
{
    let ar: nat = a.l1 as nat + a.l2 as nat * 0x10000000000000000
        + a.l3 as nat * 0x10000000000000000 * 0x10000000000000000;
    let br: nat = b.l1 as nat + b.l2 as nat * 0x10000000000000000
        + b.l3 as nat * 0x10000000000000000 * 0x10000000000000000;
    assert(a@ == a.l0 as nat + 0x10000000000000000 * ar);
    assert(b@ == b.l0 as nat + 0x10000000000000000 * br);
    assert(a.l0 == b.l0 && ar == br);
    let ar2: nat = a.l2 as nat + a.l3 as nat * 0x10000000000000000;
    let br2: nat = b.l2 as nat + b.l3 as nat * 0x10000000000000000;
    assert(ar == a.l1 as nat + 0x10000000000000000 * ar2);
    assert(br == b.l1 as nat + 0x10000000000000000 * br2);
    assert(a.l1 == b.l1 && ar2 == br2);
    assert(a.l2 == b.l2 && a.l3 == b.l3);
}

/// The value of field addition: the sum reduced modulo the field order.
pub open spec fn add_of(a: nat, b: nat) -> nat {
    (a + b) % p_nat()
}

/// The value of field multiplication: the product reduced modulo the
/// field order.
pub open spec fn mul_of(a: nat, b: nat) -> nat {
    (a * b) % p_nat()
}

/// Relies on `pasta_curves::Fp`: `Add` is addition modulo the field order,
/// `Fp::from_raw` reads little-endian limbs, and converting back through
/// `From<Fp> for [u8; 32]` yields the canonical representation.
#[verifier::external_body]
fn fp_add(a: &Felt, b: &Felt) -> (r: Felt)
    requires
        a.wf(),
        b.wf(),
    ensures
        r.wf(),
        r@ == add_of(a@, b@),
{
    let s = Fp::from_raw([a.l0, a.l1, a.l2, a.l3]) + Fp::from_raw([b.l0, b.l1, b.l2, b.l3]);
    let bytes: [u8; 32] = s.into();
    Felt {
        l0: u64::from_le_bytes(bytes[0..8].try_into().unwrap()),
        l1: u64::from_le_bytes(bytes[8..16].try_into().unwrap()),
        l2: u64::from_le_bytes(bytes[16..24].try_into().unwrap()),
        l3: u64::from_le_bytes(bytes[24..32].try_into().unwrap()),
    }
}

/// Relies on `pasta_curves::Fp`: `Mul` is multiplication modulo the field
/// order, with the same limb conventions as `fp_add`.
#[verifier::external_body]
fn fp_mul(a: &Felt, b: &Felt) -> (r: Felt)
    requires
        a.wf(),
        b.wf(),
    ensures
        r.wf(),
        r@ == mul_of(a@, b@),
{
    let s = Fp::from_raw([a.l0, a.l1, a.l2, a.l3]) * Fp::from_raw([b.l0, b.l1, b.l2, b.l3]);
    let bytes: [u8; 32] = s.into();
    Felt {
        l0: u64::from_le_bytes(bytes[0..8].try_into().unwrap()),
        l1: u64::from_le_bytes(bytes[8..16].try_into().unwrap()),
        l2: u64::from_le_bytes(bytes[16..24].try_into().unwrap()),
        l3: u64::from_le_bytes(bytes[24..32].try_into().unwrap()),
    }
}

/// Field addition.
pub fn felt_add(a: &Felt, b: &Felt) -> (r: Felt)
    requires
        a.wf(),
        b.wf(),
    ensures
        r.wf(),
        r@ == add_of(a@, b@),
{
    fp_add(a, b)
}

/// Field multiplication. This is the arithmetic the circuit's multiplication
/// gate constrains: any satisfying assignment of that gate has
/// `out == mul_of(a, b)`.
pub fn felt_mul(a: &Felt, b: &Felt) -> (r: Felt)
    requires
        a.wf(),
        b.wf(),
    ensures
        r.wf(),
        r@ == mul_of(a@, b@),
{
    fp_mul(a, b)
}

} // verus!
