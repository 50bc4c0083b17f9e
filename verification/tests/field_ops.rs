use semaphore::field::{felt_add, felt_mul, Felt};
use semaphore::hash::hash_pair;

use halo2_proofs::pasta::Fp;

fn felt_of_fp(f: Fp) -> Felt {
    let bytes: [u8; 32] = f.into();
    Felt::from_limbs(
        u64::from_le_bytes(bytes[0..8].try_into().unwrap()),
        u64::from_le_bytes(bytes[8..16].try_into().unwrap()),
        u64::from_le_bytes(bytes[16..24].try_into().unwrap()),
        u64::from_le_bytes(bytes[24..32].try_into().unwrap()),
    )
    .expect("backend representations are canonical")
}

#[test]
fn from_u64_and_equality() {
    let a = Felt::from_u64(5);
    let b = Felt::from_u64(5);
    let c = Felt::from_u64(6);
    assert!(a.eq_felt(&b));
    assert!(!a.eq_felt(&c));
    assert_eq!(a.l0, 5);
    assert_eq!(a.l1, 0);
    assert_eq!(a.l2, 0);
    assert_eq!(a.l3, 0);
}

#[test]
fn addition_matches_integers() {
    let a = Felt::from_u64(2);
    let b = Felt::from_u64(3);
    let s = felt_add(&a, &b);
    assert!(s.eq_felt(&Felt::from_u64(5)));
    assert!(!s.eq_felt(&a));
}

#[test]
fn multiplication_matches_integers() {
    let a = Felt::from_u64(3);
    let b = Felt::from_u64(5);
    let p = felt_mul(&a, &b);
    assert!(p.eq_felt(&Felt::from_u64(15)));
    assert!(!p.eq_felt(&a));
}

#[test]
fn addition_agrees_with_backend_field() {
    let big = u64::MAX;
    let a = Felt::from_u64(big);
    let s = felt_add(&a, &a);
    let expected = felt_of_fp(Fp::from(big) + Fp::from(big));
    assert!(s.eq_felt(&expected));
}

#[test]
fn hash_agrees_with_backend_poseidon() {
    let a = Felt::from_u64(2);
    let b = Felt::from_u64(3);
    let h = hash_pair(&a, &b);
    let direct = halo2_gadgets::poseidon::primitives::Hash::<
        Fp,
        halo2_gadgets::poseidon::primitives::P128Pow5T3,
        halo2_gadgets::poseidon::primitives::ConstantLength<2>,
        3,
        2,
    >::init()
    .hash([Fp::from(2), Fp::from(3)]);
    let expected = felt_of_fp(direct);
    assert!(h.eq_felt(&expected));
}

#[test]
fn hash_is_deterministic_and_not_identity() {
    let a = Felt::from_u64(7);
    let b = Felt::from_u64(9);
    let h1 = hash_pair(&a, &b);
    let h2 = hash_pair(&a, &b);
    assert!(h1.eq_felt(&h2));
    assert!(!h1.eq_felt(&a));
    assert!(!h1.eq_felt(&b));
    let swapped = hash_pair(&b, &a);
    assert!(!h1.eq_felt(&swapped));
}

#[test]
fn canonical_boundary() {
    // the modulus itself is not a canonical encoding
    assert!(
        Felt::from_limbs(0x992d30ed00000001, 0x224698fc094cf91b, 0, 0x4000000000000000).is_none()
    );
    // one below the modulus is, and behaves as minus one: adding one wraps to zero
    let minus_one =
        Felt::from_limbs(0x992d30ed00000000, 0x224698fc094cf91b, 0, 0x4000000000000000).unwrap();
    assert!(minus_one.is_canonical());
    let sum = felt_add(&minus_one, &Felt::from_u64(1));
    assert!(sum.eq_felt(&Felt::from_u64(0)));
}
