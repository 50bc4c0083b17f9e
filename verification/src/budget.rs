//! The row budget: how many table rows the circuit occupies for a given tree
//! height, and the smallest power-of-two table that holds them. The proving
//! backend bounds a table by two to the `k`, and a circuit that does not fit
//! is a fatal setup-time error.

use vstd::prelude::*;

verus! {

/// Two to the `k`.
pub open spec fn pow2_of(k: nat) -> nat
    decreases k,
{
    if k == 0 {
        1
    } else {
        2 * pow2_of((k - 1) as nat)
    }
}

pub proof fn lemma_pow2_of_increases(a: nat, b: nat)
    requires
        a <= b,
    ensures
        pow2_of(a) <= pow2_of(b),
    decreases b,
{
    if a < b {
        lemma_pow2_of_increases(a, (b - 1) as nat);
    }
}

/// The table bound reachable with a 64-bit row count.
pub proof fn lemma_pow2_of_64()
    ensures
        pow2_of(64) == 0x10000000000000000,
{
    reveal_with_fuel(pow2_of, 65);
}

/// The rows the circuit occupies: three witness rows per advice column, two
/// rows for the multiplication gate and one for the equality constraint (six
/// fixed rows in all), plus one hash-gadget invocation per derivation
/// (secret, commitment, nullifier hash) and one per tree level for the
/// membership check, each occupying `hash_rows` rows.
pub open spec fn circuit_rows_of(hash_rows: nat, height: nat) -> nat {
    6 + (3 + height) * hash_rows
}

/// Computes the circuit's row count, or `None` exactly when it exceeds what
/// a 64-bit count can hold.
pub fn circuit_rows(hash_rows: u64, height: u64) -> (r: Option<u64>)
    ensures
        r is Some <==> circuit_rows_of(hash_rows as nat, height as nat) <= u64::MAX,
        r is Some ==> r->0 == circuit_rows_of(hash_rows as nat, height as nat),
{
    if hash_rows == 0 {
        proof {
            assert((3 + height as nat) * 0 == 0) by (nonlinear_arith);
        }
        return Some(6);
    }
    if height > u64::MAX - 3 {
        proof {
            assert((3 + height as nat) * (hash_rows as nat) >= (3 + height as nat) * 1)
                by (nonlinear_arith)
                requires
                    hash_rows as nat >= 1,
            ;
        }
        return None;
    }
    let invocations: u64 = 3 + height;
    proof {
        assert((invocations as nat) * (hash_rows as nat) <= 0xffffffffffffffff
            * 0xffffffffffffffff) by (nonlinear_arith)
            requires
                invocations as nat <= 0xffffffffffffffff && hash_rows as nat
                    <= 0xffffffffffffffff,
        ;
    }
    let prod: u128 = (invocations as u128) * (hash_rows as u128);
    let total: u128 = 6 + prod;
    if total > 0xffffffffffffffff {
        None
    } else {
        Some(total as u64)
    }
}

/// The smallest `k` such that a table of two to the `k` rows holds `rows`
/// rows. Configurations with a smaller `k` overflow the table and must be
/// rejected.
pub fn min_k(rows: u64) -> (k: u32)
    requires
        1 <= rows,
    ensures
        rows <= pow2_of(k as nat),
        k == 0 || rows > pow2_of((k - 1) as nat),
{
    let mut k: u32 = 0;
    let mut cap: u128 = 1;
    while cap < rows as u128
        invariant
            1 <= rows,
            1 <= cap,
            cap == pow2_of(k as nat),
            k == 0 || rows as u128 > pow2_of((k - 1) as nat),
            k <= 64,
        decreases 64 - k,
    {
        proof {
            lemma_pow2_of_64();
            if k >= 64 {
                lemma_pow2_of_increases(64, k as nat);
                assert(false);
            }
        }
        cap = cap * 2;
        k = k + 1;
    }
    k
}

/// Whether a circuit of the given row count fits a table bound of two to
/// the `k`.
pub fn fits_table(rows: u64, k: u32) -> (r: bool)
    requires
        k <= 64,
    ensures
        r <==> rows <= pow2_of(k as nat),
{
    let mut i: u32 = 0;
    let mut cap: u128 = 1;
    while i < k
        invariant
            i <= k,
            k <= 64,
            cap == pow2_of(i as nat),
        decreases k - i,
    {
        proof {
            lemma_pow2_of_64();
            lemma_pow2_of_increases(i as nat + 1, 64);
            assert(2 * pow2_of(i as nat) == pow2_of(i as nat + 1));
        }
        cap = cap * 2;
        i = i + 1;
    }
    rows as u128 <= cap
}

} // verus!
