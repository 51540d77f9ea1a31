//! Arithmetic over the Goldilocks field.
//!
//! The recursive proving demonstration registers two public inputs: the
//! initial value and the product of that value with the constants 2 through
//! 100, computed gate by gate over the Goldilocks field. The functions here
//! compute that expected result exactly, so a caller can check the public
//! inputs a prover hands back against an independently verified value.

use vstd::prelude::*;

verus! {

/// The Goldilocks prime, 2^64 - 2^32 + 1.
pub const GOLDILOCKS_MODULUS: u64 = 18446744069414584321;

/// Product in the Goldilocks field.
pub open spec fn spec_mul(a: int, b: int) -> int {
    (a * b) % (GOLDILOCKS_MODULUS as int)
}

/// The value the demonstration circuit computes from `initial`: the running
/// field product of `initial` and the constants `2, 3, ..., k`.
pub open spec fn chained_product(initial: int, k: nat) -> int
    decreases k,
{
    if k < 2 {
        initial % (GOLDILOCKS_MODULUS as int)
    } else {
        spec_mul(chained_product(initial, (k - 1) as nat), k as int)
    }
}

/// `k!` as a mathematical integer.
pub open spec fn factorial(k: nat) -> nat
    decreases k,
{
    if k == 0 {
        1
    } else {
        k * factorial((k - 1) as nat)
    }
}

/// Field multiplication of canonical representatives.
pub fn mul_reduce(a: u64, b: u64) -> (r: u64)
    ensures
        r as int == spec_mul(a as int, b as int),
        r < GOLDILOCKS_MODULUS,
{
    proof {
        vstd::arithmetic::mul::lemma_mul_upper_bound(a as int, u64::MAX as int, b as int, u64::MAX as int);
    }
    let wide: u128 = (a as u128) * (b as u128);
    let reduced: u128 = wide % (GOLDILOCKS_MODULUS as u128);
    reduced as u64
}

/// The two public inputs the recursive demonstration is expected to expose
/// after proving: the initial value itself, and the field product of the
/// initial value with the constants 2 through 100.
pub fn expected_public_inputs(initial: u64) -> (out: (u64, u64))
    requires
        initial < GOLDILOCKS_MODULUS,
    ensures
        out.0 == initial,
        out.1 as int == chained_product(initial as int, 100),
        out.1 < GOLDILOCKS_MODULUS,
{
    let mut acc: u64 = initial;
    let mut i: u64 = 2;
    assert(acc as int == chained_product(initial as int, 1));
    while i <= 100
        invariant
            2 <= i <= 101,
            acc < GOLDILOCKS_MODULUS,
            initial < GOLDILOCKS_MODULUS,
            acc as int == chained_product(initial as int, (i - 1) as nat),
        decreases 101 - i,
    {
        acc = mul_reduce(acc, i);
        i = i + 1;
    }
    (initial, acc)
}

/// Whether the public inputs a prover hands back for the recursive
/// demonstration are exactly the expected pair: the initial value itself
/// and the field product of the initial value with the constants 2 through
/// 100. The claimed inputs arrive as canonical 64-bit representatives.
pub fn public_inputs_match(initial: u64, claimed: &Vec<u64>) -> (r: bool)
    requires
        initial < GOLDILOCKS_MODULUS,
    ensures
        r == (claimed@.len() == 2 && claimed@[0] == initial
            && claimed@[1] as int == chained_product(initial as int, 100)),
{
    if claimed.len() != 2 {
        return false;
    }
    let expected = expected_public_inputs(initial);
    claimed[0] == expected.0 && claimed[1] == expected.1
}

/// Starting the chain at one turns it into a factorial: the running field
/// product of 2 through `k` is `k!` reduced into the field. This is the law
/// behind the demonstration's headline claim that the second public input
/// for initial value one is one hundred factorial.
pub proof fn lemma_chained_product_of_one_is_factorial(k: nat)
    ensures
        chained_product(1, k) == (factorial(k) as int) % (GOLDILOCKS_MODULUS as int),
    decreases k,
{
    let p = GOLDILOCKS_MODULUS as int;
    if k < 2 {
        assert(factorial(0) == 1);
        assert(factorial(1) == 1 * factorial(0));
    } else {
        lemma_chained_product_of_one_is_factorial((k - 1) as nat);
        let prev = factorial((k - 1) as nat) as int;
        assert(chained_product(1, k) == ((prev % p) * k) % p);
        vstd::arithmetic::div_mod::lemma_mul_mod_noop_left(prev, k as int, p);
        assert(((prev % p) * k) % p == (prev * k) % p);
        assert(factorial(k) == k * factorial((k - 1) as nat));
        assert((prev * k) % p == (factorial(k) as int) % p) by {
            assert(prev * k == k * prev) by (nonlinear_arith);
        };
    }
}

} // verus!
