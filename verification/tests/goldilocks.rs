//! The recursive demonstration's expected public inputs.

use zkp_backend::goldilocks::{
    expected_public_inputs, mul_reduce, public_inputs_match, GOLDILOCKS_MODULUS,
};

#[test]
fn modulus_is_the_goldilocks_prime() {
    assert_eq!(GOLDILOCKS_MODULUS, 18446744069414584321);
    assert_eq!(GOLDILOCKS_MODULUS as u128, (1u128 << 64) - (1u128 << 32) + 1);
}

#[test]
fn mul_reduce_small_products() {
    assert_eq!(mul_reduce(3, 4), 12);
    assert_eq!(mul_reduce(0, 987654321), 0);
    assert_eq!(mul_reduce(1, GOLDILOCKS_MODULUS - 1), GOLDILOCKS_MODULUS - 1);
}

#[test]
fn mul_reduce_wraps_at_the_modulus() {
    // (p - 1)^2 = 1 modulo p.
    let pm1 = GOLDILOCKS_MODULUS - 1;
    assert_eq!(mul_reduce(pm1, pm1), 1);
    assert_eq!(mul_reduce(1037578891, pm1), 18446744068377005430);
}

#[test]
fn factorial_of_one_hundred_in_the_field() {
    // Starting at one, the circuit's product is 100! reduced into the field.
    let (initial, product) = expected_public_inputs(1);
    assert_eq!(initial, 1);
    assert_eq!(product, 3822706312645553057);
}

#[test]
fn chain_started_at_two_doubles_the_factorial() {
    let (initial, product) = expected_public_inputs(2);
    assert_eq!(initial, 2);
    assert_eq!(product, 7645412625291106114);
}

#[test]
fn public_inputs_match_accepts_exactly_the_expected_pair() {
    let claimed = vec![1u64, 3822706312645553057u64];
    assert!(public_inputs_match(1, &claimed));
    assert!(!public_inputs_match(1, &vec![1u64, 3822706312645553058u64]));
    assert!(!public_inputs_match(1, &vec![2u64, 3822706312645553057u64]));
    assert!(!public_inputs_match(1, &vec![1u64]));
    assert!(!public_inputs_match(1, &vec![]));
}
