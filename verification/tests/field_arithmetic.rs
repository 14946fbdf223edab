use p3_baby_bear::BabyBearParameters;
use p3_field::PrimeField32;
use p3_monty_31::MontyParameters;
use poseidon_tweak_hash::field::{base_p_expand, BabyBear, BABY_BEAR_PRIME};

fn canonical<const N: usize>(elements: [BabyBear; N]) -> [u32; N] {
    elements.map(|element| element.as_canonical_u32())
}

#[test]
fn prime_is_the_order_of_the_field() {
    assert_eq!(BABY_BEAR_PRIME, 2013265921);
    assert_eq!(BABY_BEAR_PRIME, p3_baby_bear::BabyBear::ORDER_U32);
    assert_eq!(BABY_BEAR_PRIME, BabyBearParameters::PRIME);
}

#[test]
fn new_takes_its_argument_modulo_the_prime() {
    assert_eq!(BabyBear::new(5).as_canonical_u32(), 5);
    assert_eq!(BabyBear::new(BABY_BEAR_PRIME - 1).as_canonical_u32(), 2013265920);
    assert_eq!(BabyBear::new(BABY_BEAR_PRIME).as_canonical_u32(), 0);
    assert_eq!(BabyBear::new(BABY_BEAR_PRIME + 3).as_canonical_u32(), 3);
    assert_eq!(BabyBear::new(u32::MAX).as_canonical_u32(), 268435453);
    assert_eq!(BabyBear::new(BABY_BEAR_PRIME + 3), BabyBear::new(3));
}

#[test]
fn new_agrees_with_the_field_of_the_permutation() {
    for value in [0u32, 1, 2013265920, 2013265921, 2013265922, u32::MAX, 1234567890] {
        assert_eq!(
            BabyBear::new(value).as_canonical_u32(),
            p3_baby_bear::BabyBear::new(value).as_canonical_u32()
        );
    }
}

#[test]
fn zero_is_the_element_of_zero() {
    assert_eq!(BabyBear::zero(), BabyBear::new(0));
    assert_eq!(BabyBear::zero().as_canonical_u32(), 0);
}

#[test]
fn addition_wraps_at_the_prime() {
    assert_eq!(BabyBear::new(5) + BabyBear::new(7), BabyBear::new(12));
    assert_eq!(BabyBear::new(BABY_BEAR_PRIME - 1) + BabyBear::new(1), BabyBear::zero());
    assert_eq!(
        (BabyBear::new(BABY_BEAR_PRIME - 1) + BabyBear::new(BABY_BEAR_PRIME - 1))
            .as_canonical_u32(),
        BABY_BEAR_PRIME - 2
    );
    assert_eq!(BabyBear::zero() + BabyBear::zero(), BabyBear::zero());
}

#[test]
fn addition_agrees_with_the_field_of_the_permutation() {
    let pairs = [(1u32, 2u32), (2013265920, 2013265920), (1234567890, 987654321), (0, 2013265920)];
    for (a, b) in pairs {
        let expected = p3_baby_bear::BabyBear::new(a) + p3_baby_bear::BabyBear::new(b);
        let sum = BabyBear::new(a) + BabyBear::new(b);
        assert_eq!(sum.as_canonical_u32(), expected.as_canonical_u32());
    }
}

#[test]
fn base_p_expand_writes_least_significant_digit_first() {
    let digits: [BabyBear; 3] =
        base_p_expand(2013265921u128 * 2013265921 * 7 + 2013265921 * 5 + 3);
    assert_eq!(canonical(digits), [3, 5, 7]);
}

#[test]
fn base_p_expand_of_zero_is_all_zero() {
    let digits: [BabyBear; 4] = base_p_expand(0);
    assert_eq!(canonical(digits), [0, 0, 0, 0]);
}

#[test]
fn base_p_expand_drops_digits_beyond_the_length() {
    let digits: [BabyBear; 1] = base_p_expand(2013265921u128 * 9 + 4);
    assert_eq!(canonical(digits), [4]);
    let none: [BabyBear; 0] = base_p_expand(12345);
    assert_eq!(canonical(none), []);
}

#[test]
fn base_p_expand_of_the_largest_value() {
    let digits: [BabyBear; 6] = base_p_expand(u128::MAX);
    assert_eq!(canonical(digits), [663890613, 1010629583, 1185769012, 1434678067, 20, 0]);
    let mut value: u128 = 0;
    for digit in canonical(digits).iter().rev() {
        value = value * 2013265921 + *digit as u128;
    }
    assert_eq!(value, u128::MAX);
}
