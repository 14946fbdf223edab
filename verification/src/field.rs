//! The Baby Bear prime field as this library sees it: an element holds its
//! canonical representative in `[0, p)`, and the base-`p` digits of a number
//! are field elements.

use vstd::arithmetic::div_mod::*;
use vstd::arithmetic::mul::*;
use vstd::arithmetic::power::*;
use vstd::prelude::*;

verus! {

/// The Baby Bear prime, `2^31 - 2^27 + 1`.
pub const BABY_BEAR_PRIME: u32 = 0x7800_0001;

/// An element of the Baby Bear field. A value of this type always holds the
/// canonical representative of the element.
#[derive(Debug, Clone, Copy, PartialEq, Eq, Hash, Structural)]
pub struct BabyBear {
    value: u32,
}

impl View for BabyBear {
    type V = u32;

    /// The canonical representative of the element.
    closed spec fn view(&self) -> u32 {
        self.value
    }
}

impl BabyBear {
    #[verifier::type_invariant]
    pub open spec fn canonical(self) -> bool {
        self@ < BABY_BEAR_PRIME
    }

    /// The element that `value` stands for: `value` is taken modulo the
    /// prime.
    pub fn new(value: u32) -> (element: Self)
        ensures
            element@ == value % BABY_BEAR_PRIME,
    {
        BabyBear { value: value % BABY_BEAR_PRIME }
    }

    /// The zero of the field.
    pub fn zero() -> (element: Self)
        ensures
            element@ == 0,
    {
        BabyBear { value: 0 }
    }

    /// The canonical representative of the element.
    pub fn as_canonical_u32(&self) -> (value: u32)
        ensures
            value == self@,
            value < BABY_BEAR_PRIME,
    {
        proof {
            use_type_invariant(self);
        }
        self.value
    }
}

/// Two field elements are the same exactly if they have the same canonical
/// representative.
pub proof fn lemma_equal_iff_same_representative(a: BabyBear, b: BabyBear)
    ensures
        a == b <==> a@ == b@,
{
}

/// The sum of two field elements, given by their representatives.
pub open spec fn field_add(a: u32, b: u32) -> u32 {
    ((a as int + b as int) % (BABY_BEAR_PRIME as int)) as u32
}

impl vstd::std_specs::ops::AddSpecImpl for BabyBear {
    open spec fn obeys_add_spec() -> bool {
        true
    }

    open spec fn add_req(self, rhs: BabyBear) -> bool {
        true
    }

    closed spec fn add_spec(self, rhs: BabyBear) -> BabyBear {
        BabyBear { value: field_add(self.value, rhs.value) }
    }
}

impl core::ops::Add for BabyBear {
    type Output = BabyBear;

    /// Adds two field elements.
    fn add(self, rhs: BabyBear) -> (sum: BabyBear)
        ensures
            sum@ == field_add(self@, rhs@),
    {
        let wide: u64 = self.value as u64 + rhs.value as u64;
        BabyBear { value: (wide % (BABY_BEAR_PRIME as u64)) as u32 }
    }
}

/// The canonical representatives of a sequence of field elements.
pub open spec fn values(elements: Seq<BabyBear>) -> Seq<u32> {
    Seq::new(elements.len(), |i: int| elements[i]@)
}

/// Digit `index` of `value` written in base `p`, least significant first.
pub open spec fn base_p_digit(value: nat, index: nat) -> u32 {
    ((value as int / pow(BABY_BEAR_PRIME as int, index)) % (BABY_BEAR_PRIME as int)) as u32
}

/// The `len` least significant base-`p` digits of `value`, least significant
/// first. Digits of `value` from position `len` on are not part of it.
pub open spec fn base_p_digits(value: nat, len: nat) -> Seq<u32> {
    Seq::new(len, |i: int| base_p_digit(value, i as nat))
}

/// The quotient that is left after `index` digits were taken from `value`.
pub open spec fn base_p_rest(value: nat, index: nat) -> nat {
    (value as int / pow(BABY_BEAR_PRIME as int, index)) as nat
}

/// `p` to the power of `len`: the number of values that `len` digits tell
/// apart.
pub open spec fn base_p_capacity(len: nat) -> nat {
    pow(BABY_BEAR_PRIME as int, len) as nat
}

/// Writes the `N` least significant base-`p` digits of `value`.
pub fn base_p_expand<const N: usize>(value: u128) -> (digits: [BabyBear; N])
    ensures
        values(digits@) == base_p_digits(value as nat, N as nat),
{
    let prime: u128 = BABY_BEAR_PRIME as u128;
    let mut rest: u128 = value;
    let mut digits: [BabyBear; N] = [BabyBear::zero(); N];
    let mut i: usize = 0;
    proof {
        lemma_base_p_step(value as nat, 0);
    }
    while i < N && rest != 0
        invariant
            i <= N,
            prime == BABY_BEAR_PRIME,
            rest == base_p_rest(value as nat, i as nat),
            forall|j: int| 0 <= j < i ==> digits@[j]@ == base_p_digit(value as nat, j as nat),
            forall|j: int| i <= j < N ==> digits@[j]@ == 0,
        decreases N - i,
    {
        proof {
            lemma_base_p_step(value as nat, i as nat);
        }
        digits[i] = BabyBear::new((rest % prime) as u32);
        rest = rest / prime;
        i += 1;
    }
    proof {
        assert forall|j: int| 0 <= j < N implies digits@[j]@ == base_p_digit(
            value as nat,
            j as nat,
        ) by {
            if j >= i {
                lemma_base_p_exhausted(value as nat, i as nat, j as nat);
            }
        }
        assert(values(digits@) =~= base_p_digits(value as nat, N as nat));
    }
    digits
}

/// Taking one more digit divides what is left by `p`, and the digit taken is
/// what was left, modulo `p`.
pub proof fn lemma_base_p_step(value: nat, index: nat)
    ensures
        base_p_rest(value, 0) == value,
        base_p_rest(value, index + 1) == base_p_rest(value, index) / (BABY_BEAR_PRIME as nat),
        base_p_digit(value, index) == base_p_rest(value, index) % (BABY_BEAR_PRIME as nat),
{
    let p = BABY_BEAR_PRIME as int;
    lemma_pow0(p);
    lemma_pow_positive(p, index);
    lemma_pow_positive(p, index + 1);
    lemma_pow1(p);
    lemma_pow_adds(p, index, 1);
    lemma_div_denominator(value as int, pow(p, index), p);
    lemma_div_pos_is_pos(value as int, pow(p, index));
    lemma_div_pos_is_pos(value as int, pow(p, index + 1));
}

/// Once nothing is left, every further digit is zero.
pub proof fn lemma_base_p_exhausted(value: nat, index: nat, later: nat)
    requires
        base_p_rest(value, index) == 0,
        index <= later,
    ensures
        base_p_rest(value, later) == 0,
        base_p_digit(value, later) == 0,
    decreases later - index,
{
    if index < later {
        lemma_base_p_step(value, index);
        lemma_base_p_exhausted(value, index + 1, later);
    } else {
        lemma_base_p_step(value, index);
    }
}

/// Numbers with the same `len` least significant digits differ by a multiple
/// of `p` to the power of `len`.
pub proof fn lemma_base_p_digits_determine_residue(a: nat, b: nat, len: nat)
    requires
        base_p_digits(a, len) == base_p_digits(b, len),
    ensures
        base_p_capacity(len) > 0,
        a % base_p_capacity(len) == b % base_p_capacity(len),
    decreases len,
{
    let p = BABY_BEAR_PRIME as int;
    lemma_pow_positive(p, len);
    if len == 0 {
        lemma_pow0(p);
    } else {
        let shorter = (len - 1) as nat;
        let digits_a = base_p_digits(a, len);
        let digits_b = base_p_digits(b, len);
        assert forall|i: nat| i < len implies #[trigger] base_p_digit(a, i) == base_p_digit(
            b,
            i,
        ) by {
            assert(digits_a[i as int] == base_p_digit(a, i));
            assert(digits_b[i as int] == base_p_digit(b, i));
        }
        assert(base_p_digits(a, shorter) =~= base_p_digits(b, shorter));
        lemma_base_p_digits_determine_residue(a, b, shorter);
        assert(base_p_digit(a, shorter) == base_p_digit(b, shorter));
        let low = pow(p, shorter);
        lemma_pow_positive(p, shorter);
        lemma_pow1(p);
        lemma_pow_adds(p, shorter, 1);
        assert(pow(p, len) == low * p);
        lemma_mod_breakdown(a as int, low, p);
        lemma_mod_breakdown(b as int, low, p);
        lemma_mod_bound(a as int / low, p);
        lemma_mod_bound(b as int / low, p);
    }
}

/// Numbers that differ by a multiple of `p` to the power of `len` differ by a
/// multiple of every lower power too.
proof fn lemma_residues_agree_below(a: nat, b: nat, len: nat, lower: nat)
    requires
        lower <= len,
        a % base_p_capacity(len) == b % base_p_capacity(len),
    ensures
        base_p_capacity(lower) > 0,
        a % base_p_capacity(lower) == b % base_p_capacity(lower),
{
    let p = BABY_BEAR_PRIME as int;
    let rest = (len - lower) as nat;
    lemma_pow_positive(p, lower);
    lemma_pow_positive(p, rest);
    lemma_pow_positive(p, len);
    lemma_pow_adds(p, lower, rest);
    lemma_mod_mod(a as int, pow(p, lower), pow(p, rest));
    lemma_mod_mod(b as int, pow(p, lower), pow(p, rest));
}

/// Numbers that differ by a multiple of `p` to the power of `len` have the
/// same `len` least significant digits.
pub proof fn lemma_residue_determines_base_p_digits(a: nat, b: nat, len: nat)
    requires
        a % base_p_capacity(len) == b % base_p_capacity(len),
    ensures
        base_p_digits(a, len) == base_p_digits(b, len),
{
    let p = BABY_BEAR_PRIME as int;
    assert forall|i: nat| i < len implies #[trigger] base_p_digit(a, i) == base_p_digit(b, i) by {
        let low = pow(p, i);
        lemma_residues_agree_below(a, b, len, i);
        lemma_residues_agree_below(a, b, len, i + 1);
        lemma_pow_positive(p, i);
        lemma_pow1(p);
        lemma_pow_adds(p, i, 1);
        assert(pow(p, i + 1) == low * p);
        lemma_mod_breakdown(a as int, low, p);
        lemma_mod_breakdown(b as int, low, p);
        lemma_mul_equality_converse(low, (a as int / low) % p, (b as int / low) % p);
    }
    assert(base_p_digits(a, len) =~= base_p_digits(b, len));
}

/// Two numbers have the same `len` least significant digits exactly if they
/// differ by a multiple of `p` to the power of `len`.
pub proof fn lemma_base_p_digits_equal_iff_congruent(a: nat, b: nat, len: nat)
    ensures
        base_p_digits(a, len) == base_p_digits(b, len) <==> a % base_p_capacity(len) == b
            % base_p_capacity(len),
{
    if base_p_digits(a, len) == base_p_digits(b, len) {
        lemma_base_p_digits_determine_residue(a, b, len);
    }
    if a % base_p_capacity(len) == b % base_p_capacity(len) {
        lemma_residue_determines_base_p_digits(a, b, len);
    }
}

/// A number below `p` to the power of `len` is told by its `len` least
/// significant digits: two such numbers with the same digits are equal.
pub proof fn lemma_base_p_digits_injective(a: nat, b: nat, len: nat)
    requires
        a < base_p_capacity(len),
        b < base_p_capacity(len),
        base_p_digits(a, len) == base_p_digits(b, len),
    ensures
        a == b,
{
    lemma_base_p_digits_determine_residue(a, b, len);
    lemma_small_mod(a, base_p_capacity(len));
    lemma_small_mod(b, base_p_capacity(len));
}

/// Two digits tell apart all numbers below `2^48`, and so do more.
pub proof fn lemma_two_digits_hold_48_bits(len: nat)
    requires
        len >= 2,
    ensures
        base_p_capacity(len) > 0x1_0000_0000_0000,
{
    let p = BABY_BEAR_PRIME as int;
    lemma_pow1(p);
    lemma_pow_adds(p, 1, 1);
    assert(pow(p, 2) == 2013265921 * 2013265921);
    lemma_pow_increases(BABY_BEAR_PRIME as nat, 2, len);
    lemma_pow_positive(p, len);
}

/// Three digits tell apart all numbers below `2^72`, and so do more.
pub proof fn lemma_three_digits_hold_72_bits(len: nat)
    requires
        len >= 3,
    ensures
        base_p_capacity(len) > 0x1_00_0000_0000_0000_0000,
{
    let p = BABY_BEAR_PRIME as int;
    lemma_pow1(p);
    lemma_pow_adds(p, 1, 1);
    lemma_pow_adds(p, 2, 1);
    assert(pow(p, 2) == p * p);
    assert(pow(p, 3) == pow(p, 2) * p);
    assert(pow(p, 3) == 2013265921 * 2013265921 * 2013265921);
    lemma_pow_increases(BABY_BEAR_PRIME as nat, 3, len);
    lemma_pow_positive(p, len);
}

} // verus!
