//! The decimal digits of a magnitude, least significant first.

use num_bigint::BigUint;
use vstd::arithmetic::power::pow;
use vstd::prelude::*;

use crate::big_unsigned::{big_div_small, big_is_zero, big_rem_small, big_to_u8, big_value};

verus! {

/// The digits of a number from its ones place up to its leading digit;
/// none for zero.
pub open spec fn significant_digits(n: nat) -> Seq<u8>
    decreases n,
{
    if n == 0 {
        Seq::empty()
    } else {
        seq![(n % 10) as u8] + significant_digits(n / 10)
    }
}

/// The decimal digits of a number, least significant first. Zero has the
/// one digit 0; every other number ends in its leading digit.
pub open spec fn decimal_digits(n: nat) -> Seq<u8> {
    if n == 0 {
        seq![0u8]
    } else {
        significant_digits(n)
    }
}

/// Whether a sequence reads as the decimal digits of some number: each
/// below ten, and no zero in the leading place but for zero itself.
pub open spec fn is_decimal(digits: Seq<u8>) -> bool {
    &&& digits.len() >= 1
    &&& forall|p: int| 0 <= p < digits.len() ==> digits[p] < 10
    &&& digits.len() > 1 ==> digits.last() != 0
}

/// Every digit of a number is below ten, and the leading one is not zero.
pub proof fn lemma_significant_digits(n: nat)
    ensures
        forall|p: int| 0 <= p < significant_digits(n).len() ==> significant_digits(n)[p] < 10,
        n > 0 ==> significant_digits(n).len() >= 1 && significant_digits(n).last() != 0,
        n == 0 ==> significant_digits(n).len() == 0,
    decreases n,
{
    if n > 0 {
        lemma_significant_digits(n / 10);
        let rest = significant_digits(n / 10);
        assert(significant_digits(n) == seq![(n % 10) as u8] + rest);
        if n / 10 == 0 {
            assert(significant_digits(n).last() == (n % 10) as u8);
        } else {
            assert(significant_digits(n).last() == rest.last());
        }
    }
}

/// The digits of a number read as decimal digits.
pub proof fn lemma_decimal_digits(n: nat)
    ensures
        is_decimal(decimal_digits(n)),
        (decimal_digits(n) == seq![0u8]) <==> n == 0,
{
    lemma_significant_digits(n);
    if n > 0 && significant_digits(n) == seq![0u8] {
        assert(significant_digits(n).last() == 0u8);
    }
}

/// A number has at most `k` significant digits exactly when it lies
/// below the `k`-th power of ten.
pub proof fn lemma_digit_count(n: nat, k: nat)
    ensures
        significant_digits(n).len() <= k <==> n < pow(10, k),
    decreases n,
{
    reveal(pow);
    if n == 0 {
        vstd::arithmetic::power::lemma_pow_positive(10, k);
    } else if k == 0 {
        assert(pow(10, 0) == 1);
        assert(significant_digits(n).len() == 1 + significant_digits(n / 10).len());
    } else {
        lemma_digit_count(n / 10, (k - 1) as nat);
        assert(significant_digits(n).len() == 1 + significant_digits(n / 10).len());
        assert(pow(10, k) == 10 * pow(10, (k - 1) as nat));
        let q = pow(10, (k - 1) as nat);
        assert((n / 10 < q) <==> (n < 10 * q));
    }
}

/// The digit at place `p` of a number, the ones place being 0, is what
/// is left of the number, divided by the `p`-th power of ten, after
/// division by ten.
pub proof fn lemma_digit_at_place(n: nat, p: nat)
    requires
        p < significant_digits(n).len(),
    ensures
        pow(10, p) > 0,
        significant_digits(n)[p as int] == (n / (pow(10, p) as nat)) % 10,
    decreases p,
{
    reveal(pow);
    vstd::arithmetic::power::lemma_pow_positive(10, p);
    assert(n > 0);
    assert(significant_digits(n) == seq![(n % 10) as u8] + significant_digits(n / 10));
    if p > 0 {
        let lower = pow(10, (p - 1) as nat);
        vstd::arithmetic::power::lemma_pow_positive(10, (p - 1) as nat);
        lemma_digit_at_place(n / 10, (p - 1) as nat);
        assert(significant_digits(n)[p as int] == significant_digits(n / 10)[p - 1]);
        vstd::arithmetic::div_mod::lemma_div_denominator(n as int, 10, lower);
        assert(pow(10, p) == 10 * lower);
        assert((n as int / 10) / lower == n as int / pow(10, p));
        assert(significant_digits(n / 10)[p - 1] == ((n / 10) / (lower as nat)) % 10);
    } else {
        assert(pow(10, 0) == 1);
        assert(significant_digits(n)[0] == (n % 10) as u8);
    }
}

/// The decimal digits of a fixed-width magnitude, least significant
/// first.
pub fn decompose(value: u128) -> (digits: Vec<u8>)
    ensures
        digits@ == decimal_digits(value as nat),
        is_decimal(digits@),
{
    proof {
        lemma_decimal_digits(value as nat);
    }
    let mut digits: Vec<u8> = Vec::new();
    if value == 0 {
        digits.push(0);
        return digits;
    }
    let mut rest: u128 = value;
    while rest > 0
        invariant
            digits@ + significant_digits(rest as nat) == significant_digits(value as nat),
        decreases rest,
    {
        let digit: u8 = (rest % 10) as u8;
        proof {
            let tail = significant_digits((rest / 10) as nat);
            assert(significant_digits(rest as nat) == seq![digit] + tail);
            assert(digits@.push(digit) + tail == digits@ + (seq![digit] + tail));
        }
        digits.push(digit);
        rest = rest / 10;
    }
    assert(digits@ + Seq::<u8>::empty() == digits@);
    digits
}

/// The decimal digits of a magnitude of any size, least significant
/// first: the same digits that `decompose` gives where the magnitude fits
/// both.
pub fn decompose_big(value: BigUint) -> (digits: Vec<u8>)
    ensures
        digits@ == decimal_digits(big_value(value)),
        is_decimal(digits@),
{
    proof {
        lemma_decimal_digits(big_value(value));
    }
    let mut digits: Vec<u8> = Vec::new();
    if big_is_zero(&value) {
        digits.push(0);
        return digits;
    }
    let ghost whole = big_value(value);
    let mut rest: BigUint = value;
    while !big_is_zero(&rest)
        invariant
            digits@ + significant_digits(big_value(rest)) == significant_digits(whole),
        decreases big_value(rest),
    {
        let ghost before = big_value(rest);
        let last = big_rem_small(&rest, 10);
        let digit: u8 = big_to_u8(&last).unwrap();
        proof {
            let tail = significant_digits(before / 10);
            assert(significant_digits(before) == seq![digit] + tail);
            assert(digits@.push(digit) + tail == digits@ + (seq![digit] + tail));
        }
        digits.push(digit);
        rest = big_div_small(rest, 10);
    }
    assert(digits@ + Seq::<u8>::empty() == digits@);
    digits
}

} // verus!
