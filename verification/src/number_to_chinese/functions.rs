//! From a magnitude to its text: the ceiling of each counting method, and
//! the path from value to digits to glyphs to characters.

use num_bigint::BigUint;
use vstd::arithmetic::power::{lemma_pow_increases, pow};
use vstd::prelude::*;

use super::number_to_chinese_error::NumberToChineseError;
use crate::big_unsigned::big_value;
use crate::chinese_case::NumberScript;
use crate::chinese_count_method::ChineseCountMethod;
use crate::composer::{compose, written};
use crate::digits::{
    decimal_digits, decompose, decompose_big, lemma_digit_count, significant_digits,
};
use crate::planner::{naive_number_plan, number_plan, plan_number};

verus! {

/// The least magnitude that the Low method cannot write: ten to the
/// sixteenth.
pub const LOW_CEILING: u128 = 1_0000_0000_0000_0000;

/// How many decimal places a counting method can write, where it has a
/// limit: a magnitude is within it if it lies below that power of ten.
pub open spec fn ceiling_places(method: ChineseCountMethod) -> Option<nat> {
    match method {
        ChineseCountMethod::Low => Some(16),
        ChineseCountMethod::TenThousand => Some(52),
        ChineseCountMethod::Middle => Some(96),
        ChineseCountMethod::High => None,
    }
}

/// Whether a magnitude lies strictly below the ceiling of a counting
/// method.
pub open spec fn representable(method: ChineseCountMethod, magnitude: nat) -> bool {
    match ceiling_places(method) {
        Some(places) => magnitude < pow(10, places),
        None => true,
    }
}

/// What is wrong with a number of a given sign and size under a counting
/// method: nothing while the size is below the ceiling; past it, overflow
/// on the positive side and underflow on the negative one.
pub open spec fn refusal(
    method: ChineseCountMethod,
    negative: bool,
    magnitude: nat,
) -> Option<NumberToChineseError> {
    if representable(method, magnitude) {
        None
    } else if negative {
        Some(NumberToChineseError::Underflow)
    } else {
        Some(NumberToChineseError::Overflow)
    }
}

/// The size of an integer.
pub open spec fn magnitude_of(value: int) -> nat {
    if value < 0 {
        (-value) as nat
    } else {
        value as nat
    }
}

/// The text of an integer in a script under a counting method.
pub open spec fn chinese_text(
    script: NumberScript,
    method: ChineseCountMethod,
    value: int,
) -> Seq<char> {
    written(number_plan(method, value < 0, magnitude_of(value), 0), script)
}

/// The text in a script, under a counting method, of a number given by
/// its sign, its whole part and its hundredths.
pub open spec fn chinese_decimal_text(
    script: NumberScript,
    method: ChineseCountMethod,
    negative: bool,
    whole: nat,
    hundredths: nat,
) -> Seq<char> {
    written(number_plan(method, negative, whole, hundredths), script)
}

/// The text of an integer in a script, digit by digit.
pub open spec fn naive_text(script: NumberScript, value: int) -> Seq<char> {
    written(naive_number_plan(value < 0, magnitude_of(value), 0), script)
}

/// The text in a script, digit by digit, of a number given by its sign,
/// its whole part and its hundredths.
pub open spec fn naive_decimal_text(
    script: NumberScript,
    negative: bool,
    whole: nat,
    hundredths: nat,
) -> Seq<char> {
    written(naive_number_plan(negative, whole, hundredths), script)
}

/// The ceiling of the Low method is ten to the sixteenth.
pub proof fn lemma_low_ceiling()
    ensures
        pow(10, 16) == LOW_CEILING,
        forall|magnitude: nat|
            representable(ChineseCountMethod::Low, magnitude) <==> magnitude < LOW_CEILING,
{
    reveal_with_fuel(pow, 17);
}

/// Every magnitude of 128 bits lies below the ceilings of the
/// TenThousand and Middle methods, and High has none.
pub proof fn lemma_wide_ceilings(magnitude: nat)
    requires
        magnitude <= u128::MAX,
    ensures
        representable(ChineseCountMethod::TenThousand, magnitude),
        representable(ChineseCountMethod::Middle, magnitude),
        representable(ChineseCountMethod::High, magnitude),
{
    assert(pow(10, 39) == 1_000_000_000_000_000_000_000_000_000_000_000_000_000int) by {
        reveal_with_fuel(pow, 40);
    }
    lemma_pow_increases(10, 39, 52);
    lemma_pow_increases(10, 39, 96);
}

/// The size of a signed integer, also of the least one, whose negation
/// does not fit its own type.
pub fn unsigned_abs(value: i128) -> (magnitude: u128)
    ensures
        magnitude == magnitude_of(value as int),
{
    if value < 0 {
        (-(value + 1)) as u128 + 1
    } else {
        value as u128
    }
}

/// Whether decimal digits are more than a counting method can write.
pub fn exceeds_ceiling(method: ChineseCountMethod, digits: &Vec<u8>) -> (over: bool)
    ensures
        over == (ceiling_places(method) matches Some(places) && digits.len() > places),
{
    match method {
        ChineseCountMethod::Low => digits.len() > 16,
        ChineseCountMethod::TenThousand => digits.len() > 52,
        ChineseCountMethod::Middle => digits.len() > 96,
        ChineseCountMethod::High => false,
    }
}

/// The decimal digits of a magnitude are more than a counting method can
/// write exactly when the magnitude is not below its ceiling.
pub proof fn lemma_exceeds_ceiling(method: ChineseCountMethod, magnitude: nat)
    ensures
        representable(method, magnitude) <==> !(ceiling_places(method) matches Some(places)
            && decimal_digits(magnitude).len() > places),
{
    match ceiling_places(method) {
        Some(places) => {
            lemma_digit_count(magnitude, places);
            if magnitude == 0 {
                assert(significant_digits(0).len() == 0);
            }
        },
        None => {},
    }
}

/// Writes an integer of 128 bits, given by sign and size, under a
/// counting method, or digit by digit where none is given.
pub fn integer_to_chinese(
    number_script: NumberScript,
    method: Option<ChineseCountMethod>,
    negative: bool,
    magnitude: u128,
) -> (text: String)
    ensures
        text@ == match method {
            Some(method) => chinese_decimal_text(
                number_script,
                method,
                negative,
                magnitude as nat,
                0,
            ),
            None => naive_decimal_text(number_script, negative, magnitude as nat, 0),
        },
{
    let digits = decompose(magnitude);
    let plan = plan_number(method, negative, &digits, 0);
    compose(number_script, &plan)
}

/// Writes a number of any size, given by sign, whole part and hundredths
/// (taken modulo one hundred), under a counting method, or digit by digit
/// where none is given. A counting method refuses a whole part that is
/// not below its ceiling.
pub fn big_number_to_chinese(
    number_script: NumberScript,
    method: Option<ChineseCountMethod>,
    negative: bool,
    whole: BigUint,
    hundredths: u8,
) -> (result: Result<String, NumberToChineseError>)
    ensures
        match method {
            Some(method) => match refusal(method, negative, big_value(whole)) {
                Some(error) => result == Err::<String, NumberToChineseError>(error),
                None => result matches Ok(text) && text@ == chinese_decimal_text(
                    number_script,
                    method,
                    negative,
                    big_value(whole),
                    (hundredths % 100) as nat,
                ),
            },
            None => result matches Ok(text) && text@ == naive_decimal_text(
                number_script,
                negative,
                big_value(whole),
                (hundredths % 100) as nat,
            ),
        },
{
    let ghost magnitude = big_value(whole);
    let digits = decompose_big(whole);
    match method {
        Some(method) => {
            proof {
                lemma_exceeds_ceiling(method, magnitude);
            }
            if exceeds_ceiling(method, &digits) {
                return Err(
                    if negative {
                        NumberToChineseError::Underflow
                    } else {
                        NumberToChineseError::Overflow
                    },
                );
            }
        },
        None => {},
    }
    let plan = plan_number(method, negative, &digits, hundredths % 100);
    Ok(compose(number_script, &plan))
}

} // verus!
