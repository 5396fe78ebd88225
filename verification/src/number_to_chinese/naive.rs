//! Numbers written digit by digit, with no unit words.

use num_bigint::BigUint;
use vstd::prelude::*;

use super::functions::{
    big_number_to_chinese, integer_to_chinese, naive_decimal_text, naive_text, unsigned_abs,
};
use crate::big_unsigned::big_value;
use crate::chinese_case::NumberScript;

verus! {

/// Writes a magnitude digit by digit.
pub fn unsigned_integer_to_chinese(number_script: NumberScript, value: u128) -> (text: String)
    ensures
        text@ == naive_text(number_script, value as int),
{
    integer_to_chinese(number_script, None, false, value)
}

/// Writes a magnitude of any size digit by digit.
pub fn big_unsigned_integer_to_chinese(number_script: NumberScript, value: BigUint) -> (text:
    String)
    ensures
        text@ == naive_decimal_text(number_script, false, big_value(value), 0),
{
    positive_decimal_to_chinese(number_script, value, 0)
}

/// Writes a number that is not negative, given by its whole part and its
/// hundredths (taken modulo one hundred), digit by digit.
pub fn positive_decimal_to_chinese(number_script: NumberScript, whole: BigUint, hundredths: u8) -> (text:
    String)
    ensures
        text@ == naive_decimal_text(
            number_script,
            false,
            big_value(whole),
            (hundredths % 100) as nat,
        ),
{
    from_decimal_to_chinese_naive(number_script, false, whole, hundredths)
}

/// Writes a number given by its sign, its whole part and its hundredths
/// (taken modulo one hundred) digit by digit.
pub fn from_decimal_to_chinese_naive(
    number_script: NumberScript,
    negative: bool,
    whole: BigUint,
    hundredths: u8,
) -> (text: String)
    ensures
        text@ == naive_decimal_text(
            number_script,
            negative,
            big_value(whole),
            (hundredths % 100) as nat,
        ),
{
    big_number_to_chinese(number_script, None, negative, whole, hundredths).unwrap()
}

/// Writes a `u8` digit by digit.
pub fn from_u8_to_chinese_naive(number_script: NumberScript, value: u8) -> (text: String)
    ensures
        text@ == naive_text(number_script, value as int),
{
    from_u128_to_chinese_naive(number_script, value as u128)
}

/// Writes a `u16` digit by digit.
pub fn from_u16_to_chinese_naive(number_script: NumberScript, value: u16) -> (text: String)
    ensures
        text@ == naive_text(number_script, value as int),
{
    from_u128_to_chinese_naive(number_script, value as u128)
}

/// Writes a `u32` digit by digit.
pub fn from_u32_to_chinese_naive(number_script: NumberScript, value: u32) -> (text: String)
    ensures
        text@ == naive_text(number_script, value as int),
{
    from_u128_to_chinese_naive(number_script, value as u128)
}

/// Writes a `u64` digit by digit.
pub fn from_u64_to_chinese_naive(number_script: NumberScript, value: u64) -> (text: String)
    ensures
        text@ == naive_text(number_script, value as int),
{
    from_u128_to_chinese_naive(number_script, value as u128)
}

/// Writes a `u128` digit by digit.
pub fn from_u128_to_chinese_naive(number_script: NumberScript, value: u128) -> (text: String)
    ensures
        text@ == naive_text(number_script, value as int),
{
    unsigned_integer_to_chinese(number_script, value)
}

/// Writes a `usize` digit by digit.
pub fn from_usize_to_chinese_naive(number_script: NumberScript, value: usize) -> (text: String)
    ensures
        text@ == naive_text(number_script, value as int),
{
    unsigned_integer_to_chinese(number_script, value as u128)
}

/// Writes an `i8` digit by digit, with the sign before a negative one.
pub fn from_i8_to_chinese_naive(number_script: NumberScript, value: i8) -> (text: String)
    ensures
        text@ == naive_text(number_script, value as int),
{
    from_i128_to_chinese_naive(number_script, value as i128)
}

/// Writes an `i16` digit by digit, with the sign before a negative one.
pub fn from_i16_to_chinese_naive(number_script: NumberScript, value: i16) -> (text: String)
    ensures
        text@ == naive_text(number_script, value as int),
{
    from_i128_to_chinese_naive(number_script, value as i128)
}

/// Writes an `i32` digit by digit, with the sign before a negative one.
pub fn from_i32_to_chinese_naive(number_script: NumberScript, value: i32) -> (text: String)
    ensures
        text@ == naive_text(number_script, value as int),
{
    from_i128_to_chinese_naive(number_script, value as i128)
}

/// Writes an `i64` digit by digit, with the sign before a negative one.
pub fn from_i64_to_chinese_naive(number_script: NumberScript, value: i64) -> (text: String)
    ensures
        text@ == naive_text(number_script, value as int),
{
    from_i128_to_chinese_naive(number_script, value as i128)
}

/// Writes an `i128` digit by digit, with the sign before a negative one.
pub fn from_i128_to_chinese_naive(number_script: NumberScript, value: i128) -> (text: String)
    ensures
        text@ == naive_text(number_script, value as int),
{
    integer_to_chinese(number_script, None, value < 0, unsigned_abs(value))
}

/// Writes an `isize` digit by digit, with the sign before a negative one.
pub fn from_isize_to_chinese_naive(number_script: NumberScript, value: isize) -> (text: String)
    ensures
        text@ == naive_text(number_script, value as int),
{
    from_i128_to_chinese_naive(number_script, value as i128)
}

} // verus!
