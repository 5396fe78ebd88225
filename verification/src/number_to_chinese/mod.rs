pub mod functions;
pub mod naive;
pub mod number_to_chinese_error;
pub mod traits;

use num_bigint::BigUint;
use vstd::prelude::*;

use crate::big_unsigned::big_value;
use crate::chinese_case::NumberScript;
use crate::chinese_count_method::ChineseCountMethod;
use functions::{
    big_number_to_chinese, chinese_decimal_text, chinese_text, integer_to_chinese, refusal,
    unsigned_abs, LOW_CEILING,
};
use number_to_chinese_error::NumberToChineseError;

verus! {

/// Writes a magnitude below the ceiling of the Low method under that
/// method.
pub fn unsigned_integer_to_chinese_low(number_script: NumberScript, value: u128) -> (text: String)
    requires
        value < LOW_CEILING,
    ensures
        text@ == chinese_text(number_script, ChineseCountMethod::Low, value as int),
{
    integer_to_chinese(number_script, Some(ChineseCountMethod::Low), false, value)
}

/// Writes a magnitude under the TenThousand method.
pub fn unsigned_integer_to_chinese_ten_thousand(number_script: NumberScript, value: u128) -> (text:
    String)
    ensures
        text@ == chinese_text(number_script, ChineseCountMethod::TenThousand, value as int),
{
    integer_to_chinese(number_script, Some(ChineseCountMethod::TenThousand), false, value)
}

/// Writes a magnitude under the Middle method.
pub fn unsigned_integer_to_chinese_middle(number_script: NumberScript, value: u128) -> (text:
    String)
    ensures
        text@ == chinese_text(number_script, ChineseCountMethod::Middle, value as int),
{
    integer_to_chinese(number_script, Some(ChineseCountMethod::Middle), false, value)
}

/// Writes a magnitude under the High method.
pub fn unsigned_integer_to_chinese_high(number_script: NumberScript, value: u128) -> (text: String)
    ensures
        text@ == chinese_text(number_script, ChineseCountMethod::High, value as int),
{
    integer_to_chinese(number_script, Some(ChineseCountMethod::High), false, value)
}

/// Writes a `u8` under the Low method, whose ceiling no `u8` reaches.
pub fn from_u8_to_chinese(number_script: NumberScript, value: u8) -> (text: String)
    ensures
        text@ == chinese_text(number_script, ChineseCountMethod::Low, value as int),
{
    unsigned_integer_to_chinese_low(number_script, value as u128)
}

/// Writes a `u16` under the Low method, whose ceiling no `u16` reaches.
pub fn from_u16_to_chinese(number_script: NumberScript, value: u16) -> (text: String)
    ensures
        text@ == chinese_text(number_script, ChineseCountMethod::Low, value as int),
{
    unsigned_integer_to_chinese_low(number_script, value as u128)
}

/// Writes a `u32` under the Low method, whose ceiling no `u32` reaches.
pub fn from_u32_to_chinese_low(number_script: NumberScript, value: u32) -> (text: String)
    ensures
        text@ == chinese_text(number_script, ChineseCountMethod::Low, value as int),
{
    unsigned_integer_to_chinese_low(number_script, value as u128)
}

/// Writes a `u32` under the TenThousand method, whose ceiling no `u32` reaches.
pub fn from_u32_to_chinese_ten_thousand(number_script: NumberScript, value: u32) -> (text: String)
    ensures
        text@ == chinese_text(number_script, ChineseCountMethod::TenThousand, value as int),
{
    from_u128_to_chinese_ten_thousand(number_script, value as u128)
}

/// Writes a `u32` under the Middle method, whose ceiling no `u32` reaches.
pub fn from_u32_to_chinese_middle(number_script: NumberScript, value: u32) -> (text: String)
    ensures
        text@ == chinese_text(number_script, ChineseCountMethod::Middle, value as int),
{
    from_u128_to_chinese_middle(number_script, value as u128)
}

/// Writes a `u32` under the High method, whose ceiling no `u32` reaches.
pub fn from_u32_to_chinese_high(number_script: NumberScript, value: u32) -> (text: String)
    ensures
        text@ == chinese_text(number_script, ChineseCountMethod::High, value as int),
{
    from_u128_to_chinese_high(number_script, value as u128)
}

/// Writes a `u64` under the Low method: a value below ten to the
/// sixteenth is written, any other is an overflow.
pub fn from_u64_to_chinese_low(number_script: NumberScript, value: u64) -> (result: Result<
    String,
    NumberToChineseError,
>)
    ensures
        value < LOW_CEILING ==> (result matches Ok(text) && text@ == chinese_text(
            number_script,
            ChineseCountMethod::Low,
            value as int,
        )),
        value >= LOW_CEILING ==> result == Err::<String, NumberToChineseError>(
            NumberToChineseError::Overflow,
        ),
{
    from_u128_to_chinese_low(number_script, value as u128)
}

/// Writes a `u64` under the TenThousand method, whose ceiling no `u64` reaches.
pub fn from_u64_to_chinese_ten_thousand(number_script: NumberScript, value: u64) -> (text: String)
    ensures
        text@ == chinese_text(number_script, ChineseCountMethod::TenThousand, value as int),
{
    from_u128_to_chinese_ten_thousand(number_script, value as u128)
}

/// Writes a `u64` under the Middle method, whose ceiling no `u64` reaches.
pub fn from_u64_to_chinese_middle(number_script: NumberScript, value: u64) -> (text: String)
    ensures
        text@ == chinese_text(number_script, ChineseCountMethod::Middle, value as int),
{
    from_u128_to_chinese_middle(number_script, value as u128)
}

/// Writes a `u64` under the High method, whose ceiling no `u64` reaches.
pub fn from_u64_to_chinese_high(number_script: NumberScript, value: u64) -> (text: String)
    ensures
        text@ == chinese_text(number_script, ChineseCountMethod::High, value as int),
{
    from_u128_to_chinese_high(number_script, value as u128)
}

/// Writes a `u128` under the Low method: a value below ten to the
/// sixteenth is written, any other is an overflow.
pub fn from_u128_to_chinese_low(number_script: NumberScript, value: u128) -> (result: Result<
    String,
    NumberToChineseError,
>)
    ensures
        value < LOW_CEILING ==> (result matches Ok(text) && text@ == chinese_text(
            number_script,
            ChineseCountMethod::Low,
            value as int,
        )),
        value >= LOW_CEILING ==> result == Err::<String, NumberToChineseError>(
            NumberToChineseError::Overflow,
        ),
{
    if value >= LOW_CEILING {
        return Err(NumberToChineseError::Overflow);
    }
    Ok(unsigned_integer_to_chinese_low(number_script, value))
}

/// Writes a `u128` under the TenThousand method, whose ceiling no `u128` reaches.
pub fn from_u128_to_chinese_ten_thousand(number_script: NumberScript, value: u128) -> (text: String)
    ensures
        text@ == chinese_text(number_script, ChineseCountMethod::TenThousand, value as int),
{
    unsigned_integer_to_chinese_ten_thousand(number_script, value)
}

/// Writes a `u128` under the Middle method, whose ceiling no `u128` reaches.
pub fn from_u128_to_chinese_middle(number_script: NumberScript, value: u128) -> (text: String)
    ensures
        text@ == chinese_text(number_script, ChineseCountMethod::Middle, value as int),
{
    unsigned_integer_to_chinese_middle(number_script, value)
}

/// Writes a `u128` under the High method, whose ceiling no `u128` reaches.
pub fn from_u128_to_chinese_high(number_script: NumberScript, value: u128) -> (text: String)
    ensures
        text@ == chinese_text(number_script, ChineseCountMethod::High, value as int),
{
    unsigned_integer_to_chinese_high(number_script, value)
}

/// Writes a `usize` under the Low method: a value below ten to the
/// sixteenth is written, any other is an overflow.
pub fn from_usize_to_chinese_low(number_script: NumberScript, value: usize) -> (result: Result<
    String,
    NumberToChineseError,
>)
    ensures
        value < LOW_CEILING ==> (result matches Ok(text) && text@ == chinese_text(
            number_script,
            ChineseCountMethod::Low,
            value as int,
        )),
        value >= LOW_CEILING ==> result == Err::<String, NumberToChineseError>(
            NumberToChineseError::Overflow,
        ),
{
    from_u128_to_chinese_low(number_script, value as u128)
}

/// Writes a `usize` under the TenThousand method, whose ceiling no `usize` reaches.
pub fn from_usize_to_chinese_ten_thousand(number_script: NumberScript, value: usize) -> (text: String)
    ensures
        text@ == chinese_text(number_script, ChineseCountMethod::TenThousand, value as int),
{
    from_u128_to_chinese_ten_thousand(number_script, value as u128)
}

/// Writes a `usize` under the Middle method, whose ceiling no `usize` reaches.
pub fn from_usize_to_chinese_middle(number_script: NumberScript, value: usize) -> (text: String)
    ensures
        text@ == chinese_text(number_script, ChineseCountMethod::Middle, value as int),
{
    from_u128_to_chinese_middle(number_script, value as u128)
}

/// Writes a `usize` under the High method, whose ceiling no `usize` reaches.
pub fn from_usize_to_chinese_high(number_script: NumberScript, value: usize) -> (text: String)
    ensures
        text@ == chinese_text(number_script, ChineseCountMethod::High, value as int),
{
    from_u128_to_chinese_high(number_script, value as u128)
}

/// Writes an `i8` under the Low method, whose ceiling no `i8` reaches,
/// with the sign before a negative one.
pub fn from_i8_to_chinese(number_script: NumberScript, value: i8) -> (text: String)
    ensures
        text@ == chinese_text(number_script, ChineseCountMethod::Low, value as int),
{
    integer_to_chinese(
        number_script,
        Some(ChineseCountMethod::Low),
        value < 0,
        unsigned_abs(value as i128),
    )
}

/// Writes an `i16` under the Low method, whose ceiling no `i16` reaches,
/// with the sign before a negative one.
pub fn from_i16_to_chinese(number_script: NumberScript, value: i16) -> (text: String)
    ensures
        text@ == chinese_text(number_script, ChineseCountMethod::Low, value as int),
{
    integer_to_chinese(
        number_script,
        Some(ChineseCountMethod::Low),
        value < 0,
        unsigned_abs(value as i128),
    )
}

/// Writes an `i32` under the Low method, whose ceiling no `i32` reaches,
/// with the sign before a negative one.
pub fn from_i32_to_chinese_low(number_script: NumberScript, value: i32) -> (text: String)
    ensures
        text@ == chinese_text(number_script, ChineseCountMethod::Low, value as int),
{
    integer_to_chinese(
        number_script,
        Some(ChineseCountMethod::Low),
        value < 0,
        unsigned_abs(value as i128),
    )
}

/// Writes an `i32` under the TenThousand method, whose ceiling no `i32` reaches,
/// with the sign before a negative one.
pub fn from_i32_to_chinese_ten_thousand(number_script: NumberScript, value: i32) -> (text: String)
    ensures
        text@ == chinese_text(number_script, ChineseCountMethod::TenThousand, value as int),
{
    from_i128_to_chinese_ten_thousand(number_script, value as i128)
}

/// Writes an `i32` under the Middle method, whose ceiling no `i32` reaches,
/// with the sign before a negative one.
pub fn from_i32_to_chinese_middle(number_script: NumberScript, value: i32) -> (text: String)
    ensures
        text@ == chinese_text(number_script, ChineseCountMethod::Middle, value as int),
{
    from_i128_to_chinese_middle(number_script, value as i128)
}

/// Writes an `i32` under the High method, whose ceiling no `i32` reaches,
/// with the sign before a negative one.
pub fn from_i32_to_chinese_high(number_script: NumberScript, value: i32) -> (text: String)
    ensures
        text@ == chinese_text(number_script, ChineseCountMethod::High, value as int),
{
    from_i128_to_chinese_high(number_script, value as i128)
}

/// Writes an `i64` under the Low method, with the sign before a negative
/// one: a value whose size is below ten to the sixteenth is written; any
/// other is an overflow where it is positive, an underflow where it is
/// negative.
pub fn from_i64_to_chinese_low(number_script: NumberScript, value: i64) -> (result: Result<
    String,
    NumberToChineseError,
>)
    ensures
        -LOW_CEILING < value < LOW_CEILING ==> (result matches Ok(text) && text@ == chinese_text(
            number_script,
            ChineseCountMethod::Low,
            value as int,
        )),
        value >= LOW_CEILING ==> result == Err::<String, NumberToChineseError>(
            NumberToChineseError::Overflow,
        ),
        value <= -LOW_CEILING ==> result == Err::<String, NumberToChineseError>(
            NumberToChineseError::Underflow,
        ),
{
    from_i128_to_chinese_low(number_script, value as i128)
}

/// Writes an `i64` under the TenThousand method, whose ceiling no `i64` reaches,
/// with the sign before a negative one.
pub fn from_i64_to_chinese_ten_thousand(number_script: NumberScript, value: i64) -> (text: String)
    ensures
        text@ == chinese_text(number_script, ChineseCountMethod::TenThousand, value as int),
{
    from_i128_to_chinese_ten_thousand(number_script, value as i128)
}

/// Writes an `i64` under the Middle method, whose ceiling no `i64` reaches,
/// with the sign before a negative one.
pub fn from_i64_to_chinese_middle(number_script: NumberScript, value: i64) -> (text: String)
    ensures
        text@ == chinese_text(number_script, ChineseCountMethod::Middle, value as int),
{
    from_i128_to_chinese_middle(number_script, value as i128)
}

/// Writes an `i64` under the High method, whose ceiling no `i64` reaches,
/// with the sign before a negative one.
pub fn from_i64_to_chinese_high(number_script: NumberScript, value: i64) -> (text: String)
    ensures
        text@ == chinese_text(number_script, ChineseCountMethod::High, value as int),
{
    from_i128_to_chinese_high(number_script, value as i128)
}

/// Writes an `i128` under the Low method, with the sign before a negative
/// one: a value whose size is below ten to the sixteenth is written; any
/// other is an overflow where it is positive, an underflow where it is
/// negative.
pub fn from_i128_to_chinese_low(number_script: NumberScript, value: i128) -> (result: Result<
    String,
    NumberToChineseError,
>)
    ensures
        -LOW_CEILING < value < LOW_CEILING ==> (result matches Ok(text) && text@ == chinese_text(
            number_script,
            ChineseCountMethod::Low,
            value as int,
        )),
        value >= LOW_CEILING ==> result == Err::<String, NumberToChineseError>(
            NumberToChineseError::Overflow,
        ),
        value <= -LOW_CEILING ==> result == Err::<String, NumberToChineseError>(
            NumberToChineseError::Underflow,
        ),
{
    if value < 0 {
        let magnitude = unsigned_abs(value);
        if magnitude >= LOW_CEILING {
            return Err(NumberToChineseError::Underflow);
        }
        Ok(integer_to_chinese(number_script, Some(ChineseCountMethod::Low), true, magnitude))
    } else {
        from_u128_to_chinese_low(number_script, value as u128)
    }
}

/// Writes an `i128` under the TenThousand method, whose ceiling no `i128` reaches,
/// with the sign before a negative one.
pub fn from_i128_to_chinese_ten_thousand(number_script: NumberScript, value: i128) -> (text: String)
    ensures
        text@ == chinese_text(number_script, ChineseCountMethod::TenThousand, value as int),
{
    integer_to_chinese(
        number_script,
        Some(ChineseCountMethod::TenThousand),
        value < 0,
        unsigned_abs(value),
    )
}

/// Writes an `i128` under the Middle method, whose ceiling no `i128` reaches,
/// with the sign before a negative one.
pub fn from_i128_to_chinese_middle(number_script: NumberScript, value: i128) -> (text: String)
    ensures
        text@ == chinese_text(number_script, ChineseCountMethod::Middle, value as int),
{
    integer_to_chinese(
        number_script,
        Some(ChineseCountMethod::Middle),
        value < 0,
        unsigned_abs(value),
    )
}

/// Writes an `i128` under the High method, whose ceiling no `i128` reaches,
/// with the sign before a negative one.
pub fn from_i128_to_chinese_high(number_script: NumberScript, value: i128) -> (text: String)
    ensures
        text@ == chinese_text(number_script, ChineseCountMethod::High, value as int),
{
    integer_to_chinese(
        number_script,
        Some(ChineseCountMethod::High),
        value < 0,
        unsigned_abs(value),
    )
}

/// Writes an `isize` under the Low method, with the sign before a negative
/// one: a value whose size is below ten to the sixteenth is written; any
/// other is an overflow where it is positive, an underflow where it is
/// negative.
pub fn from_isize_to_chinese_low(number_script: NumberScript, value: isize) -> (result: Result<
    String,
    NumberToChineseError,
>)
    ensures
        -LOW_CEILING < value < LOW_CEILING ==> (result matches Ok(text) && text@ == chinese_text(
            number_script,
            ChineseCountMethod::Low,
            value as int,
        )),
        value >= LOW_CEILING ==> result == Err::<String, NumberToChineseError>(
            NumberToChineseError::Overflow,
        ),
        value <= -LOW_CEILING ==> result == Err::<String, NumberToChineseError>(
            NumberToChineseError::Underflow,
        ),
{
    from_i128_to_chinese_low(number_script, value as i128)
}

/// Writes an `isize` under the TenThousand method, whose ceiling no `isize` reaches,
/// with the sign before a negative one.
pub fn from_isize_to_chinese_ten_thousand(number_script: NumberScript, value: isize) -> (text: String)
    ensures
        text@ == chinese_text(number_script, ChineseCountMethod::TenThousand, value as int),
{
    from_i128_to_chinese_ten_thousand(number_script, value as i128)
}

/// Writes an `isize` under the Middle method, whose ceiling no `isize` reaches,
/// with the sign before a negative one.
pub fn from_isize_to_chinese_middle(number_script: NumberScript, value: isize) -> (text: String)
    ensures
        text@ == chinese_text(number_script, ChineseCountMethod::Middle, value as int),
{
    from_i128_to_chinese_middle(number_script, value as i128)
}

/// Writes an `isize` under the High method, whose ceiling no `isize` reaches,
/// with the sign before a negative one.
pub fn from_isize_to_chinese_high(number_script: NumberScript, value: isize) -> (text: String)
    ensures
        text@ == chinese_text(number_script, ChineseCountMethod::High, value as int),
{
    from_i128_to_chinese_high(number_script, value as i128)
}

/// Writes a number given by its sign, its whole part and its hundredths
/// (taken modulo one hundred) under a counting method. A whole part that
/// is not below the ceiling of the method is an overflow where the number
/// is positive, an underflow where it is negative.
pub fn from_decimal_to_chinese(
    number_script: NumberScript,
    method: ChineseCountMethod,
    negative: bool,
    whole: BigUint,
    hundredths: u8,
) -> (result: Result<String, NumberToChineseError>)
    ensures
        match refusal(method, negative, big_value(whole)) {
            Some(error) => result == Err::<String, NumberToChineseError>(error),
            None => result matches Ok(text) && text@ == chinese_decimal_text(
                number_script,
                method,
                negative,
                big_value(whole),
                (hundredths % 100) as nat,
            ),
        },
{
    big_number_to_chinese(number_script, Some(method), negative, whole, hundredths)
}

/// Writes a number given by its sign, its whole part and its hundredths
/// under the Low method, as `from_decimal_to_chinese` does.
pub fn from_decimal_to_chinese_low(
    number_script: NumberScript,
    negative: bool,
    whole: BigUint,
    hundredths: u8,
) -> (result: Result<String, NumberToChineseError>)
    ensures
        match refusal(ChineseCountMethod::Low, negative, big_value(whole)) {
            Some(error) => result == Err::<String, NumberToChineseError>(error),
            None => result matches Ok(text) && text@ == chinese_decimal_text(
                number_script,
                ChineseCountMethod::Low,
                negative,
                big_value(whole),
                (hundredths % 100) as nat,
            ),
        },
{
    from_decimal_to_chinese(number_script, ChineseCountMethod::Low, negative, whole, hundredths)
}

/// Writes a number given by its sign, its whole part and its hundredths
/// under the TenThousand method, as `from_decimal_to_chinese` does.
pub fn from_decimal_to_chinese_ten_thousand(
    number_script: NumberScript,
    negative: bool,
    whole: BigUint,
    hundredths: u8,
) -> (result: Result<String, NumberToChineseError>)
    ensures
        match refusal(ChineseCountMethod::TenThousand, negative, big_value(whole)) {
            Some(error) => result == Err::<String, NumberToChineseError>(error),
            None => result matches Ok(text) && text@ == chinese_decimal_text(
                number_script,
                ChineseCountMethod::TenThousand,
                negative,
                big_value(whole),
                (hundredths % 100) as nat,
            ),
        },
{
    from_decimal_to_chinese(number_script, ChineseCountMethod::TenThousand, negative, whole, hundredths)
}

/// Writes a number given by its sign, its whole part and its hundredths
/// under the Middle method, as `from_decimal_to_chinese` does.
pub fn from_decimal_to_chinese_middle(
    number_script: NumberScript,
    negative: bool,
    whole: BigUint,
    hundredths: u8,
) -> (result: Result<String, NumberToChineseError>)
    ensures
        match refusal(ChineseCountMethod::Middle, negative, big_value(whole)) {
            Some(error) => result == Err::<String, NumberToChineseError>(error),
            None => result matches Ok(text) && text@ == chinese_decimal_text(
                number_script,
                ChineseCountMethod::Middle,
                negative,
                big_value(whole),
                (hundredths % 100) as nat,
            ),
        },
{
    from_decimal_to_chinese(number_script, ChineseCountMethod::Middle, negative, whole, hundredths)
}

/// Writes a number given by its sign, its whole part and its hundredths
/// (taken modulo one hundred) under the High method, which has no
/// ceiling.
pub fn from_decimal_to_chinese_high(
    number_script: NumberScript,
    negative: bool,
    whole: BigUint,
    hundredths: u8,
) -> (text: String)
    ensures
        text@ == chinese_decimal_text(
            number_script,
            ChineseCountMethod::High,
            negative,
            big_value(whole),
            (hundredths % 100) as nat,
        ),
{
    from_decimal_to_chinese(number_script, ChineseCountMethod::High, negative, whole, hundredths)
        .unwrap()
}

} // verus!
