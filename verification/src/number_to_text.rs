//! The single entry point that a host calls: a number, and optionally a
//! script and a counting method, to text.

use num_bigint::BigUint;
use vstd::prelude::*;

use crate::big_unsigned::big_value;
use crate::chinese_case::{NumberScript, ScriptStyle};
use crate::chinese_count_method::ChineseCountMethod;
use crate::number_to_chinese::from_decimal_to_chinese;
use crate::number_to_chinese::functions::{
    chinese_decimal_text, chinese_text, magnitude_of, refusal,
};
use crate::number_to_chinese::number_to_chinese_error::NumberToChineseError;
use crate::number_to_chinese::traits::NumberToChinese;

verus! {

/// The number to write: an integer, or a number with a fraction, given
/// by its sign, its whole part and its hundredths.
pub enum NumberInput {
    Integer(i64),
    Decimal { negative: bool, whole: BigUint, hundredths: u8 },
}

/// The script of a request that names none: Simplified Chinese in the
/// everyday style, with the character for zero.
pub open spec fn default_script() -> NumberScript {
    NumberScript::SimplifiedChinese(ScriptStyle::Lower { circle_as_zero: false })
}

/// The counting method of a request that names none.
pub open spec fn default_method() -> ChineseCountMethod {
    ChineseCountMethod::TenThousand
}

/// The script that a request asks for, or the default one.
pub fn script_or_default(number_script: Option<NumberScript>) -> (script: NumberScript)
    ensures
        script == match number_script {
            Some(chosen) => chosen,
            None => default_script(),
        },
{
    match number_script {
        Some(chosen) => chosen,
        None => NumberScript::SimplifiedChinese(ScriptStyle::Lower { circle_as_zero: false }),
    }
}

/// The counting method that a request asks for, or the default one.
pub fn method_or_default(count_method: Option<ChineseCountMethod>) -> (method: ChineseCountMethod)
    ensures
        method == match count_method {
            Some(chosen) => chosen,
            None => default_method(),
        },
{
    match count_method {
        Some(chosen) => chosen,
        None => ChineseCountMethod::TenThousand,
    }
}

/// Writes a number in the script and under the counting method that the
/// request names, each with its default where it names none. A number
/// whose size is not below the ceiling of the method is an overflow where
/// it is positive, an underflow where it is negative.
pub fn number_to_text(
    value: NumberInput,
    number_script: Option<NumberScript>,
    count_method: Option<ChineseCountMethod>,
) -> (result: Result<String, NumberToChineseError>)
    ensures
        ({
            let script = match number_script {
                Some(chosen) => chosen,
                None => default_script(),
            };
            let method = match count_method {
                Some(chosen) => chosen,
                None => default_method(),
            };
            match value {
                NumberInput::Integer(number) => match refusal(
                    method,
                    number < 0,
                    magnitude_of(number as int),
                ) {
                    Some(error) => result == Err::<String, NumberToChineseError>(error),
                    None => result matches Ok(text) && text@ == chinese_text(
                        script,
                        method,
                        number as int,
                    ),
                },
                NumberInput::Decimal { negative, whole, hundredths } => match refusal(
                    method,
                    negative,
                    big_value(whole),
                ) {
                    Some(error) => result == Err::<String, NumberToChineseError>(error),
                    None => result matches Ok(text) && text@ == chinese_decimal_text(
                        script,
                        method,
                        negative,
                        big_value(whole),
                        (hundredths % 100) as nat,
                    ),
                },
            }
        }),
{
    let script = script_or_default(number_script);
    let method = method_or_default(count_method);
    match value {
        NumberInput::Integer(number) => number.to_chinese(script, method),
        NumberInput::Decimal { negative, whole, hundredths } => from_decimal_to_chinese(
            script,
            method,
            negative,
            whole,
            hundredths,
        ),
    }
}

} // verus!
