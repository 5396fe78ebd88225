use vstd::prelude::*;

use super::functions::{
    chinese_text, lemma_low_ceiling, lemma_wide_ceilings, magnitude_of, naive_text, refusal,
};
use super::naive::{
    from_i128_to_chinese_naive, from_i16_to_chinese_naive, from_i32_to_chinese_naive,
    from_i64_to_chinese_naive, from_i8_to_chinese_naive, from_u128_to_chinese_naive,
    from_u16_to_chinese_naive, from_u32_to_chinese_naive, from_u64_to_chinese_naive,
    from_u8_to_chinese_naive,
};
use super::number_to_chinese_error::NumberToChineseError;
use super::{
    from_i128_to_chinese_high, from_i128_to_chinese_low, from_i128_to_chinese_middle,
    from_i128_to_chinese_ten_thousand, from_u128_to_chinese_high, from_u128_to_chinese_low,
    from_u128_to_chinese_middle, from_u128_to_chinese_ten_thousand,
};
use crate::chinese_case::NumberScript;
use crate::chinese_count_method::ChineseCountMethod;

verus! {

/// An integer type whose values can be written in Chinese numerals.
pub trait NumberToChinese: Sized {
    /// The integer that the value is.
    spec fn number(self) -> int;

    /// Writes the value in a script under a counting method. A value whose
    /// size is not below the ceiling of the method is an overflow where it
    /// is positive, an underflow where it is negative.
    fn to_chinese(self, number_script: NumberScript, method: ChineseCountMethod) -> (result: Result<
        String,
        NumberToChineseError,
    >)
        ensures
            match refusal(method, self.number() < 0, magnitude_of(self.number())) {
                Some(error) => result == Err::<String, NumberToChineseError>(error),
                None => result matches Ok(text) && text@ == chinese_text(
                    number_script,
                    method,
                    self.number(),
                ),
            },
    ;

    /// Writes the value in a script digit by digit, with no unit words.
    fn to_chinese_naive(self, number_script: NumberScript) -> (text: String)
        ensures
            text@ == naive_text(number_script, self.number()),
    ;
}

impl NumberToChinese for u8 {
    open spec fn number(self) -> int {
        self as int
    }

    fn to_chinese(self, number_script: NumberScript, method: ChineseCountMethod) -> (result: Result<
        String,
        NumberToChineseError,
    >) {
        (self as u128).to_chinese(number_script, method)
    }

    fn to_chinese_naive(self, number_script: NumberScript) -> (text: String) {
        from_u8_to_chinese_naive(number_script, self)
    }
}

impl NumberToChinese for i8 {
    open spec fn number(self) -> int {
        self as int
    }

    fn to_chinese(self, number_script: NumberScript, method: ChineseCountMethod) -> (result: Result<
        String,
        NumberToChineseError,
    >) {
        (self as i128).to_chinese(number_script, method)
    }

    fn to_chinese_naive(self, number_script: NumberScript) -> (text: String) {
        from_i8_to_chinese_naive(number_script, self)
    }
}

impl NumberToChinese for u16 {
    open spec fn number(self) -> int {
        self as int
    }

    fn to_chinese(self, number_script: NumberScript, method: ChineseCountMethod) -> (result: Result<
        String,
        NumberToChineseError,
    >) {
        (self as u128).to_chinese(number_script, method)
    }

    fn to_chinese_naive(self, number_script: NumberScript) -> (text: String) {
        from_u16_to_chinese_naive(number_script, self)
    }
}

impl NumberToChinese for i16 {
    open spec fn number(self) -> int {
        self as int
    }

    fn to_chinese(self, number_script: NumberScript, method: ChineseCountMethod) -> (result: Result<
        String,
        NumberToChineseError,
    >) {
        (self as i128).to_chinese(number_script, method)
    }

    fn to_chinese_naive(self, number_script: NumberScript) -> (text: String) {
        from_i16_to_chinese_naive(number_script, self)
    }
}

impl NumberToChinese for u32 {
    open spec fn number(self) -> int {
        self as int
    }

    fn to_chinese(self, number_script: NumberScript, method: ChineseCountMethod) -> (result: Result<
        String,
        NumberToChineseError,
    >) {
        (self as u128).to_chinese(number_script, method)
    }

    fn to_chinese_naive(self, number_script: NumberScript) -> (text: String) {
        from_u32_to_chinese_naive(number_script, self)
    }
}

impl NumberToChinese for i32 {
    open spec fn number(self) -> int {
        self as int
    }

    fn to_chinese(self, number_script: NumberScript, method: ChineseCountMethod) -> (result: Result<
        String,
        NumberToChineseError,
    >) {
        (self as i128).to_chinese(number_script, method)
    }

    fn to_chinese_naive(self, number_script: NumberScript) -> (text: String) {
        from_i32_to_chinese_naive(number_script, self)
    }
}

impl NumberToChinese for u64 {
    open spec fn number(self) -> int {
        self as int
    }

    fn to_chinese(self, number_script: NumberScript, method: ChineseCountMethod) -> (result: Result<
        String,
        NumberToChineseError,
    >) {
        (self as u128).to_chinese(number_script, method)
    }

    fn to_chinese_naive(self, number_script: NumberScript) -> (text: String) {
        from_u64_to_chinese_naive(number_script, self)
    }
}

impl NumberToChinese for i64 {
    open spec fn number(self) -> int {
        self as int
    }

    fn to_chinese(self, number_script: NumberScript, method: ChineseCountMethod) -> (result: Result<
        String,
        NumberToChineseError,
    >) {
        (self as i128).to_chinese(number_script, method)
    }

    fn to_chinese_naive(self, number_script: NumberScript) -> (text: String) {
        from_i64_to_chinese_naive(number_script, self)
    }
}

impl NumberToChinese for u128 {
    open spec fn number(self) -> int {
        self as int
    }

    fn to_chinese(self, number_script: NumberScript, method: ChineseCountMethod) -> (result: Result<
        String,
        NumberToChineseError,
    >) {
        proof {
            lemma_low_ceiling();
            lemma_wide_ceilings(magnitude_of(self as int));
        }
        match method {
            ChineseCountMethod::Low => from_u128_to_chinese_low(number_script, self),
            ChineseCountMethod::TenThousand => Ok(
                from_u128_to_chinese_ten_thousand(number_script, self),
            ),
            ChineseCountMethod::Middle => Ok(from_u128_to_chinese_middle(number_script, self)),
            ChineseCountMethod::High => Ok(from_u128_to_chinese_high(number_script, self)),
        }
    }

    fn to_chinese_naive(self, number_script: NumberScript) -> (text: String) {
        from_u128_to_chinese_naive(number_script, self)
    }
}

impl NumberToChinese for i128 {
    open spec fn number(self) -> int {
        self as int
    }

    fn to_chinese(self, number_script: NumberScript, method: ChineseCountMethod) -> (result: Result<
        String,
        NumberToChineseError,
    >) {
        proof {
            lemma_low_ceiling();
            lemma_wide_ceilings(magnitude_of(self as int));
        }
        match method {
            ChineseCountMethod::Low => from_i128_to_chinese_low(number_script, self),
            ChineseCountMethod::TenThousand => Ok(
                from_i128_to_chinese_ten_thousand(number_script, self),
            ),
            ChineseCountMethod::Middle => Ok(from_i128_to_chinese_middle(number_script, self)),
            ChineseCountMethod::High => Ok(from_i128_to_chinese_high(number_script, self)),
        }
    }

    fn to_chinese_naive(self, number_script: NumberScript) -> (text: String) {
        from_i128_to_chinese_naive(number_script, self)
    }
}

} // verus!
