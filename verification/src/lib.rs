//! Numbers written out in the numerals of Simplified Chinese, Traditional
//! Chinese, Japanese and Korean, in an everyday and a formal style, under
//! the four classical ways of counting large units.
//!
//! A value is first split into its decimal digits, then planned as a
//! sequence of glyph tokens (digits, unit words, sign, decimal point), and
//! finally written as text by looking each token up in the tables of the
//! chosen script. Every function states what it returns over these models.

pub mod big_unsigned;
pub mod chinese_case;
pub mod chinese_characters;
pub mod chinese_count_method;
pub mod composer;
pub mod digits;
pub mod laws;
pub mod number_to_chinese;
pub mod number_to_text;
pub mod planner;
pub mod sep_10000;

pub use chinese_case::{NumberScript, ScriptStyle};
pub use chinese_characters::{ChineseExponent, ChineseNumber, ChinesePoint, ChineseSign};
pub use chinese_count_method::ChineseCountMethod;
pub use composer::compose;
pub use digits::{decompose, decompose_big};
pub use number_to_chinese::functions::LOW_CEILING;
pub use number_to_chinese::naive::{
    from_decimal_to_chinese_naive, from_i128_to_chinese_naive, from_i16_to_chinese_naive,
    from_i32_to_chinese_naive, from_i64_to_chinese_naive, from_i8_to_chinese_naive,
    from_isize_to_chinese_naive, from_u128_to_chinese_naive, from_u16_to_chinese_naive,
    from_u32_to_chinese_naive, from_u64_to_chinese_naive, from_u8_to_chinese_naive,
    from_usize_to_chinese_naive,
};
pub use number_to_chinese::number_to_chinese_error::NumberToChineseError;
pub use number_to_chinese::traits::NumberToChinese;
pub use number_to_chinese::{
    from_decimal_to_chinese, from_decimal_to_chinese_high, from_decimal_to_chinese_low,
    from_decimal_to_chinese_middle, from_decimal_to_chinese_ten_thousand, from_i128_to_chinese_high,
    from_i128_to_chinese_low, from_i128_to_chinese_middle, from_i128_to_chinese_ten_thousand,
    from_i16_to_chinese, from_i32_to_chinese_high, from_i32_to_chinese_low,
    from_i32_to_chinese_middle, from_i32_to_chinese_ten_thousand, from_i64_to_chinese_high,
    from_i64_to_chinese_low, from_i64_to_chinese_middle, from_i64_to_chinese_ten_thousand,
    from_i8_to_chinese, from_isize_to_chinese_high, from_isize_to_chinese_low,
    from_isize_to_chinese_middle, from_isize_to_chinese_ten_thousand, from_u128_to_chinese_high,
    from_u128_to_chinese_low, from_u128_to_chinese_middle, from_u128_to_chinese_ten_thousand,
    from_u16_to_chinese, from_u32_to_chinese_high, from_u32_to_chinese_low,
    from_u32_to_chinese_middle, from_u32_to_chinese_ten_thousand, from_u64_to_chinese_high,
    from_u64_to_chinese_low, from_u64_to_chinese_middle, from_u64_to_chinese_ten_thousand,
    from_u8_to_chinese, from_usize_to_chinese_high, from_usize_to_chinese_low,
    from_usize_to_chinese_middle, from_usize_to_chinese_ten_thousand,
};
pub use number_to_text::{method_or_default, number_to_text, script_or_default, NumberInput};
pub use sep_10000::{
    decimal_text, get_ten_thousand_separators, sep_by_ten_thousands, separate_number,
    separator_word, SeparatorError, SeparatorSet,
};
pub use planner::{plan_digits, plan_number, Glyph};
