use conjak_numbers::{
    ChineseCountMethod, NumberScript, NumberToChinese, NumberToChineseError, ScriptStyle,
};

const LOWER: ScriptStyle = ScriptStyle::Lower { circle_as_zero: false };

const TRADITIONAL: NumberScript = NumberScript::TraditionalChinese(LOWER);

#[test]
fn to_chinese_follows_the_method() {
    assert_eq!(
        1234567890123456789u64.to_chinese(TRADITIONAL, ChineseCountMethod::TenThousand).unwrap(),
        "一百二十三京四千五百六十七兆八千九百零一億二千三百四十五萬六千七百八十九"
    );
    assert_eq!(
        1234567890123456789u64.to_chinese(TRADITIONAL, ChineseCountMethod::Low),
        Err(NumberToChineseError::Overflow)
    );
    assert_eq!(
        (-1234567890123456789i64).to_chinese(TRADITIONAL, ChineseCountMethod::Low),
        Err(NumberToChineseError::Underflow)
    );
    assert_eq!(
        100000000u32.to_chinese(TRADITIONAL, ChineseCountMethod::Low).unwrap(),
        "一垓"
    );
    assert_eq!(
        100000000i32.to_chinese(TRADITIONAL, ChineseCountMethod::Middle).unwrap(),
        "一億"
    );
    assert_eq!(
        10u128.pow(16).to_chinese(TRADITIONAL, ChineseCountMethod::High).unwrap(),
        "一兆"
    );
    assert_eq!(
        i128::MIN.to_chinese(TRADITIONAL, ChineseCountMethod::Low),
        Err(NumberToChineseError::Underflow)
    );
    assert_eq!(200u8.to_chinese(TRADITIONAL, ChineseCountMethod::Low).unwrap(), "二百");
    assert_eq!((-100i8).to_chinese(TRADITIONAL, ChineseCountMethod::High).unwrap(), "負一百");
    assert_eq!(
        30000u16.to_chinese(TRADITIONAL, ChineseCountMethod::TenThousand).unwrap(),
        "三萬"
    );
    assert_eq!(
        (-30000i16).to_chinese(TRADITIONAL, ChineseCountMethod::Low).unwrap(),
        "負三萬"
    );
}

#[test]
fn to_chinese_naive_writes_digits() {
    let script = NumberScript::SimplifiedChinese(LOWER);
    assert_eq!(123456789.to_chinese_naive(script), "一二三四五六七八九");
    assert_eq!(12u8.to_chinese_naive(script), "一二");
    assert_eq!((-12i8).to_chinese_naive(script), "负一二");
    assert_eq!(12u16.to_chinese_naive(script), "一二");
    assert_eq!((-12i16).to_chinese_naive(script), "负一二");
    assert_eq!(12u32.to_chinese_naive(script), "一二");
    assert_eq!(12u64.to_chinese_naive(script), "一二");
    assert_eq!((-12i64).to_chinese_naive(script), "负一二");
    assert_eq!(u128::MAX.to_chinese_naive(script).chars().count(), 39);
    assert_eq!(i128::MIN.to_chinese_naive(script).chars().count(), 40);
}

#[test]
fn every_method_is_listed_once() {
    assert_eq!(
        ChineseCountMethod::variants(),
        [
            ChineseCountMethod::Low,
            ChineseCountMethod::TenThousand,
            ChineseCountMethod::Middle,
            ChineseCountMethod::High,
        ]
    );
}

#[test]
fn errors_describe_themselves() {
    assert_eq!(NumberToChineseError::Overflow.to_string(), "number is too large");
    assert_eq!(NumberToChineseError::Underflow.to_string(), "number is too small");
}
