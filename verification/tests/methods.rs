use conjak_numbers::{
    from_i128_to_chinese_high, from_i128_to_chinese_low, from_i128_to_chinese_middle,
    from_i128_to_chinese_ten_thousand, from_i16_to_chinese, from_i32_to_chinese_high,
    from_i32_to_chinese_low, from_i32_to_chinese_middle, from_i32_to_chinese_ten_thousand,
    from_i64_to_chinese_high, from_i64_to_chinese_middle, from_i64_to_chinese_ten_thousand,
    from_i8_to_chinese, from_isize_to_chinese_high, from_isize_to_chinese_low,
    from_isize_to_chinese_middle, from_isize_to_chinese_ten_thousand, from_u128_to_chinese_high,
    from_u128_to_chinese_low, from_u128_to_chinese_middle, from_u128_to_chinese_ten_thousand,
    from_u16_to_chinese, from_u32_to_chinese_high, from_u32_to_chinese_low,
    from_u32_to_chinese_middle, from_u64_to_chinese_high, from_u64_to_chinese_low,
    from_u64_to_chinese_middle, from_usize_to_chinese_high, from_usize_to_chinese_low,
    from_usize_to_chinese_middle, from_usize_to_chinese_ten_thousand, NumberScript,
    NumberToChineseError, ScriptStyle, LOW_CEILING,
};

const LOWER: ScriptStyle = ScriptStyle::Lower { circle_as_zero: false };

const TRADITIONAL: NumberScript = NumberScript::TraditionalChinese(LOWER);

#[test]
fn low_gives_every_place_its_own_word() {
    assert_eq!(
        from_u128_to_chinese_low(TRADITIONAL, 1234567890123456).unwrap(),
        "一極二載三正四澗五溝六穰七秭八垓九京零一億二萬三千四百五十六"
    );
    assert_eq!(from_u128_to_chinese_low(TRADITIONAL, 100010001).unwrap(), "一垓零一萬零一");
    assert_eq!(from_u64_to_chinese_low(TRADITIONAL, 10).unwrap(), "一十");
    assert_eq!(
        from_u64_to_chinese_low(NumberScript::Korean(LOWER), 1000000000000000).unwrap(),
        "일극"
    );
    assert_eq!(
        from_u32_to_chinese_low(NumberScript::Japanese(ScriptStyle::Upper), 101),
        "壱百零壱"
    );
    assert_eq!(
        from_u128_to_chinese_low(
            NumberScript::SimplifiedChinese(ScriptStyle::Upper),
            9999999999999999
        )
        .unwrap(),
        "玖极玖载玖正玖涧玖沟玖穰玖秭玖垓玖京玖兆玖亿玖万玖仟玖佰玖拾玖"
    );
}

#[test]
fn low_ceiling_is_ten_to_the_sixteenth() {
    assert_eq!(LOW_CEILING, 10u128.pow(16));
    assert!(from_u64_to_chinese_low(TRADITIONAL, 9_999_999_999_999_999).is_ok());
    assert_eq!(
        from_u64_to_chinese_low(TRADITIONAL, 10_000_000_000_000_000),
        Err(NumberToChineseError::Overflow)
    );
    assert_eq!(
        from_u64_to_chinese_low(TRADITIONAL, u64::MAX),
        Err(NumberToChineseError::Overflow)
    );
    assert_eq!(
        from_u128_to_chinese_low(TRADITIONAL, u128::MAX),
        Err(NumberToChineseError::Overflow)
    );
    assert_eq!(
        from_i128_to_chinese_low(TRADITIONAL, i128::MIN),
        Err(NumberToChineseError::Underflow)
    );
    assert_eq!(
        from_i128_to_chinese_low(TRADITIONAL, i128::MAX),
        Err(NumberToChineseError::Overflow)
    );
    if usize::BITS >= 64 {
        assert_eq!(
            from_usize_to_chinese_low(TRADITIONAL, 10_000_000_000_000_000u64 as usize),
            Err(NumberToChineseError::Overflow)
        );
        assert_eq!(
            from_isize_to_chinese_low(TRADITIONAL, -10_000_000_000_000_000i64 as isize),
            Err(NumberToChineseError::Underflow)
        );
    }
    assert_eq!(from_usize_to_chinese_low(TRADITIONAL, 10).unwrap(), "一十");
    assert_eq!(from_isize_to_chinese_low(TRADITIONAL, -10).unwrap(), "負一十");
}

#[test]
fn ten_thousand_groups_by_four() {
    assert_eq!(from_u128_to_chinese_ten_thousand(TRADITIONAL, 10000), "一萬");
    assert_eq!(from_u128_to_chinese_ten_thousand(TRADITIONAL, 100000000), "一億");
    assert_eq!(
        from_u128_to_chinese_ten_thousand(NumberScript::SimplifiedChinese(LOWER), 100001000),
        "一亿零一千"
    );
    assert_eq!(
        from_u128_to_chinese_ten_thousand(TRADITIONAL, 78901234),
        "七千八百九十萬零一千二百三十四"
    );
    assert_eq!(
        from_u128_to_chinese_ten_thousand(TRADITIONAL, 1234567890123456),
        "一千二百三十四兆五千六百七十八億九千零一十二萬三千四百五十六"
    );
    assert_eq!(
        from_u128_to_chinese_ten_thousand(TRADITIONAL, u128::MAX),
        "三百四十澗零二千八百二十三溝六千六百九十二穰零九百三十八秭四千六百三十四垓六千三百三十七京四千六百零七兆四千三百一十七億六千八百二十一萬一千四百五十五"
    );
    assert_eq!(from_usize_to_chinese_ten_thousand(TRADITIONAL, 10001), "一萬零一");
    assert_eq!(from_isize_to_chinese_ten_thousand(TRADITIONAL, -10001), "負一萬零一");
    assert_eq!(from_i32_to_chinese_ten_thousand(TRADITIONAL, -100010), "負一十萬零一十");
    assert_eq!(from_i64_to_chinese_ten_thousand(TRADITIONAL, 0), "零");
}

#[test]
fn an_empty_group_leaves_no_word() {
    assert_eq!(from_u128_to_chinese_ten_thousand(TRADITIONAL, 100000001), "一億零一");
    assert_eq!(from_u128_to_chinese_ten_thousand(TRADITIONAL, 1000000000000), "一兆");
    assert_eq!(from_u128_to_chinese_middle(TRADITIONAL, 10000000000000000), "一兆");
    assert_eq!(from_u128_to_chinese_high(TRADITIONAL, 100000000), "一億");
}

#[test]
fn middle_groups_by_eight() {
    assert_eq!(from_u128_to_chinese_middle(TRADITIONAL, 100000000), "一億");
    assert_eq!(
        from_u128_to_chinese_middle(TRADITIONAL, 1234567890123456789),
        "一百二十三兆四千五百六十七八千九百零一億二千三百四十五六千七百八十九"
    );
    assert_eq!(
        from_u128_to_chinese_middle(NumberScript::SimplifiedChinese(LOWER), u128::MAX),
        "三百四十零二千八百二十三垓六千六百九十二零九百三十八京四千六百三十四六千三百三十七兆四千六百零七四千三百一十七亿六千八百二十一一千四百五十五"
    );
    assert_eq!(from_u32_to_chinese_middle(TRADITIONAL, 4_0000_0000), "四億");
    assert_eq!(from_u64_to_chinese_middle(TRADITIONAL, 1_0000_0000_0000_0000), "一兆");
    assert_eq!(from_usize_to_chinese_middle(TRADITIONAL, 1001), "一千零一");
    assert_eq!(from_isize_to_chinese_middle(TRADITIONAL, -1001), "負一千零一");
    assert_eq!(from_i32_to_chinese_middle(TRADITIONAL, -2_0000_0000), "負二億");
    assert_eq!(from_i64_to_chinese_middle(TRADITIONAL, -3_0000_0000_0000_0000), "負三兆");
}

#[test]
fn high_squares_each_word() {
    assert_eq!(from_u128_to_chinese_high(TRADITIONAL, 10u128.pow(16)), "一兆");
    assert_eq!(from_u128_to_chinese_high(TRADITIONAL, 10u128.pow(24)), "一億兆");
    assert_eq!(from_u128_to_chinese_high(TRADITIONAL, 10u128.pow(32)), "一京");
    assert_eq!(from_u128_to_chinese_high(TRADITIONAL, 10u128.pow(38)), "一百京");
    assert_eq!(
        from_u128_to_chinese_high(TRADITIONAL, 1234567890123456789),
        "一百二十三兆四千五百六十七八千九百零一億二千三百四十五六千七百八十九"
    );
    assert_eq!(
        from_u128_to_chinese_high(TRADITIONAL, 123456789012345678901234567890),
        "一十二三千四百五十六億七千八百九十零一千二百三十四兆五千六百七十八九千零一十二億三千四百五十六七千八百九十"
    );
    assert_eq!(
        from_u128_to_chinese_high(NumberScript::Japanese(ScriptStyle::Upper), u128::MAX),
        "参百四拾零弐千八百弐拾参京六千六百九拾弐零九百参拾八億四千六百参拾四六千参百参拾七兆四千六百零七四千参百壱拾七億六千八百弐拾壱壱千四百五拾五"
    );
    assert_eq!(from_u32_to_chinese_high(TRADITIONAL, 4_0000_0000), "四億");
    assert_eq!(from_u64_to_chinese_high(TRADITIONAL, 1_0000_0000_0000_0000), "一兆");
    assert_eq!(from_usize_to_chinese_high(TRADITIONAL, 1001), "一千零一");
    assert_eq!(from_isize_to_chinese_high(TRADITIONAL, -1001), "負一千零一");
    assert_eq!(from_i32_to_chinese_high(TRADITIONAL, -2_0000_0000), "負二億");
    assert_eq!(from_i64_to_chinese_high(TRADITIONAL, -3_0000_0000_0000_0000), "負三兆");
}

#[test]
fn least_signed_value_is_written() {
    assert_eq!(
        from_i128_to_chinese_ten_thousand(TRADITIONAL, i128::MIN),
        "負一百七十澗零一千四百一十一溝八千三百四十六穰零四百六十九秭二千三百一十七垓三千一百六十八京七千三百零三兆七千一百五十八億八千四百一十萬零五千七百二十八"
    );
    assert_eq!(from_i8_to_chinese(TRADITIONAL, i8::MIN), "負一百二十八");
    assert_eq!(from_i16_to_chinese(TRADITIONAL, i16::MIN), "負三萬二千七百六十八");
    assert_eq!(
        from_i32_to_chinese_low(TRADITIONAL, i32::MIN),
        "負二秭一垓四京七兆四億八萬三千六百四十八"
    );
    assert!(from_i128_to_chinese_middle(TRADITIONAL, i128::MIN).starts_with("負一百七十"));
    assert!(from_i128_to_chinese_high(TRADITIONAL, i128::MIN).starts_with("負一百七十"));
}

#[test]
fn japanese_keeps_traditional_ten_thousand() {
    assert_eq!(
        from_u128_to_chinese_ten_thousand(NumberScript::Japanese(ScriptStyle::Upper), 12345678),
        "壱千弐百参拾四萬五千六百七拾八"
    );
    assert_eq!(
        from_u128_to_chinese_ten_thousand(NumberScript::Japanese(LOWER), 12345678),
        "一千二百三十四萬五千六百七十八"
    );
    assert_eq!(from_u16_to_chinese(NumberScript::Japanese(ScriptStyle::Upper), 10), "壱拾");
}

#[test]
fn small_widths_use_low() {
    assert_eq!(from_u16_to_chinese(TRADITIONAL, 65535), "六萬五千五百三十五");
    assert_eq!(from_i8_to_chinese(NumberScript::SimplifiedChinese(LOWER), -1), "负一");
    assert_eq!(from_i16_to_chinese(NumberScript::Korean(LOWER), -20), "부이십");
}
