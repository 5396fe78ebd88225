use conjak_numbers::{
    ChineseExponent, ChineseNumber, ChinesePoint, ChineseSign, Glyph, NumberScript, ScriptStyle,
};

fn numbers() -> Vec<ChineseNumber> {
    vec![
        ChineseNumber::Zero,
        ChineseNumber::One,
        ChineseNumber::Two,
        ChineseNumber::Three,
        ChineseNumber::Four,
        ChineseNumber::Five,
        ChineseNumber::Six,
        ChineseNumber::Seven,
        ChineseNumber::Eight,
        ChineseNumber::Nine,
        ChineseNumber::Ten,
    ]
}

fn exponents() -> Vec<ChineseExponent> {
    vec![
        ChineseExponent::Fen,
        ChineseExponent::Jiao,
        ChineseExponent::Ge,
        ChineseExponent::Shi,
        ChineseExponent::Bai,
        ChineseExponent::Qian,
        ChineseExponent::Wan,
        ChineseExponent::Yi,
        ChineseExponent::Zhao,
        ChineseExponent::Jing,
        ChineseExponent::Gai,
        ChineseExponent::Zi,
        ChineseExponent::Rang,
        ChineseExponent::Gou,
        ChineseExponent::Jian,
        ChineseExponent::Zheng,
        ChineseExponent::Zai,
        ChineseExponent::Ji,
    ]
}

fn number_row(script: NumberScript) -> String {
    numbers().into_iter().map(|number| number.to_str(script)).collect()
}

fn exponent_row(script: NumberScript) -> String {
    exponents().into_iter().map(|word| word.to_str(script)).collect()
}

#[test]
fn table_simplified_chinese_upper() {
    let script = NumberScript::SimplifiedChinese(ScriptStyle::Upper);
    assert_eq!(number_row(script), "零壹贰叁肆伍陆柒捌玖拾");
    assert_eq!(exponent_row(script), "分角个拾佰仟万亿兆京垓秭穰沟涧正载极");
    assert_eq!(ChineseSign::Positive.to_str(script), "正");
    assert_eq!(ChineseSign::Negative.to_str(script), "负");
    assert_eq!(ChinesePoint::to_str(script), "点");
}

#[test]
fn table_simplified_chinese_lower() {
    let script = NumberScript::SimplifiedChinese(ScriptStyle::Lower { circle_as_zero: false });
    assert_eq!(number_row(script), "零一二三四五六七八九十");
    assert_eq!(exponent_row(script), "分角个十百千万亿兆京垓秭穰沟涧正载极");
    assert_eq!(ChineseSign::Positive.to_str(script), "正");
    assert_eq!(ChineseSign::Negative.to_str(script), "负");
    assert_eq!(ChinesePoint::to_str(script), "点");
}

#[test]
fn table_simplified_chinese_circle() {
    let script = NumberScript::SimplifiedChinese(ScriptStyle::Lower { circle_as_zero: true });
    assert_eq!(number_row(script), "〇一二三四五六七八九十");
    assert_eq!(exponent_row(script), "分角个十百千万亿兆京垓秭穰沟涧正载极");
    assert_eq!(ChineseSign::Positive.to_str(script), "正");
    assert_eq!(ChineseSign::Negative.to_str(script), "负");
    assert_eq!(ChinesePoint::to_str(script), "点");
}

#[test]
fn table_traditional_chinese_upper() {
    let script = NumberScript::TraditionalChinese(ScriptStyle::Upper);
    assert_eq!(number_row(script), "零壹貳參肆伍陸柒捌玖拾");
    assert_eq!(exponent_row(script), "分角個拾佰仟萬億兆京垓秭穰溝澗正載極");
    assert_eq!(ChineseSign::Positive.to_str(script), "正");
    assert_eq!(ChineseSign::Negative.to_str(script), "負");
    assert_eq!(ChinesePoint::to_str(script), "點");
}

#[test]
fn table_traditional_chinese_lower() {
    let script = NumberScript::TraditionalChinese(ScriptStyle::Lower { circle_as_zero: false });
    assert_eq!(number_row(script), "零一二三四五六七八九十");
    assert_eq!(exponent_row(script), "分角個十百千萬億兆京垓秭穰溝澗正載極");
    assert_eq!(ChineseSign::Positive.to_str(script), "正");
    assert_eq!(ChineseSign::Negative.to_str(script), "負");
    assert_eq!(ChinesePoint::to_str(script), "點");
}

#[test]
fn table_traditional_chinese_circle() {
    let script = NumberScript::TraditionalChinese(ScriptStyle::Lower { circle_as_zero: true });
    assert_eq!(number_row(script), "〇一二三四五六七八九十");
    assert_eq!(exponent_row(script), "分角個十百千萬億兆京垓秭穰溝澗正載極");
    assert_eq!(ChineseSign::Positive.to_str(script), "正");
    assert_eq!(ChineseSign::Negative.to_str(script), "負");
    assert_eq!(ChinesePoint::to_str(script), "點");
}

#[test]
fn table_japanese_upper() {
    let script = NumberScript::Japanese(ScriptStyle::Upper);
    assert_eq!(number_row(script), "零壱弐参四五六七八九拾");
    assert_eq!(exponent_row(script), "厘钱個拾百千萬億兆京垓秭穰溝澗正載極");
    assert_eq!(ChineseSign::Positive.to_str(script), "正");
    assert_eq!(ChineseSign::Negative.to_str(script), "負");
    assert_eq!(ChinesePoint::to_str(script), "点");
}

#[test]
fn table_japanese_lower() {
    let script = NumberScript::Japanese(ScriptStyle::Lower { circle_as_zero: false });
    assert_eq!(number_row(script), "零一二三四五六七八九十");
    assert_eq!(exponent_row(script), "厘钱個十百千萬億兆京垓秭穰溝澗正載極");
    assert_eq!(ChineseSign::Positive.to_str(script), "正");
    assert_eq!(ChineseSign::Negative.to_str(script), "負");
    assert_eq!(ChinesePoint::to_str(script), "点");
}

#[test]
fn table_japanese_circle() {
    let script = NumberScript::Japanese(ScriptStyle::Lower { circle_as_zero: true });
    assert_eq!(number_row(script), "〇一二三四五六七八九十");
    assert_eq!(exponent_row(script), "厘钱個十百千萬億兆京垓秭穰溝澗正載極");
    assert_eq!(ChineseSign::Positive.to_str(script), "正");
    assert_eq!(ChineseSign::Negative.to_str(script), "負");
    assert_eq!(ChinesePoint::to_str(script), "点");
}

#[test]
fn table_korean_upper() {
    let script = NumberScript::Korean(ScriptStyle::Upper);
    assert_eq!(number_row(script), "영일이삼사오육칠팔구십");
    assert_eq!(exponent_row(script), "분각개십백천만억조경해자양구간정재극");
    assert_eq!(ChineseSign::Positive.to_str(script), "정");
    assert_eq!(ChineseSign::Negative.to_str(script), "부");
    assert_eq!(ChinesePoint::to_str(script), "점");
}

#[test]
fn table_korean_lower() {
    let script = NumberScript::Korean(ScriptStyle::Lower { circle_as_zero: false });
    assert_eq!(number_row(script), "영일이삼사오육칠팔구십");
    assert_eq!(exponent_row(script), "분각개십백천만억조경해자양구간정재극");
    assert_eq!(ChineseSign::Positive.to_str(script), "정");
    assert_eq!(ChineseSign::Negative.to_str(script), "부");
    assert_eq!(ChinesePoint::to_str(script), "점");
}

#[test]
fn table_korean_circle() {
    let script = NumberScript::Korean(ScriptStyle::Lower { circle_as_zero: true });
    assert_eq!(number_row(script), "영일이삼사오육칠팔구십");
    assert_eq!(exponent_row(script), "분각개십백천만억조경해자양구간정재극");
    assert_eq!(ChineseSign::Positive.to_str(script), "정");
    assert_eq!(ChineseSign::Negative.to_str(script), "부");
    assert_eq!(ChinesePoint::to_str(script), "점");
}

#[test]
fn every_glyph_is_one_character() {
    let styles = [
        ScriptStyle::Upper,
        ScriptStyle::Lower { circle_as_zero: false },
        ScriptStyle::Lower { circle_as_zero: true },
    ];
    for style in styles {
        let scripts = [
            NumberScript::SimplifiedChinese(style),
            NumberScript::TraditionalChinese(style),
            NumberScript::Japanese(style),
            NumberScript::Korean(style),
        ];
        for script in scripts {
            for number in numbers() {
                assert_eq!(number.to_str(script).chars().count(), 1);
                assert_eq!(Glyph::Number(number).to_str(script), number.to_str(script));
            }
            for word in exponents() {
                assert_eq!(word.to_str(script).chars().count(), 1);
                assert_eq!(Glyph::Exponent(word).to_str(script), word.to_str(script));
            }
            assert_eq!(ChineseSign::Positive.to_str(script).chars().count(), 1);
            assert_eq!(ChineseSign::Negative.to_str(script).chars().count(), 1);
            assert_eq!(ChinesePoint::to_str(script).chars().count(), 1);
            assert_eq!(
                Glyph::Sign(ChineseSign::Negative).to_str(script),
                ChineseSign::Negative.to_str(script)
            );
            assert_eq!(Glyph::Point.to_str(script), ChinesePoint::to_str(script));
        }
    }
}

#[test]
fn ordinals_round_trip() {
    for (place, number) in numbers().into_iter().enumerate() {
        assert_eq!(number.ordinal() as usize, place);
        assert_eq!(ChineseNumber::from_ordinal(place as u8), Some(number));
    }
    assert_eq!(ChineseNumber::from_ordinal(11), None);
    assert_eq!(ChineseNumber::from_ordinal(255), None);
    for (place, word) in exponents().into_iter().enumerate() {
        assert_eq!(word.ordinal() as usize, place);
        assert_eq!(ChineseExponent::from_ordinal(place as u8), Some(word));
    }
    assert_eq!(ChineseExponent::from_ordinal(18), None);
}

#[test]
fn korean_zero_ignores_style() {
    assert_eq!(ChineseNumber::Zero.to_str(NumberScript::Korean(ScriptStyle::Upper)), "영");
    assert_eq!(
        ChineseNumber::Zero.to_str(NumberScript::Korean(ScriptStyle::Lower { circle_as_zero: true })),
        "영"
    );
}

#[test]
fn upper_style_writes_zero_as_character() {
    assert_eq!(
        ChineseNumber::Zero.to_str(NumberScript::SimplifiedChinese(ScriptStyle::Upper)),
        "零"
    );
    assert_eq!(
        ChineseNumber::Zero
            .to_str(NumberScript::Japanese(ScriptStyle::Lower { circle_as_zero: true })),
        "〇"
    );
}

#[test]
fn formal_japanese_replaces_the_word_for_ten() {
    let upper = NumberScript::Japanese(ScriptStyle::Upper);
    let lower = NumberScript::Japanese(ScriptStyle::Lower { circle_as_zero: false });
    assert_eq!(ChineseExponent::Shi.to_str(upper), "拾");
    assert_eq!(ChineseExponent::Shi.to_str(upper), ChineseNumber::Ten.to_str(upper));
    assert_eq!(ChineseExponent::Shi.to_str(lower), "十");
    assert_eq!(ChineseExponent::Bai.to_str(upper), "百");
    assert_eq!(ChineseExponent::Qian.to_str(upper), "千");
}

#[test]
fn only_simplified_shortens_ten_thousand() {
    let styles = [
        ScriptStyle::Upper,
        ScriptStyle::Lower { circle_as_zero: false },
        ScriptStyle::Lower { circle_as_zero: true },
    ];
    for style in styles {
        assert_eq!(ChineseExponent::Wan.to_str(NumberScript::Japanese(style)), "萬");
        assert_eq!(ChineseExponent::Wan.to_str(NumberScript::TraditionalChinese(style)), "萬");
        assert_eq!(ChineseExponent::Wan.to_str(NumberScript::SimplifiedChinese(style)), "万");
        assert_eq!(ChineseExponent::Wan.to_str(NumberScript::Korean(style)), "만");
    }
}
