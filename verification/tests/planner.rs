use conjak_numbers::planner::{plan_digits_naive, plan_fraction, plan_sign, unit_behind};
use conjak_numbers::{
    compose, decompose, plan_digits, plan_number, ChineseCountMethod, ChineseExponent,
    ChineseNumber, ChineseSign, Glyph, NumberScript, ScriptStyle,
};

fn number(n: u8) -> Glyph {
    Glyph::Number(ChineseNumber::from_ordinal(n).unwrap())
}

#[test]
fn plan_of_one_thousand_and_two() {
    let plan = plan_digits(ChineseCountMethod::TenThousand, &decompose(1002));
    assert_eq!(
        plan,
        vec![number(1), Glyph::Exponent(ChineseExponent::Qian), number(0), number(2)]
    );
}

#[test]
fn plan_of_group_words() {
    let digits = decompose(3_0000_0020_0000);
    assert_eq!(
        plan_digits(ChineseCountMethod::TenThousand, &digits),
        vec![
            number(3),
            Glyph::Exponent(ChineseExponent::Zhao),
            number(0),
            number(2),
            Glyph::Exponent(ChineseExponent::Shi),
            Glyph::Exponent(ChineseExponent::Wan),
        ]
    );
    assert_eq!(
        plan_digits(ChineseCountMethod::Middle, &digits),
        vec![
            number(3),
            Glyph::Exponent(ChineseExponent::Yi),
            number(0),
            number(2),
            Glyph::Exponent(ChineseExponent::Shi),
        ]
    );
    assert_eq!(
        plan_digits(ChineseCountMethod::Low, &digits),
        vec![
            number(3),
            Glyph::Exponent(ChineseExponent::Jian),
            number(0),
            number(2),
            Glyph::Exponent(ChineseExponent::Yi),
        ]
    );
}

#[test]
fn unit_words_by_place() {
    assert_eq!(unit_behind(ChineseCountMethod::Low, 0), None);
    assert_eq!(unit_behind(ChineseCountMethod::Low, 1), Some((ChineseExponent::Shi, Some(1))));
    assert_eq!(unit_behind(ChineseCountMethod::Low, 4), Some((ChineseExponent::Wan, Some(1))));
    assert_eq!(unit_behind(ChineseCountMethod::Low, 15), Some((ChineseExponent::Ji, Some(1))));
    assert_eq!(unit_behind(ChineseCountMethod::Low, 16), None);
    assert_eq!(
        unit_behind(ChineseCountMethod::TenThousand, 4),
        Some((ChineseExponent::Wan, Some(4)))
    );
    assert_eq!(
        unit_behind(ChineseCountMethod::TenThousand, 7),
        Some((ChineseExponent::Qian, Some(1)))
    );
    assert_eq!(
        unit_behind(ChineseCountMethod::TenThousand, 48),
        Some((ChineseExponent::Ji, Some(4)))
    );
    assert_eq!(unit_behind(ChineseCountMethod::TenThousand, 52), None);
    assert_eq!(unit_behind(ChineseCountMethod::Middle, 4), None);
    assert_eq!(
        unit_behind(ChineseCountMethod::Middle, 5),
        Some((ChineseExponent::Shi, Some(1)))
    );
    assert_eq!(unit_behind(ChineseCountMethod::Middle, 8), Some((ChineseExponent::Yi, Some(8))));
    assert_eq!(
        unit_behind(ChineseCountMethod::Middle, 24),
        Some((ChineseExponent::Jing, Some(8)))
    );
    assert_eq!(unit_behind(ChineseCountMethod::Middle, 88), Some((ChineseExponent::Ji, Some(8))));
    assert_eq!(unit_behind(ChineseCountMethod::Middle, 96), None);
    assert_eq!(unit_behind(ChineseCountMethod::High, 4), None);
    assert_eq!(unit_behind(ChineseCountMethod::High, 8), Some((ChineseExponent::Yi, Some(8))));
    assert_eq!(unit_behind(ChineseCountMethod::High, 16), Some((ChineseExponent::Zhao, Some(16))));
    assert_eq!(unit_behind(ChineseCountMethod::High, 24), Some((ChineseExponent::Yi, Some(8))));
    assert_eq!(unit_behind(ChineseCountMethod::High, 32), Some((ChineseExponent::Jing, Some(32))));
    assert_eq!(
        unit_behind(ChineseCountMethod::High, 4096),
        Some((ChineseExponent::Zai, Some(4096)))
    );
    assert_eq!(unit_behind(ChineseCountMethod::High, 8192), Some((ChineseExponent::Ji, None)));
    assert_eq!(unit_behind(ChineseCountMethod::High, 16384), Some((ChineseExponent::Ji, None)));
    assert_eq!(
        unit_behind(ChineseCountMethod::High, 8192 + 64),
        Some((ChineseExponent::Gai, Some(64)))
    );
}

#[test]
fn sign_and_fraction_plans() {
    assert_eq!(plan_sign(false), vec![]);
    assert_eq!(plan_sign(true), vec![Glyph::Sign(ChineseSign::Negative)]);
    assert_eq!(plan_fraction(0, true), vec![]);
    assert_eq!(plan_fraction(0, false), vec![]);
    assert_eq!(
        plan_fraction(70, true),
        vec![Glyph::Point, number(7), Glyph::Exponent(ChineseExponent::Jiao)]
    );
    assert_eq!(
        plan_fraction(7, true),
        vec![
            Glyph::Point,
            number(0),
            Glyph::Exponent(ChineseExponent::Jiao),
            number(7),
            Glyph::Exponent(ChineseExponent::Fen),
        ]
    );
    assert_eq!(plan_fraction(70, false), vec![Glyph::Point, number(7)]);
    assert_eq!(plan_fraction(7, false), vec![Glyph::Point, number(0), number(7)]);
    assert_eq!(plan_digits_naive(&decompose(120)), vec![number(1), number(2), number(0)]);
}

#[test]
fn plan_number_joins_the_parts() {
    let digits = decompose(12);
    assert_eq!(
        plan_number(Some(ChineseCountMethod::High), true, &digits, 34),
        vec![
            Glyph::Sign(ChineseSign::Negative),
            number(1),
            Glyph::Exponent(ChineseExponent::Shi),
            number(2),
            Glyph::Point,
            number(3),
            Glyph::Exponent(ChineseExponent::Jiao),
            number(4),
            Glyph::Exponent(ChineseExponent::Fen),
        ]
    );
    assert_eq!(
        plan_number(None, true, &digits, 34),
        vec![
            Glyph::Sign(ChineseSign::Negative),
            number(1),
            number(2),
            Glyph::Point,
            number(3),
            number(4),
        ]
    );
}

#[test]
fn compose_writes_one_character_for_each_glyph() {
    let script = NumberScript::Korean(ScriptStyle::Upper);
    let plan = vec![
        Glyph::Sign(ChineseSign::Negative),
        number(9),
        Glyph::Exponent(ChineseExponent::Gou),
        Glyph::Point,
        number(10),
    ];
    assert_eq!(compose(script, &plan), "부구구점십");
    assert_eq!(compose(script, &Vec::new()), "");
}
