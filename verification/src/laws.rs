//! What holds of every written number, whatever the script and the
//! counting method.

use vstd::arithmetic::power::pow;
use vstd::prelude::*;

use crate::chinese_case::NumberScript;
use crate::chinese_characters::{zero_glyph, ChineseNumber, ChineseSign};
use crate::chinese_count_method::ChineseCountMethod;
use crate::composer::{lemma_written_add, written};
use crate::digits::{decimal_digits, lemma_decimal_digits};
use crate::number_to_chinese::functions::{chinese_text, magnitude_of, naive_text};
use crate::planner::{
    bridge_at, digit_at, integer_plan, naive_digits_plan, naive_number_plan, number_plan,
    place_plan, plan_from, unit_at, Glyph,
};

verus! {

/// The digit glyphs of a plan, in order: what is left of it when the
/// unit words, the sign and the decimal point are taken away.
pub open spec fn numbers_only(plan: Seq<Glyph>) -> Seq<Glyph> {
    plan.filter(|glyph: Glyph| glyph is Number)
}

/// Zero is written as the one glyph for zero, with no sign and no unit
/// word, in every script, under every counting method and digit by
/// digit.
pub proof fn lemma_zero_is_one_glyph(script: NumberScript, method: ChineseCountMethod)
    ensures
        number_plan(method, false, 0, 0) == seq![Glyph::Number(ChineseNumber::Zero)],
        chinese_text(script, method, 0) == seq![zero_glyph(script)],
        naive_text(script, 0) == seq![zero_glyph(script)],
{
    let zero = seq![Glyph::Number(ChineseNumber::Zero)];
    assert(decimal_digits(0) == seq![0u8]);
    assert(number_plan(method, false, 0, 0) == zero);
    assert(naive_digits_plan(seq![0u8]) == zero);
    assert(naive_number_plan(false, 0, 0) == zero);
    assert(written(zero, script) == seq![zero_glyph(script)]);
}

/// The places from the leading one down to `p` begin with the glyph of
/// the leading digit.
proof fn lemma_plan_from_begins(method: ChineseCountMethod, digits: Seq<u8>, p: int)
    requires
        0 <= p < digits.len(),
        digits.last() != 0,
    ensures
        plan_from(method, digits, p).len() > 0,
        plan_from(method, digits, p)[0] == Glyph::Number(ChineseNumber::of(digits.last() as nat)),
    decreases digits.len() - p,
{
    let top = digits.len() - 1;
    if p == top {
        assert(plan_from(method, digits, p + 1) == Seq::<Glyph>::empty());
        assert(bridge_at(digits, p) == Seq::<Glyph>::empty());
        assert(place_plan(method, digits, p)[0] == digit_at(digits, p)[0]);
    } else {
        lemma_plan_from_begins(method, digits, p + 1);
    }
}

/// A magnitude other than zero is written beginning with the glyph of
/// its leading digit, which is not zero: never with a unit word, and
/// never with a zero.
pub proof fn lemma_begins_with_leading_digit(method: ChineseCountMethod, magnitude: nat)
    requires
        magnitude > 0,
    ensures
        decimal_digits(magnitude).last() != 0,
        integer_plan(method, magnitude).len() > 0,
        integer_plan(method, magnitude)[0] == Glyph::Number(
            ChineseNumber::of(decimal_digits(magnitude).last() as nat),
        ),
{
    lemma_decimal_digits(magnitude);
    let digits = decimal_digits(magnitude);
    if digits.len() == 1 {
        assert(digits.last() != 0) by {
            if digits.last() == 0 {
                assert(digits == seq![0u8]);
            }
        }
    }
    lemma_plan_from_begins(method, digits, 0);
}

/// Taking the unit words away from a single glyph leaves it if it is a
/// digit glyph, and nothing otherwise.
proof fn lemma_numbers_only_one(glyph: Glyph)
    ensures
        numbers_only(Seq::<Glyph>::empty()) == Seq::<Glyph>::empty(),
        numbers_only(seq![glyph]) == if glyph is Number {
            seq![glyph]
        } else {
            Seq::<Glyph>::empty()
        },
{
    reveal_with_fuel(Seq::filter, 2);
    let keep = |glyph: Glyph| glyph is Number;
    assert(seq![glyph].drop_last() == Seq::<Glyph>::empty());
    assert(Seq::<Glyph>::empty().push(glyph) == seq![glyph]);
}

/// Taking the unit words away from what one place adds leaves the
/// bridging zero and the digit, whatever the counting method.
proof fn lemma_numbers_only_place(method: ChineseCountMethod, digits: Seq<u8>, p: int)
    requires
        0 <= p < digits.len(),
    ensures
        numbers_only(place_plan(method, digits, p)) == bridge_at(digits, p) + digit_at(digits, p),
{
    let keep = |glyph: Glyph| glyph is Number;
    let bridge = bridge_at(digits, p);
    let digit = digit_at(digits, p);
    let unit = unit_at(method, digits, p);
    Seq::filter_distributes_over_add(bridge + digit, unit, keep);
    Seq::filter_distributes_over_add(bridge, digit, keep);
    lemma_numbers_only_one(Glyph::Number(ChineseNumber::Zero));
    lemma_numbers_only_one(Glyph::Number(ChineseNumber::of(digits[p] as nat)));
    if unit.len() > 0 {
        lemma_numbers_only_one(unit[0]);
        assert(unit == seq![unit[0]]);
    }
    assert(numbers_only(bridge) == bridge);
    assert(numbers_only(digit) == digit);
    assert(numbers_only(unit) == Seq::<Glyph>::empty());
    assert(bridge + digit + Seq::<Glyph>::empty() == bridge + digit);
}

/// Two counting methods write the same digit glyphs for the places from
/// the leading one down to `p`.
proof fn lemma_numbers_only_from(
    first: ChineseCountMethod,
    second: ChineseCountMethod,
    digits: Seq<u8>,
    p: int,
)
    ensures
        numbers_only(plan_from(first, digits, p)) == numbers_only(plan_from(second, digits, p)),
    decreases digits.len() - p,
{
    if 0 <= p < digits.len() {
        let keep = |glyph: Glyph| glyph is Number;
        lemma_numbers_only_from(first, second, digits, p + 1);
        lemma_numbers_only_place(first, digits, p);
        lemma_numbers_only_place(second, digits, p);
        Seq::filter_distributes_over_add(
            plan_from(first, digits, p + 1),
            place_plan(first, digits, p),
            keep,
        );
        Seq::filter_distributes_over_add(
            plan_from(second, digits, p + 1),
            place_plan(second, digits, p),
            keep,
        );
    }
}

/// With its unit words taken away, a magnitude that the Low method can
/// write shows under every counting method the digit glyphs that it shows
/// under Low, the bridging zeros among them.
pub proof fn lemma_unit_words_aside_methods_agree(method: ChineseCountMethod, magnitude: nat)
    requires
        magnitude < pow(10, 16),
    ensures
        numbers_only(integer_plan(method, magnitude)) == numbers_only(
            integer_plan(ChineseCountMethod::Low, magnitude),
        ),
{
    lemma_numbers_only_from(method, ChineseCountMethod::Low, decimal_digits(magnitude), 0);
}

/// A number other than zero and its negative are written alike, but for
/// the sign glyph that leads the negative one: under every counting
/// method and digit by digit.
pub proof fn lemma_negative_adds_sign(
    script: NumberScript,
    method: ChineseCountMethod,
    value: int,
)
    requires
        value > 0,
    ensures
        chinese_text(script, method, -value) == seq![ChineseSign::Negative.glyph(script)]
            + chinese_text(script, method, value),
        naive_text(script, -value) == seq![ChineseSign::Negative.glyph(script)] + naive_text(
            script,
            value,
        ),
{
    let sign = seq![Glyph::Sign(ChineseSign::Negative)];
    let whole = integer_plan(method, value as nat);
    let naive = naive_digits_plan(decimal_digits(value as nat));
    assert(magnitude_of(-value) == value as nat);
    assert(number_plan(method, true, value as nat, 0) == sign + whole);
    assert(number_plan(method, false, value as nat, 0) == whole);
    assert(naive_number_plan(true, value as nat, 0) == sign + naive);
    assert(naive_number_plan(false, value as nat, 0) == naive);
    lemma_written_add(sign, whole, script);
    lemma_written_add(sign, naive, script);
    assert(written(sign, script) == seq![ChineseSign::Negative.glyph(script)]);
}

/// Whether every zero glyph of a plan stands directly before the glyph
/// of a digit other than zero.
pub open spec fn zeros_are_single(plan: Seq<Glyph>) -> bool {
    forall|i: int|
        0 <= i < plan.len() && #[trigger] plan[i] == Glyph::Number(ChineseNumber::Zero) ==> i + 1
            < plan.len() && plan[i + 1] is Number && plan[i + 1] != Glyph::Number(
            ChineseNumber::Zero,
        )
}

/// Two plans in which every zero glyph stands before a digit other than
/// zero make, one after the other, such a plan again.
proof fn lemma_zeros_are_single_add(first: Seq<Glyph>, second: Seq<Glyph>)
    requires
        zeros_are_single(first),
        zeros_are_single(second),
    ensures
        zeros_are_single(first + second),
{
    let both = first + second;
    assert forall|i: int|
        0 <= i < both.len() && #[trigger] both[i] == Glyph::Number(
            ChineseNumber::Zero,
        ) implies i + 1 < both.len() && both[i + 1] is Number && both[i + 1] != Glyph::Number(
        ChineseNumber::Zero,
    ) by {
        if i < first.len() {
            assert(first[i] == both[i]);
            assert(both[i + 1] == first[i + 1]);
        } else {
            assert(second[i - first.len()] == both[i]);
            assert(both[i + 1] == second[i + 1 - first.len()]);
        }
    }
}

/// In the glyphs of the places from the leading one down to `p`, every
/// zero glyph stands before a digit other than zero.
proof fn lemma_zeros_are_single_from(method: ChineseCountMethod, digits: Seq<u8>, p: int)
    requires
        forall|q: int| 0 <= q < digits.len() ==> digits[q] < 10,
    ensures
        zeros_are_single(plan_from(method, digits, p)),
    decreases digits.len() - p,
{
    if 0 <= p < digits.len() {
        lemma_zeros_are_single_from(method, digits, p + 1);
        let place = place_plan(method, digits, p);
        assert(zeros_are_single(place)) by {
            let bridge = bridge_at(digits, p);
            let digit = digit_at(digits, p);
            let unit = unit_at(method, digits, p);
            assert(place == bridge + digit + unit);
            assert forall|i: int|
                0 <= i < place.len() && #[trigger] place[i] == Glyph::Number(
                    ChineseNumber::Zero,
                ) implies i + 1 < place.len() && place[i + 1] is Number && place[i + 1]
                != Glyph::Number(ChineseNumber::Zero) by {
                if digits[p] == 0 {
                    assert(place == unit);
                } else if bridge.len() == 0 {
                    assert(place[0] == Glyph::Number(ChineseNumber::of(digits[p] as nat)));
                } else {
                    assert(place[0] == Glyph::Number(ChineseNumber::Zero));
                    assert(place[1] == Glyph::Number(ChineseNumber::of(digits[p] as nat)));
                }
            }
        }
        lemma_zeros_are_single_add(plan_from(method, digits, p + 1), place);
    }
}

/// A run of zeros between two other digits is written as one zero glyph
/// and never as more: in the glyphs of a magnitude other than zero, each
/// zero glyph is followed at once by the glyph of a digit other than
/// zero.
pub proof fn lemma_zero_is_never_doubled(method: ChineseCountMethod, magnitude: nat)
    requires
        magnitude > 0,
    ensures
        zeros_are_single(integer_plan(method, magnitude)),
{
    lemma_decimal_digits(magnitude);
    lemma_zeros_are_single_from(method, decimal_digits(magnitude), 0);
}

} // verus!
