//! Which glyphs write a magnitude, and in what order: its digits, a zero
//! where zeros are bridged, and the unit words that the counting method
//! places behind them.

use vstd::prelude::*;

use crate::chinese_case::NumberScript;
use crate::chinese_characters::{
    point_glyph, ChineseExponent, ChineseNumber, ChinesePoint, ChineseSign,
};
use crate::chinese_count_method::ChineseCountMethod;
use crate::digits::{decimal_digits, is_decimal};

verus! {

/// One glyph of a written number, before a script is chosen.
#[derive(Debug, Copy, Clone, Eq, PartialEq, Hash, Structural)]
pub enum Glyph {
    Number(ChineseNumber),
    Exponent(ChineseExponent),
    Sign(ChineseSign),
    Point,
}

impl Glyph {
    /// The character that writes the glyph in a script.
    pub open spec fn glyph(self, script: NumberScript) -> char {
        match self {
            Glyph::Number(number) => number.glyph(script),
            Glyph::Exponent(word) => word.glyph(script),
            Glyph::Sign(sign) => sign.glyph(script),
            Glyph::Point => point_glyph(script),
        }
    }

    /// The text of the glyph in a script: always one character.
    pub fn to_str(self, number_script: NumberScript) -> (s: &'static str)
        ensures
            s@ == seq![self.glyph(number_script)],
    {
        match self {
            Glyph::Number(number) => number.to_str(number_script),
            Glyph::Exponent(word) => word.to_str(number_script),
            Glyph::Sign(sign) => sign.to_str(number_script),
            Glyph::Point => ChinesePoint::to_str(number_script),
        }
    }
}

/// How often two divides `m`, counted up to `cap`.
pub open spec fn halvings(m: nat, cap: nat) -> nat
    decreases cap,
{
    if cap == 0 || m % 2 == 1 {
        0
    } else {
        1 + halvings(m / 2, (cap - 1) as nat)
    }
}

/// Eight, doubled `rank` times.
pub open spec fn doubled_eight(rank: nat) -> nat
    decreases rank,
{
    if rank == 0 {
        8
    } else {
        2 * doubled_eight((rank - 1) as nat)
    }
}

/// Eight doubled up to ten times, by the number of doublings.
pub proof fn lemma_doubled_eight()
    ensures
        doubled_eight(0) == 8,
        doubled_eight(1) == 16,
        doubled_eight(2) == 32,
        doubled_eight(3) == 64,
        doubled_eight(4) == 128,
        doubled_eight(5) == 256,
        doubled_eight(6) == 512,
        doubled_eight(7) == 1024,
        doubled_eight(8) == 2048,
        doubled_eight(9) == 4096,
        doubled_eight(10) == 8192,
{
    reveal_with_fuel(doubled_eight, 11);
}

/// The word for ten, a hundred or a thousand behind a place that is not
/// the lowest of its span of four.
pub open spec fn small_word(p: nat) -> ChineseExponent
    recommends
        p % 4 != 0,
{
    ChineseExponent::of(p % 4 + 2)
}

/// The unit word that a counting method writes behind place `p` (the
/// ones place is 0), if it writes one.
///
/// * Low: every place has a word of its own, one decimal order above the
///   one before, up to the sixteenth place.
/// * TenThousand: within a span of four places, ten, hundred and
///   thousand; behind the lowest place of the `g`-th span above the first,
///   the `g`-th large word.
/// * Middle: spans of four places as before, with no word between the
///   two spans of a group of eight; behind the lowest place of the `g`-th
///   group above the first, the `g`-th large word after the first.
/// * High: as Middle within a group of eight; behind the lowest place of
///   the `m`-th group above the first, the word whose rank is the number
///   of times that two divides `m`, the largest word for every rank from
///   ten on.
pub open spec fn unit_word(method: ChineseCountMethod, p: nat) -> Option<ChineseExponent> {
    match method {
        ChineseCountMethod::Low => if 1 <= p <= 15 {
            Some(ChineseExponent::of(p + 2))
        } else {
            None
        },
        ChineseCountMethod::TenThousand => if p % 4 != 0 {
            Some(small_word(p))
        } else if 1 <= p / 4 <= 12 {
            Some(ChineseExponent::of(p / 4 + 5))
        } else {
            None
        },
        ChineseCountMethod::Middle => if p % 4 != 0 {
            Some(small_word(p))
        } else if p % 8 == 0 && 1 <= p / 8 <= 11 {
            Some(ChineseExponent::of(p / 8 + 6))
        } else {
            None
        },
        ChineseCountMethod::High => if p % 4 != 0 {
            Some(small_word(p))
        } else if p % 8 == 0 && p >= 8 {
            Some(ChineseExponent::of(7 + halvings(p / 8, 10)))
        } else {
            None
        },
    }
}

/// For how many places, from `p` upwards, the unit word behind place `p`
/// speaks; `None` where it speaks for every place from `p` on. A word for
/// one digit speaks for its own place, a word for a group for the whole
/// group. Under High the word of rank `r` speaks for eight places doubled
/// `r` times, and the largest word for all that is left.
pub open spec fn unit_span(method: ChineseCountMethod, p: nat) -> Option<nat> {
    if p % 4 != 0 {
        Some(1)
    } else {
        match method {
            ChineseCountMethod::Low => Some(1),
            ChineseCountMethod::TenThousand => Some(4),
            ChineseCountMethod::Middle => Some(8),
            ChineseCountMethod::High => if halvings(p / 8, 10) < 10 {
                Some(doubled_eight(halvings(p / 8, 10)))
            } else {
                None
            },
        }
    }
}

/// Whether a digit other than zero stands at one of the places from
/// `from` up to, but not including, `to`.
pub open spec fn has_nonzero(digits: Seq<u8>, from: int, to: int) -> bool {
    exists|q: int| from <= q < to && 0 <= q < digits.len() && digits[q] != 0
}

/// Whether the unit word behind place `p` is written: it is where the
/// places it speaks for do not all hold zero.
pub open spec fn unit_due(method: ChineseCountMethod, digits: Seq<u8>, p: int) -> bool {
    match unit_span(method, p as nat) {
        Some(span) => has_nonzero(digits, p, p + span),
        None => has_nonzero(digits, p, digits.len() as int),
    }
}

/// The zero that bridges a run of zeros: it is written before a digit
/// other than zero whose next higher place holds zero.
pub open spec fn bridge_at(digits: Seq<u8>, p: int) -> Seq<Glyph> {
    if digits[p] != 0 && p + 1 < digits.len() && digits[p + 1] == 0 {
        seq![Glyph::Number(ChineseNumber::Zero)]
    } else {
        Seq::empty()
    }
}

/// The glyph of the digit at place `p`; a zero has none.
pub open spec fn digit_at(digits: Seq<u8>, p: int) -> Seq<Glyph> {
    if digits[p] != 0 {
        seq![Glyph::Number(ChineseNumber::of(digits[p] as nat))]
    } else {
        Seq::empty()
    }
}

/// The unit word behind place `p`, where the method has one and it is
/// due.
pub open spec fn unit_at(method: ChineseCountMethod, digits: Seq<u8>, p: int) -> Seq<Glyph> {
    match unit_word(method, p as nat) {
        Some(word) => if unit_due(method, digits, p) {
            seq![Glyph::Exponent(word)]
        } else {
            Seq::empty()
        },
        None => Seq::empty(),
    }
}

/// What place `p` adds to the written number: the bridging zero, the
/// digit, the unit word.
pub open spec fn place_plan(method: ChineseCountMethod, digits: Seq<u8>, p: int) -> Seq<Glyph> {
    bridge_at(digits, p) + digit_at(digits, p) + unit_at(method, digits, p)
}

/// The glyphs of the places from the leading one down to `p`.
pub open spec fn plan_from(method: ChineseCountMethod, digits: Seq<u8>, p: int) -> Seq<Glyph>
    decreases digits.len() - p,
{
    if p < 0 || p >= digits.len() {
        Seq::empty()
    } else {
        plan_from(method, digits, p + 1) + place_plan(method, digits, p)
    }
}

/// The glyphs that write the digits of a magnitude under a counting
/// method, leading place first. Zero is the one glyph for zero.
pub open spec fn digits_plan(method: ChineseCountMethod, digits: Seq<u8>) -> Seq<Glyph> {
    if digits == seq![0u8] {
        seq![Glyph::Number(ChineseNumber::Zero)]
    } else {
        plan_from(method, digits, 0)
    }
}

/// The glyphs that write a magnitude under a counting method.
pub open spec fn integer_plan(method: ChineseCountMethod, n: nat) -> Seq<Glyph> {
    digits_plan(method, decimal_digits(n))
}

/// Whether what a strategy found behind a place is what the counting
/// method writes there: the same word, speaking for as many places.
pub open spec fn is_unit_of(
    unit: Option<(ChineseExponent, Option<usize>)>,
    method: ChineseCountMethod,
    p: nat,
) -> bool {
    match unit {
        Some((word, span)) => {
            &&& unit_word(method, p) == Some(word)
            &&& match span {
                Some(places) => unit_span(method, p) == Some(places as nat),
                None => unit_span(method, p) is None,
            }
        },
        None => unit_word(method, p) is None,
    }
}

/// The unit word behind a place and the number of places it speaks for
/// (`None`: all from there on), by the counting method.
pub fn unit_behind(method: ChineseCountMethod, p: usize) -> (unit: Option<
    (ChineseExponent, Option<usize>),
>)
    ensures
        is_unit_of(unit, method, p as nat),
{
    match method {
        ChineseCountMethod::Low => low_unit(p),
        ChineseCountMethod::TenThousand => ten_thousand_unit(p),
        ChineseCountMethod::Middle => middle_unit(p),
        ChineseCountMethod::High => high_unit(p),
    }
}

/// The word for ten, a hundred or a thousand behind a place that is not
/// the lowest of its span of four.
fn small_unit(p: usize) -> (unit: Option<(ChineseExponent, Option<usize>)>)
    requires
        p % 4 != 0,
    ensures
        unit == Some((small_word(p as nat), Some(1usize))),
{
    let place: u8 = (p % 4 + 2) as u8;
    Some((ChineseExponent::from_ordinal(place).unwrap(), Some(1)))
}

/// Low: the word of a place is the one that many decimal orders up.
pub fn low_unit(p: usize) -> (unit: Option<(ChineseExponent, Option<usize>)>)
    ensures
        is_unit_of(unit, ChineseCountMethod::Low, p as nat),
{
    if 1 <= p && p <= 15 {
        let place: u8 = (p + 2) as u8;
        Some((ChineseExponent::from_ordinal(place).unwrap(), Some(1)))
    } else {
        None
    }
}

/// TenThousand: ten, hundred and thousand within a span of four places,
/// and a large word behind the lowest place of each span above the
/// first.
pub fn ten_thousand_unit(p: usize) -> (unit: Option<(ChineseExponent, Option<usize>)>)
    ensures
        is_unit_of(unit, ChineseCountMethod::TenThousand, p as nat),
{
    let group: usize = p / 4;
    if p % 4 != 0 {
        small_unit(p)
    } else if 1 <= group && group <= 12 {
        let place: u8 = (group + 5) as u8;
        Some((ChineseExponent::from_ordinal(place).unwrap(), Some(4)))
    } else {
        None
    }
}

/// Middle: ten, hundred and thousand within a span of four places, and
/// a large word behind the lowest place of each group of eight above the
/// first.
pub fn middle_unit(p: usize) -> (unit: Option<(ChineseExponent, Option<usize>)>)
    ensures
        is_unit_of(unit, ChineseCountMethod::Middle, p as nat),
{
    let group: usize = p / 8;
    if p % 4 != 0 {
        small_unit(p)
    } else if p % 8 == 0 && 1 <= group && group <= 11 {
        let place: u8 = (group + 6) as u8;
        Some((ChineseExponent::from_ordinal(place).unwrap(), Some(8)))
    } else {
        None
    }
}

/// High: ten, hundred and thousand within a span of four places, and
/// behind the lowest place of each group of eight above the first the
/// word whose rank is the number of times that two divides the number of
/// the group.
pub fn high_unit(p: usize) -> (unit: Option<(ChineseExponent, Option<usize>)>)
    ensures
        is_unit_of(unit, ChineseCountMethod::High, p as nat),
{
    if p % 4 != 0 {
        return small_unit(p);
    }
    if p % 8 != 0 || p < 8 {
        return None;
    }
    let mut group: usize = p / 8;
    let mut rank: u8 = 0;
    let mut places: usize = 8;
    while rank < 10 && group % 2 == 0
        invariant
            rank <= 10,
            places == doubled_eight(rank as nat),
            halvings((p / 8) as nat, 10) == rank + halvings(group as nat, (10 - rank) as nat),
        decreases 10 - rank,
    {
        proof {
            lemma_doubled_eight();
        }
        group = group / 2;
        rank = rank + 1;
        places = places * 2;
    }
    let word = ChineseExponent::from_ordinal(7 + rank).unwrap();
    if rank < 10 {
        Some((word, Some(places)))
    } else {
        Some((word, None))
    }
}

/// Whether a digit other than zero stands at one of the `span` places
/// from `from` upwards, or at any place from there on where `span` is
/// `None`.
fn any_nonzero(digits: &Vec<u8>, from: usize, span: Option<usize>) -> (found: bool)
    requires
        from < digits.len(),
    ensures
        found == match span {
            Some(places) => has_nonzero(digits@, from as int, from + places),
            None => has_nonzero(digits@, from as int, digits.len() as int),
        },
{
    let end: usize = match span {
        Some(places) => if places < digits.len() - from {
            from + places
        } else {
            digits.len()
        },
        None => digits.len(),
    };
    let mut q: usize = from;
    while q < end
        invariant
            from <= q <= end <= digits.len(),
            span matches Some(places) ==> end == from + places || (end == digits.len() && end
                <= from + places),
            span is None ==> end == digits.len(),
            !has_nonzero(digits@, from as int, q as int),
        decreases end - q,
    {
        if digits[q] != 0 {
            assert(digits@[q as int] != 0);
            return true;
        }
        q = q + 1;
    }
    false
}

/// The glyphs that write the decimal digits of a magnitude under a
/// counting method, leading place first.
pub fn plan_digits(method: ChineseCountMethod, digits: &Vec<u8>) -> (plan: Vec<Glyph>)
    requires
        is_decimal(digits@),
    ensures
        plan@ == digits_plan(method, digits@),
{
    let mut plan: Vec<Glyph> = Vec::new();
    if digits.len() == 1 && digits[0] == 0 {
        plan.push(Glyph::Number(ChineseNumber::Zero));
        assert(digits@ == seq![0u8]);
        return plan;
    }
    assert(digits@ != seq![0u8]) by {
        if digits@ == seq![0u8] {
            assert(digits@.len() == 1 && digits@[0] == 0);
        }
    }
    let mut p: usize = digits.len();
    while p > 0
        invariant
            p <= digits.len(),
            is_decimal(digits@),
            plan@ == plan_from(method, digits@, p as int),
        decreases p,
    {
        p = p - 1;
        let ghost before = plan@;
        let digit: u8 = digits[p];
        if digit != 0 {
            if p + 1 < digits.len() && digits[p + 1] == 0 {
                plan.push(Glyph::Number(ChineseNumber::Zero));
            }
            plan.push(Glyph::Number(ChineseNumber::from_ordinal(digit).unwrap()));
        }
        assert(plan@ == before + bridge_at(digits@, p as int) + digit_at(digits@, p as int));
        match unit_behind(method, p) {
            Some((word, span)) => {
                if any_nonzero(digits, p, span) {
                    plan.push(Glyph::Exponent(word));
                }
            },
            None => {},
        }
        assert(plan@ == before + place_plan(method, digits@, p as int));
    }
    plan
}

/// The sign before a number: the glyph for minus before a negative one,
/// nothing otherwise.
pub open spec fn sign_plan(negative: bool) -> Seq<Glyph> {
    if negative {
        seq![Glyph::Sign(ChineseSign::Negative)]
    } else {
        Seq::empty()
    }
}

/// The glyphs behind the whole part for a fraction of so many
/// hundredths: nothing for none; else the decimal point, the digit of
/// the tenths with its unit word and, unless it is zero, the digit of the
/// hundredths with its unit word.
pub open spec fn fraction_plan(hundredths: nat) -> Seq<Glyph>
    recommends
        hundredths < 100,
{
    if hundredths == 0 {
        Seq::empty()
    } else if hundredths % 10 == 0 {
        seq![
            Glyph::Point,
            Glyph::Number(ChineseNumber::of(hundredths / 10)),
            Glyph::Exponent(ChineseExponent::Jiao),
        ]
    } else {
        seq![
            Glyph::Point,
            Glyph::Number(ChineseNumber::of(hundredths / 10)),
            Glyph::Exponent(ChineseExponent::Jiao),
            Glyph::Number(ChineseNumber::of(hundredths % 10)),
            Glyph::Exponent(ChineseExponent::Fen),
        ]
    }
}

/// The glyphs that write a number under a counting method: its sign, its
/// whole part, its hundredths.
pub open spec fn number_plan(
    method: ChineseCountMethod,
    negative: bool,
    whole: nat,
    hundredths: nat,
) -> Seq<Glyph> {
    sign_plan(negative) + integer_plan(method, whole) + fraction_plan(hundredths)
}

/// The glyphs that write decimal digits one by one, leading place first,
/// with no unit word.
pub open spec fn naive_digits_plan(digits: Seq<u8>) -> Seq<Glyph> {
    Seq::new(
        digits.len(),
        |i: int| Glyph::Number(ChineseNumber::of(digits[digits.len() - 1 - i] as nat)),
    )
}

/// The glyphs behind the whole part for a fraction of so many
/// hundredths, digit by digit: nothing for none; else the decimal point,
/// the digit of the tenths and, unless it is zero, the digit of the
/// hundredths.
pub open spec fn naive_fraction_plan(hundredths: nat) -> Seq<Glyph>
    recommends
        hundredths < 100,
{
    if hundredths == 0 {
        Seq::empty()
    } else if hundredths % 10 == 0 {
        seq![Glyph::Point, Glyph::Number(ChineseNumber::of(hundredths / 10))]
    } else {
        seq![
            Glyph::Point,
            Glyph::Number(ChineseNumber::of(hundredths / 10)),
            Glyph::Number(ChineseNumber::of(hundredths % 10)),
        ]
    }
}

/// The glyphs that write a number digit by digit: its sign, the digits
/// of its whole part, those of its hundredths.
pub open spec fn naive_number_plan(negative: bool, whole: nat, hundredths: nat) -> Seq<Glyph> {
    sign_plan(negative) + naive_digits_plan(decimal_digits(whole)) + naive_fraction_plan(
        hundredths,
    )
}

/// The glyphs that write decimal digits one by one, leading place first.
pub fn plan_digits_naive(digits: &Vec<u8>) -> (plan: Vec<Glyph>)
    requires
        is_decimal(digits@),
    ensures
        plan@ == naive_digits_plan(digits@),
{
    let mut plan: Vec<Glyph> = Vec::new();
    let mut p: usize = digits.len();
    while p > 0
        invariant
            p <= digits.len(),
            is_decimal(digits@),
            plan@.len() == digits.len() - p,
            forall|i: int|
                0 <= i < plan@.len() ==> plan@[i] == Glyph::Number(
                    ChineseNumber::of(digits@[digits.len() - 1 - i] as nat),
                ),
        decreases p,
    {
        p = p - 1;
        plan.push(Glyph::Number(ChineseNumber::from_ordinal(digits[p]).unwrap()));
    }
    plan
}

/// The sign before a number.
pub fn plan_sign(negative: bool) -> (plan: Vec<Glyph>)
    ensures
        plan@ == sign_plan(negative),
{
    let mut plan: Vec<Glyph> = Vec::new();
    if negative {
        plan.push(Glyph::Sign(ChineseSign::Negative));
    }
    plan
}

/// The glyphs of a fraction of so many hundredths, with or without the
/// unit words behind its digits.
pub fn plan_fraction(hundredths: u8, with_units: bool) -> (plan: Vec<Glyph>)
    requires
        hundredths < 100,
    ensures
        plan@ == if with_units {
            fraction_plan(hundredths as nat)
        } else {
            naive_fraction_plan(hundredths as nat)
        },
{
    let mut plan: Vec<Glyph> = Vec::new();
    if hundredths > 0 {
        plan.push(Glyph::Point);
        plan.push(Glyph::Number(ChineseNumber::from_ordinal(hundredths / 10).unwrap()));
        if with_units {
            plan.push(Glyph::Exponent(ChineseExponent::Jiao));
        }
        let last: u8 = hundredths % 10;
        if last > 0 {
            plan.push(Glyph::Number(ChineseNumber::from_ordinal(last).unwrap()));
            if with_units {
                plan.push(Glyph::Exponent(ChineseExponent::Fen));
            }
        }
    }
    plan
}

/// The glyphs that write a number: its sign, the digits of its whole
/// part, under a counting method or one by one where none is given, and
/// its hundredths in the same manner.
pub fn plan_number(
    method: Option<ChineseCountMethod>,
    negative: bool,
    digits: &Vec<u8>,
    hundredths: u8,
) -> (plan: Vec<Glyph>)
    requires
        is_decimal(digits@),
        hundredths < 100,
    ensures
        plan@ == match method {
            Some(method) => sign_plan(negative) + digits_plan(method, digits@) + fraction_plan(
                hundredths as nat,
            ),
            None => sign_plan(negative) + naive_digits_plan(digits@) + naive_fraction_plan(
                hundredths as nat,
            ),
        },
{
    let mut plan = plan_sign(negative);
    let mut whole = match method {
        Some(method) => plan_digits(method, digits),
        None => plan_digits_naive(digits),
    };
    let mut fraction = plan_fraction(hundredths, method.is_some());
    plan.append(&mut whole);
    plan.append(&mut fraction);
    plan
}

} // verus!
