//! A number in Arabic digits, cut into groups of four by the words for
//! the large units.

use vstd::prelude::*;
use vstd::string::*;

use crate::digits::{decimal_digits, decompose};

verus! {

/// Why a number could not be cut into groups.
#[derive(Debug, Eq, PartialEq)]
pub enum SeparatorError {
    /// No words are known for the language.
    UnsupportedLanguage { lang: String, region: String },
    /// A region was given without a language.
    RegionWithoutLanguage,
    /// Neither a language nor words to separate by were given.
    NothingToSeparateBy,
}

impl SeparatorError {
    /// The words that describe the error.
    pub open spec fn message(self) -> Seq<char> {
        match self {
            SeparatorError::UnsupportedLanguage { lang, region } => "Unsupported language/region: "@
                + lang@ + "/"@ + region@,
            SeparatorError::RegionWithoutLanguage => "You must provide a language if you provide a region"@,
            SeparatorError::NothingToSeparateBy => "You must provide either lang/region pair or custom separators"@,
        }
    }

    /// The words that describe the error.
    pub fn to_string(&self) -> (text: String)
        ensures
            text@ == self.message(),
    {
        match self {
            SeparatorError::UnsupportedLanguage { lang, region } => {
                let mut text = String::from_str("Unsupported language/region: ");
                text.append(lang.as_str());
                text.append("/");
                text.append(region.as_str());
                text
            },
            SeparatorError::RegionWithoutLanguage => String::from_str(
                "You must provide a language if you provide a region",
            ),
            SeparatorError::NothingToSeparateBy => String::from_str(
                "You must provide either lang/region pair or custom separators",
            ),
        }
    }
}

/// The sets of words that separate groups of four digits: one for
/// Japanese, one for Korean, and for Chinese one in simplified and one in
/// traditional characters.
#[derive(Debug, Copy, Clone, Eq, PartialEq, Hash, Structural)]
pub enum SeparatorSet {
    Japanese,
    Korean,
    SimplifiedChinese,
    TraditionalChinese,
}

/// The set of words for a language and a region: Japanese, Korean, and
/// for Chinese the traditional characters in Hong Kong, Macao and Taiwan,
/// the simplified ones everywhere else.
pub open spec fn separator_set(lang: Seq<char>, region: Seq<char>) -> Option<SeparatorSet> {
    if lang == "ja"@ {
        Some(SeparatorSet::Japanese)
    } else if lang == "ko"@ {
        Some(SeparatorSet::Korean)
    } else if lang == "zh"@ {
        if region == "HK"@ || region == "MO"@ || region == "TW"@ {
            Some(SeparatorSet::TraditionalChinese)
        } else {
            Some(SeparatorSet::SimplifiedChinese)
        }
    } else {
        None
    }
}

/// The twelve words of a set, from the one for ten thousand up, one
/// character each. The sets are those of the separators alone: the
/// Japanese one begins with the short form of ten thousand.
pub open spec fn separator_row(set: SeparatorSet) -> Seq<char> {
    match set {
        SeparatorSet::Japanese => "万億兆京垓秭穰溝澗正載極"@,
        SeparatorSet::Korean => "만억조경해자양구간정재극"@,
        SeparatorSet::SimplifiedChinese => "万亿兆京垓秭穰沟涧正载极"@,
        SeparatorSet::TraditionalChinese => "萬億兆京垓秭穰溝澗正載極"@,
    }
}

/// The twelve words of a set, in ascending order, each as a text of one
/// character.
pub open spec fn separator_words(set: SeparatorSet) -> Seq<Seq<char>> {
    Seq::new(12, |i: int| seq![separator_row(set)[i]])
}

/// The texts that strings hold, in order.
pub open spec fn texts(words: Seq<String>) -> Seq<Seq<char>> {
    words.map_values(|word: String| word@)
}

/// The character of a decimal digit.
pub open spec fn digit_char(digit: u8) -> char
    recommends
        digit < 10,
{
    "0123456789"@[digit as int]
}

/// A number in Arabic digits, with no leading zero.
pub open spec fn decimal_chars(n: nat) -> Seq<char> {
    Seq::new(
        decimal_digits(n).len(),
        |i: int| digit_char(decimal_digits(n)[decimal_digits(n).len() - 1 - i]),
    )
}

/// The word written behind the group of four digits that is `step`
/// groups above the lowest: the `step`-th of the words given, nothing
/// behind the lowest group and nothing where the words run out.
pub open spec fn separator_behind(separators: Seq<Seq<char>>, step: nat) -> Seq<char> {
    if 1 <= step <= separators.len() {
        separators[step - 1]
    } else {
        Seq::empty()
    }
}

/// The text of the groups of a number, highest first, where its lowest
/// group stands `step` groups above the ones: each group that is not
/// zero in Arabic digits without leading zeros, followed by its word; a
/// group of zero leaves nothing.
pub open spec fn separated_from(value: nat, separators: Seq<Seq<char>>, step: nat) -> Seq<char>
    decreases value,
{
    if value == 0 {
        Seq::empty()
    } else if value % 10000 == 0 {
        separated_from(value / 10000, separators, step + 1)
    } else {
        separated_from(value / 10000, separators, step + 1) + decimal_chars(value % 10000)
            + separator_behind(separators, step)
    }
}

/// A number cut into groups of four digits by the words given; zero is
/// the digit 0.
pub open spec fn separated(value: nat, separators: Seq<Seq<char>>) -> Seq<char> {
    if value == 0 {
        seq!['0']
    } else {
        separated_from(value, separators, 0)
    }
}

/// The most that can be left of a 64-bit number after so many groups of
/// four digits were cut from it.
pub open spec fn left_after(step: nat) -> nat {
    if step == 0 {
        0xffff_ffff_ffff_ffff
    } else if step == 1 {
        1844674407370955
    } else if step == 2 {
        184467440737
    } else if step == 3 {
        18446744
    } else if step == 4 {
        1844
    } else {
        0
    }
}

/// Whether two texts are the same.
fn same_text(first: &str, second: &str) -> (same: bool)
    ensures
        same == (first@ == second@),
{
    let first_owned: String = first.to_owned();
    let second_owned: String = second.to_owned();
    first_owned == second_owned
}

/// The text of a decimal digit.
fn digit_str(digit: u8) -> (s: &'static str)
    requires
        digit < 10,
    ensures
        s@ == seq![digit_char(digit)],
{
    proof {
        reveal_strlit("0123456789");
        reveal_strlit("0");
        reveal_strlit("1");
        reveal_strlit("2");
        reveal_strlit("3");
        reveal_strlit("4");
        reveal_strlit("5");
        reveal_strlit("6");
        reveal_strlit("7");
        reveal_strlit("8");
        reveal_strlit("9");
    }
    match digit {
        0 => "0",
        1 => "1",
        2 => "2",
        3 => "3",
        4 => "4",
        5 => "5",
        6 => "6",
        7 => "7",
        8 => "8",
        _ => "9",
    }
}

/// A number in Arabic digits, with no leading zero.
pub fn decimal_text(value: u64) -> (text: String)
    ensures
        text@ == decimal_chars(value as nat),
{
    let digits = decompose(value as u128);
    let mut text = String::new();
    let mut p: usize = digits.len();
    while p > 0
        invariant
            p <= digits.len(),
            digits@ == decimal_digits(value as nat),
            forall|q: int| 0 <= q < digits.len() ==> digits@[q] < 10,
            text@.len() == digits.len() - p,
            forall|i: int|
                0 <= i < text@.len() ==> text@[i] == digit_char(digits@[digits.len() - 1 - i]),
        decreases p,
    {
        p = p - 1;
        text.append(digit_str(digits[p]));
    }
    text
}

/// The word of a set at a place, the word for ten thousand being at
/// place 0.
pub fn separator_word(set: SeparatorSet, place: u8) -> (word: &'static str)
    requires
        place < 12,
    ensures
        word@ == seq![separator_row(set)[place as int]],
{
    match set {
        SeparatorSet::Japanese => {
            proof {
                reveal_strlit("万億兆京垓秭穰溝澗正載極");
                reveal_strlit("万");
                reveal_strlit("億");
                reveal_strlit("兆");
                reveal_strlit("京");
                reveal_strlit("垓");
                reveal_strlit("秭");
                reveal_strlit("穰");
                reveal_strlit("溝");
                reveal_strlit("澗");
                reveal_strlit("正");
                reveal_strlit("載");
                reveal_strlit("極");
            }
            match place {
                0 => "万",
                1 => "億",
                2 => "兆",
                3 => "京",
                4 => "垓",
                5 => "秭",
                6 => "穰",
                7 => "溝",
                8 => "澗",
                9 => "正",
                10 => "載",
                _ => "極",
            }
        },
        SeparatorSet::Korean => {
            proof {
                reveal_strlit("만억조경해자양구간정재극");
                reveal_strlit("만");
                reveal_strlit("억");
                reveal_strlit("조");
                reveal_strlit("경");
                reveal_strlit("해");
                reveal_strlit("자");
                reveal_strlit("양");
                reveal_strlit("구");
                reveal_strlit("간");
                reveal_strlit("정");
                reveal_strlit("재");
                reveal_strlit("극");
            }
            match place {
                0 => "만",
                1 => "억",
                2 => "조",
                3 => "경",
                4 => "해",
                5 => "자",
                6 => "양",
                7 => "구",
                8 => "간",
                9 => "정",
                10 => "재",
                _ => "극",
            }
        },
        SeparatorSet::SimplifiedChinese => {
            proof {
                reveal_strlit("万亿兆京垓秭穰沟涧正载极");
                reveal_strlit("万");
                reveal_strlit("亿");
                reveal_strlit("兆");
                reveal_strlit("京");
                reveal_strlit("垓");
                reveal_strlit("秭");
                reveal_strlit("穰");
                reveal_strlit("沟");
                reveal_strlit("涧");
                reveal_strlit("正");
                reveal_strlit("载");
                reveal_strlit("极");
            }
            match place {
                0 => "万",
                1 => "亿",
                2 => "兆",
                3 => "京",
                4 => "垓",
                5 => "秭",
                6 => "穰",
                7 => "沟",
                8 => "涧",
                9 => "正",
                10 => "载",
                _ => "极",
            }
        },
        SeparatorSet::TraditionalChinese => {
            proof {
                reveal_strlit("萬億兆京垓秭穰溝澗正載極");
                reveal_strlit("萬");
                reveal_strlit("億");
                reveal_strlit("兆");
                reveal_strlit("京");
                reveal_strlit("垓");
                reveal_strlit("秭");
                reveal_strlit("穰");
                reveal_strlit("溝");
                reveal_strlit("澗");
                reveal_strlit("正");
                reveal_strlit("載");
                reveal_strlit("極");
            }
            match place {
                0 => "萬",
                1 => "億",
                2 => "兆",
                3 => "京",
                4 => "垓",
                5 => "秭",
                6 => "穰",
                7 => "溝",
                8 => "澗",
                9 => "正",
                10 => "載",
                _ => "極",
            }
        },
    }
}

/// The words that separate the groups for a language and a region, or
/// the error that none are known for the language.
pub fn get_ten_thousand_separators(lang: &str, region: &str) -> (result: Result<
    Vec<String>,
    SeparatorError,
>)
    ensures
        match separator_set(lang@, region@) {
            Some(set) => result matches Ok(words) && texts(words@) == separator_words(set),
            None => result matches Err(SeparatorError::UnsupportedLanguage { lang: l, region: r })
                && l@ == lang@ && r@ == region@,
        },
{
    let set = if same_text(lang, "ja") {
        SeparatorSet::Japanese
    } else if same_text(lang, "ko") {
        SeparatorSet::Korean
    } else if same_text(lang, "zh") {
        if same_text(region, "HK") || same_text(region, "MO") || same_text(region, "TW") {
            SeparatorSet::TraditionalChinese
        } else {
            SeparatorSet::SimplifiedChinese
        }
    } else {
        return Err(
            SeparatorError::UnsupportedLanguage { lang: lang.to_owned(), region: region.to_owned() },
        );
    };
    let mut words: Vec<String> = Vec::new();
    let mut place: u8 = 0;
    while place < 12
        invariant
            place <= 12,
            words@.len() == place,
            forall|i: int| 0 <= i < words@.len() ==> words@[i]@ == seq![separator_row(set)[i]],
        decreases 12 - place,
    {
        words.push(separator_word(set, place).to_owned());
        place = place + 1;
    }
    assert(texts(words@) == separator_words(set));
    Ok(words)
}

/// Cuts a number into groups of four digits, from the ones place up, and
/// writes behind each group that is not zero the word for it: the first
/// of the words behind the second group, and so on; groups past the last
/// word get none.
pub fn separate_number(value: u64, separators: &Vec<String>) -> (text: String)
    ensures
        text@ == separated(value as nat, texts(separators@)),
{
    if value == 0 {
        proof {
            reveal_strlit("0");
        }
        return String::from_str("0");
    }
    let ghost words = texts(separators@);
    let mut result = String::new();
    let mut step: usize = 0;
    let mut rest: u64 = value;
    while rest > 0
        invariant
            words == texts(separators@),
            step <= 5,
            rest <= left_after(step as nat),
            separated_from(value as nat, words, 0) == separated_from(
                rest as nat,
                words,
                step as nat,
            ) + result@,
        decreases rest,
    {
        let chunk: u64 = rest % 10000;
        let ghost before = rest;
        let ghost tail = result@;
        rest = rest / 10000;
        if chunk != 0 {
            let mut piece = decimal_text(chunk);
            if step > 0 && step <= separators.len() {
                piece.append(separators[step - 1].as_str());
            }
            assert(piece@ == decimal_chars(chunk as nat) + separator_behind(words, step as nat));
            piece.append(result.as_str());
            result = piece;
            assert(separated_from(before as nat, words, step as nat) + tail == separated_from(
                rest as nat,
                words,
                (step + 1) as nat,
            ) + result@);
        }
        step = step + 1;
    }
    assert(separated_from(0, words, step as nat) + result@ == result@);
    result
}

/// Cuts a number into groups of four digits by the words given, or else
/// by those of the language and region given. Without words and without
/// a language there is nothing to separate by.
pub fn sep_by_ten_thousands(
    value: u64,
    lang: Option<String>,
    region: Option<String>,
    separators: Option<Vec<String>>,
) -> (result: Result<String, SeparatorError>)
    ensures
        match separators {
            Some(custom) => result matches Ok(text) && text@ == separated(
                value as nat,
                texts(custom@),
            ),
            None => match lang {
                Some(lang) => {
                    let place = match region {
                        Some(region) => region@,
                        None => Seq::empty(),
                    };
                    match separator_set(lang@, place) {
                        Some(set) => result matches Ok(text) && text@ == separated(
                            value as nat,
                            separator_words(set),
                        ),
                        None => result matches Err(
                            SeparatorError::UnsupportedLanguage { lang: l, region: r },
                        ) && l@ == lang@ && r@ == place,
                    }
                },
                None => match region {
                    Some(_) => result matches Err(SeparatorError::RegionWithoutLanguage),
                    None => result matches Err(SeparatorError::NothingToSeparateBy),
                },
            },
        },
{
    match separators {
        Some(custom) => Ok(separate_number(value, &custom)),
        None => match lang {
            Some(lang) => {
                let found = match region {
                    Some(region) => get_ten_thousand_separators(lang.as_str(), region.as_str()),
                    None => {
                        proof {
                            reveal_strlit("");
                            assert(""@ == Seq::<char>::empty());
                        }
                        get_ten_thousand_separators(lang.as_str(), "")
                    },
                };
                match found {
                    Ok(words) => Ok(separate_number(value, &words)),
                    Err(error) => Err(error),
                }
            },
            None => match region {
                Some(_) => Err(SeparatorError::RegionWithoutLanguage),
                None => Err(SeparatorError::NothingToSeparateBy),
            },
        },
    }
}

} // verus!
