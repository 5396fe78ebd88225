use vstd::prelude::*;

use crate::chinese_case::{NumberScript, ScriptStyle};

verus! {

/// A digit glyph: zero to nine, and ten.
#[derive(Debug, Copy, Clone, Eq, PartialEq, Hash, Structural)]
pub enum ChineseNumber {
    Zero,
    One,
    Two,
    Three,
    Four,
    Five,
    Six,
    Seven,
    Eight,
    Nine,
    Ten,
}

/// A unit word, from the two below the ones place up to the largest
/// named magnitude.
#[derive(Debug, Copy, Clone, Eq, PartialEq, PartialOrd, Ord, Hash, Structural)]
pub enum ChineseExponent {
    Fen,
    Jiao,
    Ge,
    Shi,
    Bai,
    Qian,
    Wan,
    Yi,
    Zhao,
    Jing,
    Gai,
    Zi,
    Rang,
    Gou,
    Jian,
    Zheng,
    Zai,
    Ji,
}

/// The sign of a number.
#[derive(Debug, Copy, Clone, Eq, PartialEq, Hash, Structural)]
pub enum ChineseSign {
    Positive,
    Negative,
}

/// The mark between the whole part of a number and its fraction.
#[derive(Debug, Copy, Clone, Eq, PartialEq, Hash, Structural)]
pub struct ChinesePoint;

/// The glyph for zero. The three Han scripts write a circle where the
/// everyday style asks for it; Korean has one zero in every style.
pub open spec fn zero_glyph(script: NumberScript) -> char {
    match script {
        NumberScript::Korean(_) => '영',
        _ => if script.style() == (ScriptStyle::Lower { circle_as_zero: true }) {
            '〇'
        } else {
            '零'
        },
    }
}

/// The glyphs for one to ten in a script, in ascending order. The formal
/// style of the two Chinese scripts replaces all ten; that of Japanese
/// replaces one, two, three and ten; Korean has one set for every style.
pub open spec fn number_row(script: NumberScript) -> Seq<char> {
    match script {
        NumberScript::SimplifiedChinese(ScriptStyle::Upper) => "壹贰叁肆伍陆柒捌玖拾"@,
        NumberScript::TraditionalChinese(ScriptStyle::Upper) => "壹貳參肆伍陸柒捌玖拾"@,
        NumberScript::Japanese(ScriptStyle::Upper) => "壱弐参四五六七八九拾"@,
        NumberScript::Korean(_) => "일이삼사오육칠팔구십"@,
        _ => "一二三四五六七八九十"@,
    }
}

/// The unit words of a script, in ascending order. Only ten, hundred and
/// thousand depend on the style, as the digits do: the formal style of
/// the two Chinese scripts replaces all three, that of Japanese replaces
/// ten. The words from ten thousand up keep their traditional forms but
/// in Simplified Chinese.
pub open spec fn exponent_row(script: NumberScript) -> Seq<char> {
    match script {
        NumberScript::SimplifiedChinese(ScriptStyle::Upper) => "分角个拾佰仟万亿兆京垓秭穰沟涧正载极"@,
        NumberScript::SimplifiedChinese(_) => "分角个十百千万亿兆京垓秭穰沟涧正载极"@,
        NumberScript::TraditionalChinese(ScriptStyle::Upper) => "分角個拾佰仟萬億兆京垓秭穰溝澗正載極"@,
        NumberScript::TraditionalChinese(_) => "分角個十百千萬億兆京垓秭穰溝澗正載極"@,
        NumberScript::Japanese(ScriptStyle::Upper) => "厘钱個拾百千萬億兆京垓秭穰溝澗正載極"@,
        NumberScript::Japanese(_) => "厘钱個十百千萬億兆京垓秭穰溝澗正載極"@,
        NumberScript::Korean(_) => "분각개십백천만억조경해자양구간정재극"@,
    }
}

/// The glyphs for plus and minus in a script, in this order.
pub open spec fn sign_row(script: NumberScript) -> Seq<char> {
    match script {
        NumberScript::SimplifiedChinese(_) => "正负"@,
        NumberScript::Korean(_) => "정부"@,
        _ => "正負"@,
    }
}

/// The decimal point of a script.
pub open spec fn point_glyph(script: NumberScript) -> char {
    match script {
        NumberScript::TraditionalChinese(_) => '點',
        NumberScript::Korean(_) => '점',
        _ => '点',
    }
}

impl ChineseNumber {
    /// The number that the glyph stands for.
    pub open spec fn index(self) -> nat {
        match self {
            ChineseNumber::Zero => 0,
            ChineseNumber::One => 1,
            ChineseNumber::Two => 2,
            ChineseNumber::Three => 3,
            ChineseNumber::Four => 4,
            ChineseNumber::Five => 5,
            ChineseNumber::Six => 6,
            ChineseNumber::Seven => 7,
            ChineseNumber::Eight => 8,
            ChineseNumber::Nine => 9,
            ChineseNumber::Ten => 10,
        }
    }

    /// The digit glyph for a number up to ten.
    pub open spec fn of(n: nat) -> ChineseNumber
        recommends
            n <= 10,
    {
        if n == 0 {
            ChineseNumber::Zero
        } else if n == 1 {
            ChineseNumber::One
        } else if n == 2 {
            ChineseNumber::Two
        } else if n == 3 {
            ChineseNumber::Three
        } else if n == 4 {
            ChineseNumber::Four
        } else if n == 5 {
            ChineseNumber::Five
        } else if n == 6 {
            ChineseNumber::Six
        } else if n == 7 {
            ChineseNumber::Seven
        } else if n == 8 {
            ChineseNumber::Eight
        } else if n == 9 {
            ChineseNumber::Nine
        } else {
            ChineseNumber::Ten
        }
    }

    /// The character that writes the number in a script.
    pub open spec fn glyph(self, script: NumberScript) -> char {
        if self == ChineseNumber::Zero {
            zero_glyph(script)
        } else {
            number_row(script)[self.index() - 1]
        }
    }

    /// The number that the glyph stands for.
    pub fn ordinal(self) -> (n: u8)
        ensures
            n == self.index(),
            ChineseNumber::of(n as nat) == self,
    {
        match self {
            ChineseNumber::Zero => 0,
            ChineseNumber::One => 1,
            ChineseNumber::Two => 2,
            ChineseNumber::Three => 3,
            ChineseNumber::Four => 4,
            ChineseNumber::Five => 5,
            ChineseNumber::Six => 6,
            ChineseNumber::Seven => 7,
            ChineseNumber::Eight => 8,
            ChineseNumber::Nine => 9,
            ChineseNumber::Ten => 10,
        }
    }

    /// The glyph for a number, where there is one: up to ten.
    pub fn from_ordinal(n: u8) -> (number: Option<ChineseNumber>)
        ensures
            n <= 10 ==> number == Some(ChineseNumber::of(n as nat)),
            n <= 10 ==> ChineseNumber::of(n as nat).index() == n,
            n > 10 ==> number.is_none(),
    {
        match n {
            0 => Some(ChineseNumber::Zero),
            1 => Some(ChineseNumber::One),
            2 => Some(ChineseNumber::Two),
            3 => Some(ChineseNumber::Three),
            4 => Some(ChineseNumber::Four),
            5 => Some(ChineseNumber::Five),
            6 => Some(ChineseNumber::Six),
            7 => Some(ChineseNumber::Seven),
            8 => Some(ChineseNumber::Eight),
            9 => Some(ChineseNumber::Nine),
            10 => Some(ChineseNumber::Ten),
            _ => None,
        }
    }

    /// The text of the glyph in a script: always one character.
    pub fn to_str(self, number_script: NumberScript) -> (s: &'static str)
        ensures
            s@ == seq![self.glyph(number_script)],
    {
        proof {
            reveal_strlit("壹贰叁肆伍陆柒捌玖拾");
            reveal_strlit("壹貳參肆伍陸柒捌玖拾");
            reveal_strlit("壱弐参四五六七八九拾");
            reveal_strlit("일이삼사오육칠팔구십");
            reveal_strlit("一二三四五六七八九十");
        }
        match self {
            Self::Zero => {
                proof {
                    reveal_strlit("〇");
                    reveal_strlit("零");
                    reveal_strlit("영");
                }
                match number_script {
                    NumberScript::SimplifiedChinese(ss)
                    | NumberScript::TraditionalChinese(ss)
                    | NumberScript::Japanese(ss) => match ss {
                        ScriptStyle::Lower { circle_as_zero: true } => "〇",
                        _ => "零",
                    },
                    NumberScript::Korean(_) => "영",
                }
            },
            Self::One => {
                proof {
                    reveal_strlit("壹");
                    reveal_strlit("壱");
                    reveal_strlit("일");
                    reveal_strlit("一");
                }
                match number_script {
                    NumberScript::SimplifiedChinese(ScriptStyle::Upper)
                    | NumberScript::TraditionalChinese(ScriptStyle::Upper) => "壹",
                    NumberScript::Japanese(ScriptStyle::Upper) => "壱",
                    NumberScript::Korean(_) => "일",
                    _ => "一",
                }
            },
            Self::Two => {
                proof {
                    reveal_strlit("贰");
                    reveal_strlit("貳");
                    reveal_strlit("弐");
                    reveal_strlit("이");
                    reveal_strlit("二");
                }
                match number_script {
                    NumberScript::SimplifiedChinese(ScriptStyle::Upper) => "贰",
                    NumberScript::TraditionalChinese(ScriptStyle::Upper) => "貳",
                    NumberScript::Japanese(ScriptStyle::Upper) => "弐",
                    NumberScript::Korean(_) => "이",
                    _ => "二",
                }
            },
            Self::Three => {
                proof {
                    reveal_strlit("叁");
                    reveal_strlit("參");
                    reveal_strlit("参");
                    reveal_strlit("삼");
                    reveal_strlit("三");
                }
                match number_script {
                    NumberScript::SimplifiedChinese(ScriptStyle::Upper) => "叁",
                    NumberScript::TraditionalChinese(ScriptStyle::Upper) => "參",
                    NumberScript::Japanese(ScriptStyle::Upper) => "参",
                    NumberScript::Korean(_) => "삼",
                    _ => "三",
                }
            },
            Self::Four => {
                proof {
                    reveal_strlit("肆");
                    reveal_strlit("사");
                    reveal_strlit("四");
                }
                match number_script {
                    NumberScript::SimplifiedChinese(ScriptStyle::Upper) => "肆",
                    NumberScript::TraditionalChinese(ScriptStyle::Upper) => "肆",
                    NumberScript::Korean(_) => "사",
                    _ => "四",
                }
            },
            Self::Five => {
                proof {
                    reveal_strlit("伍");
                    reveal_strlit("오");
                    reveal_strlit("五");
                }
                match number_script {
                    NumberScript::SimplifiedChinese(ScriptStyle::Upper) => "伍",
                    NumberScript::TraditionalChinese(ScriptStyle::Upper) => "伍",
                    NumberScript::Korean(_) => "오",
                    _ => "五",
                }
            },
            Self::Six => {
                proof {
                    reveal_strlit("陆");
                    reveal_strlit("陸");
                    reveal_strlit("육");
                    reveal_strlit("六");
                }
                match number_script {
                    NumberScript::SimplifiedChinese(ScriptStyle::Upper) => "陆",
                    NumberScript::TraditionalChinese(ScriptStyle::Upper) => "陸",
                    NumberScript::Korean(_) => "육",
                    _ => "六",
                }
            },
            Self::Seven => {
                proof {
                    reveal_strlit("柒");
                    reveal_strlit("칠");
                    reveal_strlit("七");
                }
                match number_script {
                    NumberScript::SimplifiedChinese(ScriptStyle::Upper)
                    | NumberScript::TraditionalChinese(ScriptStyle::Upper) => "柒",
                    NumberScript::Korean(_) => "칠",
                    _ => "七",
                }
            },
            Self::Eight => {
                proof {
                    reveal_strlit("捌");
                    reveal_strlit("팔");
                    reveal_strlit("八");
                }
                match number_script {
                    NumberScript::SimplifiedChinese(ScriptStyle::Upper)
                    | NumberScript::TraditionalChinese(ScriptStyle::Upper) => "捌",
                    NumberScript::Korean(_) => "팔",
                    _ => "八",
                }
            },
            Self::Nine => {
                proof {
                    reveal_strlit("玖");
                    reveal_strlit("구");
                    reveal_strlit("九");
                }
                match number_script {
                    NumberScript::SimplifiedChinese(ScriptStyle::Upper)
                    | NumberScript::TraditionalChinese(ScriptStyle::Upper) => "玖",
                    NumberScript::Korean(_) => "구",
                    _ => "九",
                }
            },
            Self::Ten => {
                proof {
                    reveal_strlit("拾");
                    reveal_strlit("십");
                    reveal_strlit("十");
                }
                match number_script {
                    NumberScript::SimplifiedChinese(ScriptStyle::Upper)
                    | NumberScript::TraditionalChinese(ScriptStyle::Upper)
                    | NumberScript::Japanese(ScriptStyle::Upper) => "拾",
                    NumberScript::Korean(_) => "십",
                    _ => "十",
                }
            },
        }
    }
}

impl ChineseExponent {
    /// The place of the word in the ascending order of the unit words.
    pub open spec fn index(self) -> nat {
        match self {
            ChineseExponent::Fen => 0,
            ChineseExponent::Jiao => 1,
            ChineseExponent::Ge => 2,
            ChineseExponent::Shi => 3,
            ChineseExponent::Bai => 4,
            ChineseExponent::Qian => 5,
            ChineseExponent::Wan => 6,
            ChineseExponent::Yi => 7,
            ChineseExponent::Zhao => 8,
            ChineseExponent::Jing => 9,
            ChineseExponent::Gai => 10,
            ChineseExponent::Zi => 11,
            ChineseExponent::Rang => 12,
            ChineseExponent::Gou => 13,
            ChineseExponent::Jian => 14,
            ChineseExponent::Zheng => 15,
            ChineseExponent::Zai => 16,
            ChineseExponent::Ji => 17,
        }
    }

    /// The unit word at a place in the ascending order, the largest for
    /// every place past the last.
    pub open spec fn of(n: nat) -> ChineseExponent
        recommends
            n <= 17,
    {
        if n == 0 {
            ChineseExponent::Fen
        } else if n == 1 {
            ChineseExponent::Jiao
        } else if n == 2 {
            ChineseExponent::Ge
        } else if n == 3 {
            ChineseExponent::Shi
        } else if n == 4 {
            ChineseExponent::Bai
        } else if n == 5 {
            ChineseExponent::Qian
        } else if n == 6 {
            ChineseExponent::Wan
        } else if n == 7 {
            ChineseExponent::Yi
        } else if n == 8 {
            ChineseExponent::Zhao
        } else if n == 9 {
            ChineseExponent::Jing
        } else if n == 10 {
            ChineseExponent::Gai
        } else if n == 11 {
            ChineseExponent::Zi
        } else if n == 12 {
            ChineseExponent::Rang
        } else if n == 13 {
            ChineseExponent::Gou
        } else if n == 14 {
            ChineseExponent::Jian
        } else if n == 15 {
            ChineseExponent::Zheng
        } else if n == 16 {
            ChineseExponent::Zai
        } else {
            ChineseExponent::Ji
        }
    }

    /// The character that writes the unit word in a script.
    pub open spec fn glyph(self, script: NumberScript) -> char {
        exponent_row(script)[self.index() as int]
    }

    /// The place of the word in the ascending order of the unit words.
    pub fn ordinal(self) -> (n: u8)
        ensures
            n == self.index(),
            n <= 17,
            ChineseExponent::of(n as nat) == self,
    {
        match self {
            ChineseExponent::Fen => 0,
            ChineseExponent::Jiao => 1,
            ChineseExponent::Ge => 2,
            ChineseExponent::Shi => 3,
            ChineseExponent::Bai => 4,
            ChineseExponent::Qian => 5,
            ChineseExponent::Wan => 6,
            ChineseExponent::Yi => 7,
            ChineseExponent::Zhao => 8,
            ChineseExponent::Jing => 9,
            ChineseExponent::Gai => 10,
            ChineseExponent::Zi => 11,
            ChineseExponent::Rang => 12,
            ChineseExponent::Gou => 13,
            ChineseExponent::Jian => 14,
            ChineseExponent::Zheng => 15,
            ChineseExponent::Zai => 16,
            ChineseExponent::Ji => 17,
        }
    }

    /// The unit word at a place in the ascending order, where there is
    /// one: up to seventeen.
    pub fn from_ordinal(n: u8) -> (word: Option<ChineseExponent>)
        ensures
            n <= 17 ==> word == Some(ChineseExponent::of(n as nat)),
            n <= 17 ==> ChineseExponent::of(n as nat).index() == n,
            n > 17 ==> word.is_none(),
    {
        match n {
            0 => Some(ChineseExponent::Fen),
            1 => Some(ChineseExponent::Jiao),
            2 => Some(ChineseExponent::Ge),
            3 => Some(ChineseExponent::Shi),
            4 => Some(ChineseExponent::Bai),
            5 => Some(ChineseExponent::Qian),
            6 => Some(ChineseExponent::Wan),
            7 => Some(ChineseExponent::Yi),
            8 => Some(ChineseExponent::Zhao),
            9 => Some(ChineseExponent::Jing),
            10 => Some(ChineseExponent::Gai),
            11 => Some(ChineseExponent::Zi),
            12 => Some(ChineseExponent::Rang),
            13 => Some(ChineseExponent::Gou),
            14 => Some(ChineseExponent::Jian),
            15 => Some(ChineseExponent::Zheng),
            16 => Some(ChineseExponent::Zai),
            17 => Some(ChineseExponent::Ji),
            _ => None,
        }
    }

    /// The text of the unit word in a script: always one character.
    pub fn to_str(self, number_script: NumberScript) -> (s: &'static str)
        ensures
            s@ == seq![self.glyph(number_script)],
    {
        proof {
            reveal_strlit("分角个拾佰仟万亿兆京垓秭穰沟涧正载极");
            reveal_strlit("分角个十百千万亿兆京垓秭穰沟涧正载极");
            reveal_strlit("分角個拾佰仟萬億兆京垓秭穰溝澗正載極");
            reveal_strlit("分角個十百千萬億兆京垓秭穰溝澗正載極");
            reveal_strlit("厘钱個拾百千萬億兆京垓秭穰溝澗正載極");
            reveal_strlit("厘钱個十百千萬億兆京垓秭穰溝澗正載極");
            reveal_strlit("분각개십백천만억조경해자양구간정재극");
        }
        match self {
            Self::Fen => {
                proof {
                    reveal_strlit("分");
                    reveal_strlit("厘");
                    reveal_strlit("분");
                }
                match number_script {
                    NumberScript::SimplifiedChinese(_)
                    | NumberScript::TraditionalChinese(_) => "分",
                    NumberScript::Japanese(_) => "厘",
                    NumberScript::Korean(_) => "분",
                }
            },
            Self::Jiao => {
                proof {
                    reveal_strlit("角");
                    reveal_strlit("钱");
                    reveal_strlit("각");
                }
                match number_script {
                    NumberScript::SimplifiedChinese(_)
                    | NumberScript::TraditionalChinese(_) => "角",
                    NumberScript::Japanese(_) => "钱",
                    NumberScript::Korean(_) => "각",
                }
            },
            Self::Ge => {
                proof {
                    reveal_strlit("个");
                    reveal_strlit("個");
                    reveal_strlit("개");
                }
                match number_script {
                    NumberScript::SimplifiedChinese(_) => "个",
                    NumberScript::TraditionalChinese(_)
                    | NumberScript::Japanese(_) => "個",
                    NumberScript::Korean(_) => "개",
                }
            },
            Self::Shi => {
                proof {
                    reveal_strlit("拾");
                    reveal_strlit("십");
                    reveal_strlit("十");
                }
                match number_script {
                    NumberScript::SimplifiedChinese(ScriptStyle::Upper)
                    | NumberScript::TraditionalChinese(ScriptStyle::Upper)
                    | NumberScript::Japanese(ScriptStyle::Upper) => "拾",
                    NumberScript::Korean(_) => "십",
                    _ => "十",
                }
            },
            Self::Bai => {
                proof {
                    reveal_strlit("佰");
                    reveal_strlit("백");
                    reveal_strlit("百");
                }
                match number_script {
                    NumberScript::SimplifiedChinese(ScriptStyle::Upper)
                    | NumberScript::TraditionalChinese(ScriptStyle::Upper) => "佰",
                    NumberScript::Korean(_) => "백",
                    _ => "百",
                }
            },
            Self::Qian => {
                proof {
                    reveal_strlit("仟");
                    reveal_strlit("천");
                    reveal_strlit("千");
                }
                match number_script {
                    NumberScript::SimplifiedChinese(ScriptStyle::Upper)
                    | NumberScript::TraditionalChinese(ScriptStyle::Upper) => "仟",
                    NumberScript::Korean(_) => "천",
                    _ => "千",
                }
            },
            Self::Wan => {
                proof {
                    reveal_strlit("万");
                    reveal_strlit("만");
                    reveal_strlit("萬");
                }
                match number_script {
                    NumberScript::SimplifiedChinese(_) => "万",
                    NumberScript::Korean(_) => "만",
                    _ => "萬",
                }
            },
            Self::Yi => {
                proof {
                    reveal_strlit("亿");
                    reveal_strlit("억");
                    reveal_strlit("億");
                }
                match number_script {
                    NumberScript::SimplifiedChinese(_) => "亿",
                    NumberScript::Korean(_) => "억",
                    _ => "億",
                }
            },
            Self::Zhao => {
                proof {
                    reveal_strlit("조");
                    reveal_strlit("兆");
                }
                match number_script {
                    NumberScript::Korean(_) => "조",
                    _ => "兆",
                }
            },
            Self::Jing => {
                proof {
                    reveal_strlit("경");
                    reveal_strlit("京");
                }
                match number_script {
                    NumberScript::Korean(_) => "경",
                    _ => "京",
                }
            },
            Self::Gai => {
                proof {
                    reveal_strlit("해");
                    reveal_strlit("垓");
                }
                match number_script {
                    NumberScript::Korean(_) => "해",
                    _ => "垓",
                }
            },
            Self::Zi => {
                proof {
                    reveal_strlit("자");
                    reveal_strlit("秭");
                }
                match number_script {
                    NumberScript::Korean(_) => "자",
                    _ => "秭",
                }
            },
            Self::Rang => {
                proof {
                    reveal_strlit("양");
                    reveal_strlit("穰");
                }
                match number_script {
                    NumberScript::Korean(_) => "양",
                    _ => "穰",
                }
            },
            Self::Gou => {
                proof {
                    reveal_strlit("沟");
                    reveal_strlit("구");
                    reveal_strlit("溝");
                }
                match number_script {
                    NumberScript::SimplifiedChinese(_) => "沟",
                    NumberScript::Korean(_) => "구",
                    _ => "溝",
                }
            },
            Self::Jian => {
                proof {
                    reveal_strlit("涧");
                    reveal_strlit("간");
                    reveal_strlit("澗");
                }
                match number_script {
                    NumberScript::SimplifiedChinese(_) => "涧",
                    NumberScript::Korean(_) => "간",
                    _ => "澗",
                }
            },
            Self::Zheng => {
                proof {
                    reveal_strlit("정");
                    reveal_strlit("正");
                }
                match number_script {
                    NumberScript::Korean(_) => "정",
                    _ => "正",
                }
            },
            Self::Zai => {
                proof {
                    reveal_strlit("载");
                    reveal_strlit("재");
                    reveal_strlit("載");
                }
                match number_script {
                    NumberScript::SimplifiedChinese(_) => "载",
                    NumberScript::Korean(_) => "재",
                    _ => "載",
                }
            },
            Self::Ji => {
                proof {
                    reveal_strlit("极");
                    reveal_strlit("극");
                    reveal_strlit("極");
                }
                match number_script {
                    NumberScript::SimplifiedChinese(_) => "极",
                    NumberScript::Korean(_) => "극",
                    _ => "極",
                }
            },
        }
    }
}

impl ChineseSign {
    /// The character that writes the sign in a script.
    pub open spec fn glyph(self, script: NumberScript) -> char {
        match self {
            ChineseSign::Positive => sign_row(script)[0],
            ChineseSign::Negative => sign_row(script)[1],
        }
    }

    /// The text of the sign in a script: always one character.
    pub fn to_str(self, number_script: NumberScript) -> (s: &'static str)
        ensures
            s@ == seq![self.glyph(number_script)],
    {
        proof {
            reveal_strlit("正负");
            reveal_strlit("정부");
            reveal_strlit("正負");
            reveal_strlit("정");
            reveal_strlit("正");
            reveal_strlit("负");
            reveal_strlit("부");
            reveal_strlit("負");
        }
        match self {
            Self::Positive => match number_script {
                NumberScript::Korean(_) => "정",
                _ => "正",
            },
            Self::Negative => match number_script {
                NumberScript::SimplifiedChinese(_) => "负",
                NumberScript::Korean(_) => "부",
                _ => "負",
            },
        }
    }
}

impl ChinesePoint {
    /// The text of the decimal point in a script: always one character.
    pub fn to_str(number_script: NumberScript) -> (s: &'static str)
        ensures
            s@ == seq![point_glyph(number_script)],
    {
        proof {
            reveal_strlit("點");
            reveal_strlit("점");
            reveal_strlit("点");
        }
        match number_script {
            NumberScript::TraditionalChinese(_) => "點",
            NumberScript::Korean(_) => "점",
            _ => "点",
        }
    }
}

} // verus!
