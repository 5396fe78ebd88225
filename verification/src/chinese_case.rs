use vstd::prelude::*;

verus! {

/// The numeral tradition a number is written in, each with the style of
/// its glyphs.
#[derive(Debug, Copy, Clone, Eq, PartialEq, Hash, Structural)]
pub enum NumberScript {
    SimplifiedChinese(ScriptStyle),
    TraditionalChinese(ScriptStyle),
    Japanese(ScriptStyle),
    Korean(ScriptStyle),
}

/// The glyph set within a script: the formal one used in banking and law,
/// or the everyday one, which may write zero as a circle.
#[derive(Debug, Copy, Clone, Eq, PartialEq, Hash, Structural)]
pub enum ScriptStyle {
    Upper,
    Lower { circle_as_zero: bool },
}

impl NumberScript {
    /// The style that the script carries.
    pub open spec fn style(self) -> ScriptStyle {
        match self {
            NumberScript::SimplifiedChinese(style) => style,
            NumberScript::TraditionalChinese(style) => style,
            NumberScript::Japanese(style) => style,
            NumberScript::Korean(style) => style,
        }
    }
}

} // verus!
