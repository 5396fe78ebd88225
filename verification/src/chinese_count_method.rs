use vstd::prelude::*;

verus! {

/// How the words for large units follow one another. The classical text
/// on arithmetic knows three ways; modern use adds a fourth.
#[derive(Debug, Copy, Clone, Eq, PartialEq, Hash, Structural)]
pub enum ChineseCountMethod {
    /// Each unit is ten times the one before.
    Low,
    /// Each unit is ten thousand times the one before.
    TenThousand,
    /// Each unit is a hundred million times the one before.
    Middle,
    /// Each unit is the square of the one before.
    High,
}

impl ChineseCountMethod {
    /// The four methods, in the order of their declaration.
    pub open spec fn all() -> Seq<ChineseCountMethod> {
        seq![
            ChineseCountMethod::Low,
            ChineseCountMethod::TenThousand,
            ChineseCountMethod::Middle,
            ChineseCountMethod::High,
        ]
    }

    /// Every method, in the order of their declaration.
    pub fn variants() -> (all: [ChineseCountMethod; 4])
        ensures
            all@ == Self::all(),
    {
        [
            ChineseCountMethod::Low,
            ChineseCountMethod::TenThousand,
            ChineseCountMethod::Middle,
            ChineseCountMethod::High,
        ]
    }
}

} // verus!
