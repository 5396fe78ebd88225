//! From planned glyphs to text in a script.

use vstd::prelude::*;
use vstd::string::*;

use crate::chinese_case::NumberScript;
use crate::planner::Glyph;

verus! {

/// The text of a sequence of glyphs in a script: the character of each,
/// in order.
pub open spec fn written(plan: Seq<Glyph>, script: NumberScript) -> Seq<char> {
    plan.map_values(|glyph: Glyph| glyph.glyph(script))
}

/// Writing one sequence of glyphs after another writes the text of the
/// first followed by the text of the second.
pub proof fn lemma_written_add(first: Seq<Glyph>, second: Seq<Glyph>, script: NumberScript)
    ensures
        written(first + second, script) == written(first, script) + written(second, script),
{
    assert(written(first + second, script) =~= written(first, script) + written(
        second,
        script,
    ));
}

/// Writes the glyphs of a plan in a script, one character for each.
pub fn compose(number_script: NumberScript, plan: &Vec<Glyph>) -> (text: String)
    ensures
        text@ == written(plan@, number_script),
        text@.len() == plan@.len(),
{
    let mut text = String::new();
    let mut i: usize = 0;
    while i < plan.len()
        invariant
            i <= plan.len(),
            text@ == written(plan@.take(i as int), number_script),
        decreases plan.len() - i,
    {
        let glyph = plan[i];
        text.append(glyph.to_str(number_script));
        i = i + 1;
        assert(text@ == written(plan@.take(i as int), number_script));
    }
    assert(plan@.take(i as int) == plan@);
    text
}

} // verus!
