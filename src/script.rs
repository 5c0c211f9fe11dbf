use vstd::prelude::*;

verus! {

/// The CJK Unified Ideograph blocks: Basic, Extension A, Compatibility
/// Ideographs and Extensions B to G.
pub open spec fn is_ideograph(c: char) -> bool {
    let u = c as u32;
    ||| 0x3400 <= u <= 0x4DBF
    ||| 0x4E00 <= u <= 0x9FFF
    ||| 0xF900 <= u <= 0xFAFF
    ||| 0x20000 <= u <= 0x2A6DF
    ||| 0x2A700 <= u <= 0x2B73F
    ||| 0x2B740 <= u <= 0x2B81F
    ||| 0x2B820 <= u <= 0x2CEAF
    ||| 0x2CEB0 <= u <= 0x2EBEF
    ||| 0x30000 <= u <= 0x3134F
}

/// A word is written in CJK when one of its characters is an ideograph.
pub open spec fn has_ideograph(s: Seq<char>) -> bool {
    exists|i: int| 0 <= i < s.len() && is_ideograph(#[trigger] s[i])
}

/// Whether `c` lies in one of the ideograph blocks.
pub fn is_ideograph_char(c: char) -> (r: bool)
    ensures
        r == is_ideograph(c),
{
    let u = c as u32;
    (0x3400 <= u && u <= 0x4DBF)
        || (0x4E00 <= u && u <= 0x9FFF)
        || (0xF900 <= u && u <= 0xFAFF)
        || (0x20000 <= u && u <= 0x2A6DF)
        || (0x2A700 <= u && u <= 0x2B73F)
        || (0x2B740 <= u && u <= 0x2B81F)
        || (0x2B820 <= u && u <= 0x2CEAF)
        || (0x2CEB0 <= u && u <= 0x2EBEF)
        || (0x30000 <= u && u <= 0x3134F)
}

/// Whether `text` holds at least one CJK ideograph; this alone chooses the
/// extraction strategy.
pub fn contains_cjk_ideograph(text: &str) -> (r: bool)
    ensures
        r == has_ideograph(text@),
{
    let mut found = false;
    for ch in it: text.chars()
        invariant
            it.seq() == text@,
            found == exists|i: int| 0 <= i < it.index() && is_ideograph(#[trigger] text@[i]),
    {
        if is_ideograph_char(ch) {
            found = true;
        }
    }
    found
}

} // verus!
