//! The leading codepoint of a character's compatibility decomposition.
use unicode_normalization::UnicodeNormalization;
use vstd::prelude::*;

verus! {

/// The Unicode Normalization Form KD decomposition of a text, as computed by
/// the `unicode-normalization` crate.
pub uninterp spec fn nfkd_of(s: Seq<char>) -> Seq<char>;

/// Relies on `unicode_normalization::UnicodeNormalization::nfkd` for `char`:
/// the NFKD decomposition of the one-character text `c`. Its source emits at
/// least one codepoint for every input codepoint, and emits a 7-bit ASCII
/// codepoint as itself.
#[verifier::external_body]
fn nfkd_chars(c: char) -> (r: Vec<char>)
    ensures
        r@ == nfkd_of(seq![c]),
        r@.len() >= 1,
        c as u32 <= 0x7f ==> r@ == seq![c],
{
    c.nfkd().collect()
}

/// The first codepoint of the NFKD decomposition of `c`.
pub open spec fn leading_of(c: char) -> char {
    nfkd_of(seq![c])[0]
}

/// Decomposes `c` according to Unicode Normalization Form KD and returns the
/// first codepoint of the decomposition. An ASCII codepoint is its own
/// decomposition.
pub fn decompose_starting(c: char) -> (r: char)
    ensures
        r == leading_of(c),
        c as u32 <= 0x7f ==> r == c,
{
    let d = nfkd_chars(c);
    d[0]
}

} // verus!
