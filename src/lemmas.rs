//! Laws relating the plain and the extended classification.
use crate::decompose::leading_of;
use crate::vowels::{base_vowel_set, is_vowel_in};
use vstd::prelude::*;

verus! {

/// With no extra vowels, the extended classification agrees with the plain
/// one on every codepoint.
pub proof fn lemma_empty_extra_is_plain(c: char)
    ensures
        is_vowel_in(c, base_vowel_set().union(Set::empty())) == is_vowel_in(c, base_vowel_set()),
{
    assert(base_vowel_set().union(Set::empty()) =~= base_vowel_set());
}

/// A codepoint is a vowel with extra vowels exactly when it is a plain vowel
/// or its leading decomposed codepoint is one of the extra vowels.
pub proof fn lemma_including_is_union(c: char, extra: Set<char>)
    ensures
        is_vowel_in(c, base_vowel_set().union(extra)) <==> (is_vowel_in(c, base_vowel_set())
            || extra.contains(leading_of(c))),
{
}

/// Every base vowel is a 7-bit ASCII codepoint, and there are ten of them.
pub proof fn lemma_base_vowel_set_shape()
    ensures
        forall|c: char| #[trigger] base_vowel_set().contains(c) ==> c as u32 <= 0x7f,
        base_vowel_set().finite(),
        base_vowel_set().len() == 10,
{
}

} // verus!
