//! Tests for vowels in Romance languages.
//!
//! A codepoint counts as a vowel when the first codepoint of its Unicode
//! Normalization Form KD decomposition is one of `a`, `e`, `i`, `o`, `u` or
//! their uppercase forms. Decomposing first strips accents, so `á` and `Å`
//! are vowels. Letters that are vowels only in some words, such as `y` and
//! `w`, can be added per call.
use std::collections::HashSet;
use vstd::prelude::*;

pub mod decompose;
pub mod lemmas;
mod private;
pub mod vowels;

pub use decompose::{decompose_starting, leading_of, nfkd_of};
pub use vowels::{base_vowel_set, base_vowels, is_romance_vowel_with, is_vowel_in, union_with_base};

verus! {

/// Classification of a Unicode codepoint as a vowel of the Romance languages.
pub trait IsRomanceVowel: Sized + private::Sealed {
    /// The first codepoint of the NFKD decomposition of `self`.
    spec fn leading_codepoint(self) -> char;

    /// Returns `true` if `self` appears to be a vowel in a Romance language:
    /// the first codepoint of its Unicode Normalization Form KD decomposition
    /// is `a`, `e`, `i`, `o`, `u` or one of their uppercase forms.
    fn is_romance_vowel(self) -> (r: bool)
        ensures
            r == base_vowel_set().contains(self.leading_codepoint()),
    ;

    /// Behaves as `is_romance_vowel`, but also counts the codepoints of
    /// `extra_vowels` as vowels. Neither set is changed.
    fn is_romance_vowel_including(self, extra_vowels: &HashSet<char>) -> (r: bool)
        ensures
            r == base_vowel_set().union(extra_vowels@).contains(self.leading_codepoint()),
    ;
}

impl IsRomanceVowel for char {
    open spec fn leading_codepoint(self) -> char {
        leading_of(self)
    }

    fn is_romance_vowel(self) -> (r: bool)
        ensures
            r == is_vowel_in(self, base_vowel_set()),
            base_vowel_set().contains(self) ==> r,
            self as u32 <= 0x7f ==> r == base_vowel_set().contains(self),
    {
        let vowels = base_vowels();
        is_romance_vowel_with(self, &vowels)
    }

    fn is_romance_vowel_including(self, extra_vowels: &HashSet<char>) -> (r: bool)
        ensures
            r == is_vowel_in(self, base_vowel_set().union(extra_vowels@)),
            self as u32 <= 0x7f ==> r == (base_vowel_set().contains(self)
                || extra_vowels@.contains(self)),
    {
        let vowels = union_with_base(extra_vowels);
        is_romance_vowel_with(self, &vowels)
    }
}

} // verus!
