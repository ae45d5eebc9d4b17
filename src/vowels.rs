//! Vowel sets and the Romance vowel classifier.
use crate::decompose::{decompose_starting, leading_of};
use std::collections::HashSet;
use vstd::prelude::*;

verus! {

/// The base Romance vowels: `a`, `e`, `i`, `o`, `u` and their uppercase forms.
pub open spec fn base_vowel_set() -> Set<char> {
    set!['a', 'e', 'i', 'o', 'u', 'A', 'E', 'I', 'O', 'U']
}

/// Whether the leading decomposed codepoint of `c` lies in `vowels`.
pub open spec fn is_vowel_in(c: char, vowels: Set<char>) -> bool {
    vowels.contains(leading_of(c))
}

/// Relies on `std::collections::HashSet::contains`: whether `c` is a member.
/// vstd states `HashSet`'s behaviour only for key types known to obey its
/// hashing model, and `char`, whose `Eq` and `Hash` are std's own, is not
/// listed there; this and the two items below state it for `char`.
#[verifier::external_body]
fn set_contains(s: &HashSet<char>, c: char) -> (r: bool)
    ensures
        r == s@.contains(c),
{
    s.contains(&c)
}

/// Relies on `std::collections::HashSet::insert`: afterwards `c` is a member
/// and no other member is added or removed.
#[verifier::external_body]
fn set_insert(s: &mut HashSet<char>, c: char)
    ensures
        final(s)@ == old(s)@.insert(c),
{
    s.insert(c);
}

/// Relies on `Clone` for `std::collections::HashSet`: a set with the same
/// members.
#[verifier::external_body]
fn set_clone(s: &HashSet<char>) -> (r: HashSet<char>)
    ensures
        r@ == s@,
{
    s.clone()
}

/// Adds the base vowels to `s`.
fn add_base_vowels(s: &mut HashSet<char>)
    ensures
        final(s)@ == old(s)@.union(base_vowel_set()),
{
    set_insert(s, 'a');
    set_insert(s, 'e');
    set_insert(s, 'i');
    set_insert(s, 'o');
    set_insert(s, 'u');
    set_insert(s, 'A');
    set_insert(s, 'E');
    set_insert(s, 'I');
    set_insert(s, 'O');
    set_insert(s, 'U');
    assert(final(s)@ =~= old(s)@.union(base_vowel_set()));
}

/// A fresh set holding exactly the base vowels.
pub fn base_vowels() -> (r: HashSet<char>)
    ensures
        r@ == base_vowel_set(),
{
    let mut s: HashSet<char> = HashSet::new();
    add_base_vowels(&mut s);
    assert(s@ =~= base_vowel_set());
    s
}

/// A fresh set holding the base vowels and the members of `extra`; `extra`
/// itself is left as it is.
pub fn union_with_base(extra: &HashSet<char>) -> (r: HashSet<char>)
    ensures
        r@ == base_vowel_set().union(extra@),
{
    let mut s = set_clone(extra);
    add_base_vowels(&mut s);
    assert(s@ =~= base_vowel_set().union(extra@));
    s
}

/// Returns `true` if the leading codepoint of the NFKD decomposition of `c`
/// is in `vowels`.
pub fn is_romance_vowel_with(c: char, vowels: &HashSet<char>) -> (r: bool)
    ensures
        r == is_vowel_in(c, vowels@),
        c as u32 <= 0x7f ==> r == vowels@.contains(c),
{
    let d = decompose_starting(c);
    set_contains(vowels, d)
}

} // verus!
