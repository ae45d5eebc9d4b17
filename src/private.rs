//! Keeps the classification trait closed to types outside this crate.
use vstd::prelude::*;

verus! {

/// Implemented only for `char`, so no other type can implement
/// `IsRomanceVowel`.
pub trait Sealed {}

impl Sealed for char {}

} // verus!
