//! The three phonetic component inventories (choseong, jungseong,
//! jongseong) as enumerations, with their composition indices and code-point
//! tables.

use vstd::prelude::*;

pub mod choseong;
pub mod jongseong;
pub mod jungseong;

verus! {

/// Relies on `char::from_u32`: every value below the surrogate range
/// (`0xD800`) is a valid Unicode scalar, for which it returns `Some` of the
/// character with exactly that value. All Hangul blocks lie below that range.
#[verifier::external_body]
pub(crate) fn char_from_code(code: u32) -> (c: char)
    requires
        code < 0xD800,
    ensures
        c as u32 == code,
{
    match char::from_u32(code) {
        Some(c) => c,
        None => ' ',
    }
}

/// Shared classification and composition queries of a phonetic component.
pub trait CharacterInformation {
    /// Whether the component is a consonant.
    fn is_jaeum(&self) -> bool;

    /// Whether the component is a vowel.
    fn is_moeum(&self) -> bool;

    /// The component's weight in the syllable composition formula.
    fn to_composable(&self) -> u32;
}

} // verus!
