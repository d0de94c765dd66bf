//! Vowels of the compatibility jamo block alone.

use vstd::prelude::*;

use crate::characters::char_from_code;
use crate::characters::jungseong::{
    compat_jungseong_code, is_compat_jungseong_code, jungseong_index, jungseong_to_code,
    JungseongCharacter,
};
use crate::characters::CharacterInformation;
use crate::constants::COMPAT_JUNGSEONG_START;
use crate::jungseong::Jungseong;

verus! {

/// A nucleus vowel known to have come from the compatibility block.
#[derive(Clone, Copy, Debug, PartialEq, Eq, Structural)]
pub struct CompatJungseong(JungseongCharacter);

/// Whether a code point names a compatibility-block vowel (directly, or as a
/// syllable's nucleus through its conjoining form, which never matches).
pub open spec fn is_compat_jungseong_at(x: int) -> bool {
    is_compat_jungseong_code(jungseong_to_code(x))
}

pub trait CompatJungseongInformation {
    fn is_compat_jungseong(&self) -> bool;

    fn has_compat_jungseong(&self) -> bool;
}

impl CompatJungseongInformation for u32 {
    fn is_compat_jungseong(&self) -> (r: bool)
        ensures
            r == is_compat_jungseong_at(*self as int),
    {
        CompatJungseong::try_from_u32(*self).is_ok()
    }

    fn has_compat_jungseong(&self) -> (r: bool)
        ensures
            r == is_compat_jungseong_at(jungseong_to_code(*self as int)),
    {
        JungseongCharacter::to_code(*self).is_compat_jungseong()
    }
}

impl CompatJungseongInformation for char {
    fn is_compat_jungseong(&self) -> (r: bool)
        ensures
            r == is_compat_jungseong_at((*self as u32) as int),
    {
        (*self as u32).is_compat_jungseong()
    }

    fn has_compat_jungseong(&self) -> (r: bool)
        ensures
            r == is_compat_jungseong_at(jungseong_to_code((*self as u32) as int)),
    {
        (*self as u32).has_compat_jungseong()
    }
}

impl CompatJungseong {
    /// The vowel this compatibility nucleus names.
    pub closed spec fn character_spec(&self) -> JungseongCharacter {
        self.0
    }

    /// The vowel itself.
    pub fn character(&self) -> (r: JungseongCharacter)
        ensures
            r == self.character_spec(),
    {
        self.0
    }

    /// A vowel as a compatibility-block nucleus.
    pub fn from_character(ch: &JungseongCharacter) -> (r: CompatJungseong)
        ensures
            r.character_spec() == *ch,
    {
        CompatJungseong(*ch)
    }

    /// The compatibility vowel a code point names, or an error when it names
    /// none.
    pub fn try_from_u32(item: u32) -> (r: Result<CompatJungseong, ()>)
        ensures
            match r {
                Ok(c) => is_compat_jungseong_at(item as int) && jungseong_to_code(item as int)
                    == 0x314F + jungseong_index(c.character_spec()),
                Err(_) => !is_compat_jungseong_at(item as int),
            },
    {
        let y = JungseongCharacter::to_code(item);
        if 0x314F <= y && y <= 0x3163 {
            match Jungseong::try_from_u32(y) {
                Ok(j) => Ok(CompatJungseong(j.character())),
                Err(_) => Err(()),
            }
        } else {
            Err(())
        }
    }

    /// The compatibility vowel a character names, or an error when it names
    /// none.
    pub fn try_from_char(item: char) -> (r: Result<CompatJungseong, ()>)
        ensures
            match r {
                Ok(c) => is_compat_jungseong_at((item as u32) as int) && jungseong_to_code(
                    (item as u32) as int,
                ) == 0x314F + jungseong_index(c.character_spec()),
                Err(_) => !is_compat_jungseong_at((item as u32) as int),
            },
    {
        CompatJungseong::try_from_u32(item as u32)
    }

    /// The compatibility-block code point of this vowel.
    pub fn to_u32(&self) -> (r: u32)
        ensures
            r as int == compat_jungseong_code(jungseong_index(self.character_spec())),
    {
        self.0.to_index() + COMPAT_JUNGSEONG_START
    }

    /// The compatibility-block character of this vowel.
    pub fn to_char(&self) -> (r: char)
        ensures
            (r as u32) as int == compat_jungseong_code(jungseong_index(self.character_spec())),
    {
        char_from_code(self.to_u32())
    }
}

impl CharacterInformation for CompatJungseong {
    fn is_jaeum(&self) -> (r: bool)
        ensures
            r == false,
    {
        self.0.is_jaeum()
    }

    fn is_moeum(&self) -> (r: bool)
        ensures
            r == true,
    {
        self.0.is_moeum()
    }

    fn to_composable(&self) -> (r: u32)
        ensures
            r as int == 28 * jungseong_index(self.character_spec()),
    {
        self.0.to_composable()
    }
}

} // verus!
