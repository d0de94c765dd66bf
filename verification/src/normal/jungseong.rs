//! Vowels of the conjoining jamo block alone.

use vstd::prelude::*;

use crate::characters::char_from_code;
use crate::characters::jungseong::{
    is_normal_jungseong_code, jungseong_index, jungseong_to_code, JungseongCharacter,
};
use crate::characters::CharacterInformation;
use crate::constants::JUNGSEONG_START;

verus! {

/// A nucleus vowel known to have come from the conjoining block.
#[derive(Clone, Copy, Debug, PartialEq, Eq, Structural)]
pub struct Jungseong(JungseongCharacter);

/// Whether a code point names a conjoining-block vowel (directly, or as a
/// syllable's nucleus).
pub open spec fn is_normal_jungseong_at(x: int) -> bool {
    is_normal_jungseong_code(jungseong_to_code(x))
}

pub trait JungseongInformation {
    fn is_jungseong(&self) -> bool;

    fn has_jungseong(&self) -> bool;
}

impl JungseongInformation for u32 {
    fn is_jungseong(&self) -> (r: bool)
        ensures
            r == is_normal_jungseong_at(*self as int),
    {
        Jungseong::try_from_u32(*self).is_ok()
    }

    fn has_jungseong(&self) -> (r: bool)
        ensures
            r == is_normal_jungseong_at(jungseong_to_code(*self as int)),
    {
        JungseongCharacter::to_code(*self).is_jungseong()
    }
}

impl JungseongInformation for char {
    fn is_jungseong(&self) -> (r: bool)
        ensures
            r == is_normal_jungseong_at((*self as u32) as int),
    {
        (*self as u32).is_jungseong()
    }

    fn has_jungseong(&self) -> (r: bool)
        ensures
            r == is_normal_jungseong_at(jungseong_to_code((*self as u32) as int)),
    {
        (*self as u32).has_jungseong()
    }
}

impl Jungseong {
    /// The vowel this conjoining nucleus names.
    pub closed spec fn character_spec(&self) -> JungseongCharacter {
        self.0
    }

    /// The vowel itself.
    pub fn character(&self) -> (r: JungseongCharacter)
        ensures
            r == self.character_spec(),
    {
        self.0
    }

    /// A vowel as a conjoining-block nucleus.
    pub fn from_character(ch: &JungseongCharacter) -> (r: Jungseong)
        ensures
            r.character_spec() == *ch,
    {
        Jungseong(*ch)
    }

    /// The conjoining vowel a code point names, or an error when it names
    /// none.
    pub fn try_from_u32(item: u32) -> (r: Result<Jungseong, ()>)
        ensures
            match r {
                Ok(c) => is_normal_jungseong_at(item as int) && jungseong_to_code(item as int)
                    == 0x1161 + jungseong_index(c.character_spec()),
                Err(_) => !is_normal_jungseong_at(item as int),
            },
    {
        let y = JungseongCharacter::to_code(item);
        if 0x1161 <= y && y <= 0x1175 {
            match crate::jungseong::Jungseong::try_from_u32(y) {
                Ok(j) => Ok(Jungseong(j.character())),
                Err(_) => Err(()),
            }
        } else {
            Err(())
        }
    }

    /// The conjoining vowel a character names, or an error when it names
    /// none.
    pub fn try_from_char(item: char) -> (r: Result<Jungseong, ()>)
        ensures
            match r {
                Ok(c) => is_normal_jungseong_at((item as u32) as int) && jungseong_to_code(
                    (item as u32) as int,
                ) == 0x1161 + jungseong_index(c.character_spec()),
                Err(_) => !is_normal_jungseong_at((item as u32) as int),
            },
    {
        Jungseong::try_from_u32(item as u32)
    }

    /// The conjoining-block code point of this vowel.
    pub fn to_u32(&self) -> (r: u32)
        ensures
            r as int == 0x1161 + jungseong_index(self.character_spec()),
    {
        self.0.to_index() + JUNGSEONG_START
    }

    /// The conjoining-block character of this vowel.
    pub fn to_char(&self) -> (r: char)
        ensures
            (r as u32) as int == 0x1161 + jungseong_index(self.character_spec()),
    {
        char_from_code(self.to_u32())
    }
}

impl CharacterInformation for Jungseong {
    fn is_jaeum(&self) -> (r: bool)
        ensures
            r == false,
    {
        self.0.is_jaeum()
    }

    fn is_moeum(&self) -> (r: bool)
        ensures
            r == true,
    {
        self.0.is_moeum()
    }

    fn to_composable(&self) -> (r: u32)
        ensures
            r as int == 28 * jungseong_index(self.character_spec()),
    {
        self.0.to_composable()
    }
}

} // verus!
