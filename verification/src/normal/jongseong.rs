//! Codas of the conjoining jamo block alone.

use vstd::prelude::*;

use crate::characters::char_from_code;
use crate::characters::jongseong::{
    is_normal_jongseong_code, jongseong_index, jongseong_to_code, JongseongCharacter,
};
use crate::characters::CharacterInformation;
use crate::constants::JONGSEONG_START;

verus! {

/// A coda consonant known to have come from the conjoining block.
#[derive(Clone, Copy, Debug, PartialEq, Eq, Structural)]
pub struct Jongseong(JongseongCharacter);

/// Whether a code point names a conjoining-block coda (directly, or as a
/// syllable's coda).
pub open spec fn is_normal_jongseong_at(x: int) -> bool {
    is_normal_jongseong_code(jongseong_to_code(x))
}

pub trait JongseongInformation {
    fn is_jongseong(&self) -> bool;

    fn has_jongseong(&self) -> bool;
}

impl JongseongInformation for u32 {
    fn is_jongseong(&self) -> (r: bool)
        ensures
            r == is_normal_jongseong_at(*self as int),
    {
        Jongseong::try_from_u32(*self).is_ok()
    }

    fn has_jongseong(&self) -> (r: bool)
        ensures
            r == is_normal_jongseong_at(jongseong_to_code(*self as int)),
    {
        JongseongCharacter::to_code(*self).is_jongseong()
    }
}

impl JongseongInformation for char {
    fn is_jongseong(&self) -> (r: bool)
        ensures
            r == is_normal_jongseong_at((*self as u32) as int),
    {
        (*self as u32).is_jongseong()
    }

    fn has_jongseong(&self) -> (r: bool)
        ensures
            r == is_normal_jongseong_at(jongseong_to_code((*self as u32) as int)),
    {
        (*self as u32).has_jongseong()
    }
}

impl Jongseong {
    /// The consonant this conjoining coda names.
    pub closed spec fn character_spec(&self) -> JongseongCharacter {
        self.0
    }

    /// The consonant itself.
    pub fn character(&self) -> (r: JongseongCharacter)
        ensures
            r == self.character_spec(),
    {
        self.0
    }

    /// A consonant as a conjoining-block coda.
    pub fn from_character(ch: &JongseongCharacter) -> (r: Jongseong)
        ensures
            r.character_spec() == *ch,
    {
        Jongseong(*ch)
    }

    /// The conjoining coda a code point names, or an error when it names
    /// none.
    pub fn try_from_u32(item: u32) -> (r: Result<Jongseong, ()>)
        ensures
            match r {
                Ok(c) => is_normal_jongseong_at(item as int) && jongseong_to_code(item as int)
                    == 0x11A7 + jongseong_index(c.character_spec()),
                Err(_) => !is_normal_jongseong_at(item as int),
            },
    {
        let y = JongseongCharacter::to_code(item);
        if 0x11A8 <= y && y <= 0x11C2 {
            match crate::jongseong::Jongseong::try_from_u32(y) {
                Ok(j) => Ok(Jongseong(j.character())),
                Err(_) => Err(()),
            }
        } else {
            Err(())
        }
    }

    /// The conjoining coda a character names, or an error when it names
    /// none.
    pub fn try_from_char(item: char) -> (r: Result<Jongseong, ()>)
        ensures
            match r {
                Ok(c) => is_normal_jongseong_at((item as u32) as int) && jongseong_to_code(
                    (item as u32) as int,
                ) == 0x11A7 + jongseong_index(c.character_spec()),
                Err(_) => !is_normal_jongseong_at((item as u32) as int),
            },
    {
        Jongseong::try_from_u32(item as u32)
    }

    /// The conjoining-block code point of this coda.
    pub fn to_u32(&self) -> (r: u32)
        ensures
            r as int == 0x11A7 + jongseong_index(self.character_spec()),
    {
        self.0.to_index() + JONGSEONG_START - 1
    }

    /// The conjoining-block character of this coda.
    pub fn to_char(&self) -> (r: char)
        ensures
            (r as u32) as int == 0x11A7 + jongseong_index(self.character_spec()),
    {
        char_from_code(self.to_u32())
    }
}

impl CharacterInformation for Jongseong {
    fn is_jaeum(&self) -> (r: bool)
        ensures
            r == true,
    {
        self.0.is_jaeum()
    }

    fn is_moeum(&self) -> (r: bool)
        ensures
            r == false,
    {
        self.0.is_moeum()
    }

    fn to_composable(&self) -> (r: u32)
        ensures
            r as int == jongseong_index(self.character_spec()),
    {
        self.0.to_composable()
    }
}

} // verus!
