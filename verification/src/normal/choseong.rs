//! Onsets of the conjoining jamo block alone.

use vstd::prelude::*;

use crate::characters::char_from_code;
use crate::characters::choseong::{
    choseong_index, choseong_of_index, choseong_to_code, is_normal_choseong_code,
    ChoseongCharacter,
};
use crate::characters::CharacterInformation;
use crate::constants::CHOSEONG_START;

verus! {

/// An onset consonant known to have come from the conjoining block.
#[derive(Clone, Copy, Debug, PartialEq, Eq, Structural)]
pub struct Choseong(ChoseongCharacter);

/// Whether a code point names a conjoining-block onset (directly, or as a
/// syllable's onset).
pub open spec fn is_normal_choseong_at(x: int) -> bool {
    is_normal_choseong_code(choseong_to_code(x))
}

pub trait ChoseongInformation {
    fn is_choseong(&self) -> bool;

    fn has_choseong(&self) -> bool;
}

impl ChoseongInformation for u32 {
    fn is_choseong(&self) -> (r: bool)
        ensures
            r == is_normal_choseong_at(*self as int),
    {
        Choseong::try_from_u32(*self).is_ok()
    }

    fn has_choseong(&self) -> (r: bool)
        ensures
            r == is_normal_choseong_at(choseong_to_code(*self as int)),
    {
        ChoseongCharacter::to_code(*self).is_choseong()
    }
}

impl ChoseongInformation for char {
    fn is_choseong(&self) -> (r: bool)
        ensures
            r == is_normal_choseong_at((*self as u32) as int),
    {
        (*self as u32).is_choseong()
    }

    fn has_choseong(&self) -> (r: bool)
        ensures
            r == is_normal_choseong_at(choseong_to_code((*self as u32) as int)),
    {
        (*self as u32).has_choseong()
    }
}

impl Choseong {
    /// The consonant this conjoining onset names.
    pub closed spec fn character_spec(&self) -> ChoseongCharacter {
        self.0
    }

    /// The consonant itself.
    pub fn character(&self) -> (r: ChoseongCharacter)
        ensures
            r == self.character_spec(),
    {
        self.0
    }

    /// A consonant as a conjoining-block onset.
    pub fn from_character(ch: &ChoseongCharacter) -> (r: Choseong)
        ensures
            r.character_spec() == *ch,
    {
        Choseong(*ch)
    }

    /// The conjoining onset a code point names, or an error when it names
    /// none.
    pub fn try_from_u32(item: u32) -> (r: Result<Choseong, ()>)
        ensures
            match r {
                Ok(c) => is_normal_choseong_at(item as int) && choseong_to_code(item as int)
                    == 0x1100 + choseong_index(c.character_spec()),
                Err(_) => !is_normal_choseong_at(item as int),
            },
    {
        let y = ChoseongCharacter::to_code(item);
        if 0x1100 <= y && y <= 0x1112 {
            let i = y - 0x1100;
            proof {
                assert(choseong_index(choseong_of_index(i as int)) == i as int);
            }
            Ok(Choseong(crate::choseong::Choseong::try_from_u32(y).unwrap().character()))
        } else {
            Err(())
        }
    }

    /// The conjoining onset a character names, or an error when it names
    /// none.
    pub fn try_from_char(item: char) -> (r: Result<Choseong, ()>)
        ensures
            match r {
                Ok(c) => is_normal_choseong_at((item as u32) as int) && choseong_to_code(
                    (item as u32) as int,
                ) == 0x1100 + choseong_index(c.character_spec()),
                Err(_) => !is_normal_choseong_at((item as u32) as int),
            },
    {
        Choseong::try_from_u32(item as u32)
    }

    /// The conjoining-block code point of this onset.
    pub fn to_u32(&self) -> (r: u32)
        ensures
            r as int == 0x1100 + choseong_index(self.character_spec()),
    {
        self.0.to_index() + CHOSEONG_START
    }

    /// The conjoining-block character of this onset.
    pub fn to_char(&self) -> (r: char)
        ensures
            (r as u32) as int == 0x1100 + choseong_index(self.character_spec()),
    {
        char_from_code(self.to_u32())
    }
}

impl CharacterInformation for Choseong {
    fn is_jaeum(&self) -> (r: bool)
        ensures
            r == true,
    {
        self.0.is_jaeum()
    }

    fn is_moeum(&self) -> (r: bool)
        ensures
            r == false,
    {
        self.0.is_moeum()
    }

    fn to_composable(&self) -> (r: u32)
        ensures
            r as int == 588 * choseong_index(self.character_spec()),
    {
        self.0.to_composable()
    }
}

} // verus!
