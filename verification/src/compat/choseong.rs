//! Onsets of the compatibility jamo block alone.

use vstd::prelude::*;

use crate::characters::char_from_code;
use crate::characters::choseong::{
    choseong_index, choseong_to_code, compat_choseong_code, compat_choseong_of,
    compat_choseong_rev, ChoseongCharacter,
};
use crate::characters::CharacterInformation;

verus! {

/// An onset consonant known to have come from the compatibility block.
#[derive(Clone, Copy, Debug, PartialEq, Eq, Structural)]
pub struct CompatChoseong(ChoseongCharacter);

/// Whether a code point names a compatibility-block onset (directly, or as a
/// syllable's onset through its conjoining form, which never matches).
pub open spec fn is_compat_choseong_code(x: int) -> bool {
    compat_choseong_rev(choseong_to_code(x)) is Some
}

pub trait CompatChoseongInformation {
    fn is_compat_choseong(&self) -> bool;

    fn has_compat_choseong(&self) -> bool;
}

impl CompatChoseongInformation for u32 {
    fn is_compat_choseong(&self) -> (r: bool)
        ensures
            r == is_compat_choseong_code(*self as int),
    {
        CompatChoseong::try_from_u32(*self).is_ok()
    }

    fn has_compat_choseong(&self) -> (r: bool)
        ensures
            r == is_compat_choseong_code(choseong_to_code(*self as int)),
    {
        ChoseongCharacter::to_code(*self).is_compat_choseong()
    }
}

impl CompatChoseongInformation for char {
    fn is_compat_choseong(&self) -> (r: bool)
        ensures
            r == is_compat_choseong_code((*self as u32) as int),
    {
        (*self as u32).is_compat_choseong()
    }

    fn has_compat_choseong(&self) -> (r: bool)
        ensures
            r == is_compat_choseong_code(choseong_to_code((*self as u32) as int)),
    {
        (*self as u32).has_compat_choseong()
    }
}

impl CompatChoseong {
    /// The consonant this compatibility onset names.
    pub closed spec fn character_spec(&self) -> ChoseongCharacter {
        self.0
    }

    /// The consonant itself.
    pub fn character(&self) -> (r: ChoseongCharacter)
        ensures
            r == self.character_spec(),
    {
        self.0
    }

    /// A consonant as a compatibility-block onset.
    pub fn from_character(ch: &ChoseongCharacter) -> (r: CompatChoseong)
        ensures
            r.character_spec() == *ch,
    {
        CompatChoseong(*ch)
    }

    /// The compatibility onset a code point names, or an error when it names
    /// none.
    pub fn try_from_u32(item: u32) -> (r: Result<CompatChoseong, ()>)
        ensures
            match r {
                Ok(c) => compat_choseong_rev(choseong_to_code(item as int)) == Some(
                    choseong_index(c.character_spec()),
                ),
                Err(_) => compat_choseong_rev(choseong_to_code(item as int)) is None,
            },
    {
        let y = ChoseongCharacter::to_code(item);
        if y == 0x3131 {
            Ok(CompatChoseong(ChoseongCharacter::Giyeok))
        } else if y == 0x3132 {
            Ok(CompatChoseong(ChoseongCharacter::SsangGiyeok))
        } else if y == 0x3134 {
            Ok(CompatChoseong(ChoseongCharacter::Nieun))
        } else if y == 0x3137 {
            Ok(CompatChoseong(ChoseongCharacter::Digeut))
        } else if y == 0x3138 {
            Ok(CompatChoseong(ChoseongCharacter::SsangDigeut))
        } else if y == 0x3139 {
            Ok(CompatChoseong(ChoseongCharacter::Rieul))
        } else if y == 0x3141 {
            Ok(CompatChoseong(ChoseongCharacter::Mieum))
        } else if y == 0x3142 {
            Ok(CompatChoseong(ChoseongCharacter::Bieup))
        } else if y == 0x3143 {
            Ok(CompatChoseong(ChoseongCharacter::SsangBieup))
        } else if y == 0x3145 {
            Ok(CompatChoseong(ChoseongCharacter::Siot))
        } else if y == 0x3146 {
            Ok(CompatChoseong(ChoseongCharacter::SsangSiot))
        } else if y == 0x3147 {
            Ok(CompatChoseong(ChoseongCharacter::Ieung))
        } else if y == 0x3148 {
            Ok(CompatChoseong(ChoseongCharacter::Jieut))
        } else if y == 0x3149 {
            Ok(CompatChoseong(ChoseongCharacter::SsangJieut))
        } else if y == 0x314A {
            Ok(CompatChoseong(ChoseongCharacter::Chieut))
        } else if y == 0x314B {
            Ok(CompatChoseong(ChoseongCharacter::Kiyeok))
        } else if y == 0x314C {
            Ok(CompatChoseong(ChoseongCharacter::Tieut))
        } else if y == 0x314D {
            Ok(CompatChoseong(ChoseongCharacter::Pieup))
        } else if y == 0x314E {
            Ok(CompatChoseong(ChoseongCharacter::Hieuh))
        } else {
            Err(())
        }
    }

    /// The compatibility onset a character names, or an error when it names
    /// none.
    pub fn try_from_char(item: char) -> (r: Result<CompatChoseong, ()>)
        ensures
            match r {
                Ok(c) => compat_choseong_rev(choseong_to_code((item as u32) as int)) == Some(
                    choseong_index(c.character_spec()),
                ),
                Err(_) => compat_choseong_rev(choseong_to_code((item as u32) as int)) is None,
            },
    {
        CompatChoseong::try_from_u32(item as u32)
    }

    /// The compatibility-block code point of this onset.
    pub fn to_u32(&self) -> (r: u32)
        ensures
            r as int == compat_choseong_code(choseong_index(self.character_spec())),
    {
        compat_choseong_of(self.0.to_index())
    }

    /// The compatibility-block character of this onset.
    pub fn to_char(&self) -> (r: char)
        ensures
            (r as u32) as int == compat_choseong_code(choseong_index(self.character_spec())),
    {
        char_from_code(self.to_u32())
    }
}

impl CharacterInformation for CompatChoseong {
    fn is_jaeum(&self) -> (r: bool)
        ensures
            r == true,
    {
        self.0.is_jaeum()
    }

    fn is_moeum(&self) -> (r: bool)
        ensures
            r == false,
    {
        self.0.is_moeum()
    }

    fn to_composable(&self) -> (r: u32)
        ensures
            r as int == 588 * choseong_index(self.character_spec()),
    {
        self.0.to_composable()
    }
}

} // verus!
