//! Choseong classification over both jamo blocks: a `Choseong` is an onset
//! consonant together with the block (conjoining or compatibility) its code
//! point came from.

use vstd::prelude::*;

use crate::characters::char_from_code;
use crate::characters::choseong::{
    choseong_index, choseong_of_index, choseong_to_code, compat_choseong_code,
    compat_choseong_of, compat_choseong_rev, is_normal_choseong_code, ChoseongCharacter,
};
use crate::characters::CharacterInformation;
use crate::constants::{CHOSEONG_START, JONGSEONG_COUNT, JUNGSEONG_COUNT};

verus! {

#[derive(Clone, Copy, Debug, PartialEq, Eq, Structural)]
pub enum Choseong {
    Normal(ChoseongCharacter),
    Compat(ChoseongCharacter),
}

/// The consonant of a `Choseong`, without its block.
pub open spec fn choseong_character(c: Choseong) -> ChoseongCharacter {
    match c {
        Choseong::Normal(ch) => ch,
        Choseong::Compat(ch) => ch,
    }
}

/// The code point of a `Choseong` in its own block.
pub open spec fn choseong_code(c: Choseong) -> int {
    match c {
        Choseong::Normal(ch) => 0x1100 + choseong_index(ch),
        Choseong::Compat(ch) => compat_choseong_code(choseong_index(ch)),
    }
}

/// The `Choseong` a code point names: a syllable counts as its own onset,
/// a conjoining or compatibility onset code point as itself.
pub open spec fn choseong_from_code(x: int) -> Option<Choseong> {
    let y = choseong_to_code(x);
    if is_normal_choseong_code(y) {
        Some(Choseong::Normal(choseong_of_index(y - 0x1100)))
    } else {
        match compat_choseong_rev(y) {
            Some(i) => Some(Choseong::Compat(choseong_of_index(i))),
            None => None,
        }
    }
}

/// Whether a code point names an onset (directly, or as a syllable's onset).
pub open spec fn is_choseong_code(x: int) -> bool {
    choseong_from_code(x) is Some
}

pub trait ChoseongInformation {
    fn is_choseong(&self) -> bool;

    fn has_choseong(&self) -> bool;
}

impl ChoseongInformation for u32 {
    fn is_choseong(&self) -> (r: bool)
        ensures
            r == is_choseong_code(*self as int),
    {
        Choseong::try_from_u32(*self).is_ok()
    }

    fn has_choseong(&self) -> (r: bool)
        ensures
            r == is_choseong_code(choseong_to_code(*self as int)),
    {
        ChoseongCharacter::to_code(*self).is_choseong()
    }
}

impl ChoseongInformation for char {
    fn is_choseong(&self) -> (r: bool)
        ensures
            r == is_choseong_code((*self as u32) as int),
    {
        (*self as u32).is_choseong()
    }

    fn has_choseong(&self) -> (r: bool)
        ensures
            r == is_choseong_code(choseong_to_code((*self as u32) as int)),
    {
        (*self as u32).has_choseong()
    }
}

impl Choseong {
    /// The consonant itself, without its block.
    pub fn character(&self) -> (r: ChoseongCharacter)
        ensures
            r == choseong_character(*self),
    {
        match self {
            Choseong::Normal(ch) => *ch,
            Choseong::Compat(ch) => *ch,
        }
    }

    /// A consonant as a conjoining-block `Choseong`.
    pub fn from_character(ch: &ChoseongCharacter) -> (r: Choseong)
        ensures
            r == Choseong::Normal(*ch),
    {
        Choseong::Normal(*ch)
    }

    /// The `Choseong` a code point names, or an error when it names none.
    pub fn try_from_u32(item: u32) -> (r: Result<Choseong, ()>)
        ensures
            match r {
                Ok(c) => choseong_from_code(item as int) == Some(c),
                Err(_) => choseong_from_code(item as int) is None,
            },
    {
        let y = ChoseongCharacter::to_code(item);
        if 0x1100 <= y && y <= 0x1112 {
            let i = y - 0x1100;
            Ok(Choseong::Normal(Self::character_of_index(i)))
        } else if y == 0x3131 {
            Ok(Choseong::Compat(ChoseongCharacter::Giyeok))
        } else if y == 0x3132 {
            Ok(Choseong::Compat(ChoseongCharacter::SsangGiyeok))
        } else if y == 0x3134 {
            Ok(Choseong::Compat(ChoseongCharacter::Nieun))
        } else if y == 0x3137 {
            Ok(Choseong::Compat(ChoseongCharacter::Digeut))
        } else if y == 0x3138 {
            Ok(Choseong::Compat(ChoseongCharacter::SsangDigeut))
        } else if y == 0x3139 {
            Ok(Choseong::Compat(ChoseongCharacter::Rieul))
        } else if y == 0x3141 {
            Ok(Choseong::Compat(ChoseongCharacter::Mieum))
        } else if y == 0x3142 {
            Ok(Choseong::Compat(ChoseongCharacter::Bieup))
        } else if y == 0x3143 {
            Ok(Choseong::Compat(ChoseongCharacter::SsangBieup))
        } else if y == 0x3145 {
            Ok(Choseong::Compat(ChoseongCharacter::Siot))
        } else if y == 0x3146 {
            Ok(Choseong::Compat(ChoseongCharacter::SsangSiot))
        } else if y == 0x3147 {
            Ok(Choseong::Compat(ChoseongCharacter::Ieung))
        } else if y == 0x3148 {
            Ok(Choseong::Compat(ChoseongCharacter::Jieut))
        } else if y == 0x3149 {
            Ok(Choseong::Compat(ChoseongCharacter::SsangJieut))
        } else if y == 0x314A {
            Ok(Choseong::Compat(ChoseongCharacter::Chieut))
        } else if y == 0x314B {
            Ok(Choseong::Compat(ChoseongCharacter::Kiyeok))
        } else if y == 0x314C {
            Ok(Choseong::Compat(ChoseongCharacter::Tieut))
        } else if y == 0x314D {
            Ok(Choseong::Compat(ChoseongCharacter::Pieup))
        } else if y == 0x314E {
            Ok(Choseong::Compat(ChoseongCharacter::Hieuh))
        } else {
            Err(())
        }
    }

    /// The `Choseong` a character names, or an error when it names none.
    pub fn try_from_char(item: char) -> (r: Result<Choseong, ()>)
        ensures
            match r {
                Ok(c) => choseong_from_code((item as u32) as int) == Some(c),
                Err(_) => choseong_from_code((item as u32) as int) is None,
            },
    {
        Choseong::try_from_u32(item as u32)
    }

    /// The code point of this onset in its own block.
    pub fn to_u32(&self) -> (r: u32)
        ensures
            r as int == choseong_code(*self),
    {
        match self {
            Choseong::Normal(ch) => ch.to_index() + CHOSEONG_START,
            Choseong::Compat(ch) => compat_choseong_of(ch.to_index()),
        }
    }

    /// The character of this onset in its own block.
    pub fn to_char(&self) -> (r: char)
        ensures
            (r as u32) as int == choseong_code(*self),
    {
        char_from_code(self.to_u32())
    }

    fn character_of_index(i: u32) -> (r: ChoseongCharacter)
        requires
            i < 19,
        ensures
            r == choseong_of_index(i as int),
    {
        if i == 0 {
            ChoseongCharacter::Giyeok
        } else if i == 1 {
            ChoseongCharacter::SsangGiyeok
        } else if i == 2 {
            ChoseongCharacter::Nieun
        } else if i == 3 {
            ChoseongCharacter::Digeut
        } else if i == 4 {
            ChoseongCharacter::SsangDigeut
        } else if i == 5 {
            ChoseongCharacter::Rieul
        } else if i == 6 {
            ChoseongCharacter::Mieum
        } else if i == 7 {
            ChoseongCharacter::Bieup
        } else if i == 8 {
            ChoseongCharacter::SsangBieup
        } else if i == 9 {
            ChoseongCharacter::Siot
        } else if i == 10 {
            ChoseongCharacter::SsangSiot
        } else if i == 11 {
            ChoseongCharacter::Ieung
        } else if i == 12 {
            ChoseongCharacter::Jieut
        } else if i == 13 {
            ChoseongCharacter::SsangJieut
        } else if i == 14 {
            ChoseongCharacter::Chieut
        } else if i == 15 {
            ChoseongCharacter::Kiyeok
        } else if i == 16 {
            ChoseongCharacter::Tieut
        } else if i == 17 {
            ChoseongCharacter::Pieup
        } else {
            ChoseongCharacter::Hieuh
        }
    }
}

impl CharacterInformation for Choseong {
    fn is_jaeum(&self) -> (r: bool)
        ensures
            r == true,
    {
        self.character().is_jaeum()
    }

    fn is_moeum(&self) -> (r: bool)
        ensures
            r == false,
    {
        self.character().is_moeum()
    }

    fn to_composable(&self) -> (r: u32)
        ensures
            r as int == 588 * choseong_index(choseong_character(*self)),
    {
        self.character().to_index() * JUNGSEONG_COUNT * JONGSEONG_COUNT
    }
}

} // verus!
