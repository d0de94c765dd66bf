//! Jungseong classification over both jamo blocks: a `Jungseong` is a
//! nucleus vowel together with the block (conjoining or compatibility) its
//! code point came from.

use vstd::prelude::*;

use crate::characters::char_from_code;
use crate::characters::jungseong::{
    is_compat_jungseong_code, is_normal_jungseong_code, jungseong_index, jungseong_of_index,
    jungseong_to_code, JungseongCharacter,
};
use crate::characters::CharacterInformation;
use crate::constants::{COMPAT_JUNGSEONG_START, JONGSEONG_COUNT, JUNGSEONG_START};

verus! {

#[derive(Clone, Copy, Debug, PartialEq, Eq, Structural)]
pub enum Jungseong {
    Normal(JungseongCharacter),
    Compat(JungseongCharacter),
}

/// The vowel of a `Jungseong`, without its block.
pub open spec fn jungseong_character(c: Jungseong) -> JungseongCharacter {
    match c {
        Jungseong::Normal(ch) => ch,
        Jungseong::Compat(ch) => ch,
    }
}

/// The code point of a `Jungseong` in its own block.
pub open spec fn jungseong_code(c: Jungseong) -> int {
    match c {
        Jungseong::Normal(ch) => 0x1161 + jungseong_index(ch),
        Jungseong::Compat(ch) => 0x314F + jungseong_index(ch),
    }
}

/// The `Jungseong` a code point names: a syllable counts as its own nucleus,
/// a conjoining or compatibility vowel code point as itself.
pub open spec fn jungseong_from_code(x: int) -> Option<Jungseong> {
    let y = jungseong_to_code(x);
    if is_normal_jungseong_code(y) {
        Some(Jungseong::Normal(jungseong_of_index(y - 0x1161)))
    } else if is_compat_jungseong_code(y) {
        Some(Jungseong::Compat(jungseong_of_index(y - 0x314F)))
    } else {
        None
    }
}

/// Whether a code point names a nucleus (directly, or as a syllable's
/// nucleus).
pub open spec fn is_jungseong_code(x: int) -> bool {
    jungseong_from_code(x) is Some
}

/// Whether a code point names a conjoining-block nucleus.
pub open spec fn is_normal_jungseong(x: int) -> bool {
    jungseong_from_code(x) matches Some(Jungseong::Normal(_))
}

/// Whether a code point names a compatibility-block nucleus.
pub open spec fn is_compat_jungseong(x: int) -> bool {
    jungseong_from_code(x) matches Some(Jungseong::Compat(_))
}

pub trait JungseongInformation {
    fn is_jungseong(&self) -> bool;

    fn is_normal_jungseong(&self) -> bool;

    fn is_compat_jungseong(&self) -> bool;

    fn has_jungseong(&self) -> bool;

    fn has_normal_jungseong(&self) -> bool;

    fn has_compat_jungseong(&self) -> bool;
}

impl JungseongInformation for u32 {
    fn is_jungseong(&self) -> (r: bool)
        ensures
            r == is_jungseong_code(*self as int),
    {
        Jungseong::try_from_u32(*self).is_ok()
    }

    fn is_normal_jungseong(&self) -> (r: bool)
        ensures
            r == is_normal_jungseong(*self as int),
    {
        match Jungseong::try_from_u32(*self) {
            Ok(jungseong) => match jungseong {
                Jungseong::Normal(_) => true,
                Jungseong::Compat(_) => false,
            },
            Err(_) => false,
        }
    }

    fn is_compat_jungseong(&self) -> (r: bool)
        ensures
            r == is_compat_jungseong(*self as int),
    {
        match Jungseong::try_from_u32(*self) {
            Ok(jungseong) => match jungseong {
                Jungseong::Normal(_) => false,
                Jungseong::Compat(_) => true,
            },
            Err(_) => false,
        }
    }

    fn has_jungseong(&self) -> (r: bool)
        ensures
            r == is_jungseong_code(jungseong_to_code(*self as int)),
    {
        JungseongCharacter::to_code(*self).is_jungseong()
    }

    fn has_normal_jungseong(&self) -> (r: bool)
        ensures
            r == is_normal_jungseong(jungseong_to_code(*self as int)),
    {
        JungseongCharacter::to_code(*self).is_normal_jungseong()
    }

    fn has_compat_jungseong(&self) -> (r: bool)
        ensures
            r == is_compat_jungseong(jungseong_to_code(*self as int)),
    {
        JungseongCharacter::to_code(*self).is_compat_jungseong()
    }
}

impl JungseongInformation for char {
    fn is_jungseong(&self) -> (r: bool)
        ensures
            r == is_jungseong_code((*self as u32) as int),
    {
        (*self as u32).is_jungseong()
    }

    fn is_normal_jungseong(&self) -> (r: bool)
        ensures
            r == is_normal_jungseong((*self as u32) as int),
    {
        (*self as u32).is_normal_jungseong()
    }

    fn is_compat_jungseong(&self) -> (r: bool)
        ensures
            r == is_compat_jungseong((*self as u32) as int),
    {
        (*self as u32).is_compat_jungseong()
    }

    fn has_jungseong(&self) -> (r: bool)
        ensures
            r == is_jungseong_code(jungseong_to_code((*self as u32) as int)),
    {
        (*self as u32).has_jungseong()
    }

    fn has_normal_jungseong(&self) -> (r: bool)
        ensures
            r == is_normal_jungseong(jungseong_to_code((*self as u32) as int)),
    {
        (*self as u32).has_normal_jungseong()
    }

    fn has_compat_jungseong(&self) -> (r: bool)
        ensures
            r == is_compat_jungseong(jungseong_to_code((*self as u32) as int)),
    {
        (*self as u32).has_compat_jungseong()
    }
}

impl Jungseong {
    /// The vowel itself, without its block.
    pub fn character(&self) -> (r: JungseongCharacter)
        ensures
            r == jungseong_character(*self),
    {
        match self {
            Jungseong::Normal(ch) => *ch,
            Jungseong::Compat(ch) => *ch,
        }
    }

    /// A vowel as a conjoining-block `Jungseong`.
    pub fn from_character(ch: &JungseongCharacter) -> (r: Jungseong)
        ensures
            r == Jungseong::Normal(*ch),
    {
        Jungseong::Normal(*ch)
    }

    /// The `Jungseong` a code point names, or an error when it names none.
    pub fn try_from_u32(item: u32) -> (r: Result<Jungseong, ()>)
        ensures
            match r {
                Ok(c) => jungseong_from_code(item as int) == Some(c),
                Err(_) => jungseong_from_code(item as int) is None,
            },
    {
        let y = JungseongCharacter::to_code(item);
        if 0x1161 <= y && y <= 0x1175 {
            Ok(Jungseong::Normal(Self::character_of_index(y - 0x1161)))
        } else if 0x314F <= y && y <= 0x3163 {
            Ok(Jungseong::Compat(Self::character_of_index(y - 0x314F)))
        } else {
            Err(())
        }
    }

    /// The `Jungseong` a character names, or an error when it names none.
    pub fn try_from_char(item: char) -> (r: Result<Jungseong, ()>)
        ensures
            match r {
                Ok(c) => jungseong_from_code((item as u32) as int) == Some(c),
                Err(_) => jungseong_from_code((item as u32) as int) is None,
            },
    {
        Jungseong::try_from_u32(item as u32)
    }

    /// The code point of this nucleus in its own block.
    pub fn to_u32(&self) -> (r: u32)
        ensures
            r as int == jungseong_code(*self),
    {
        match self {
            Jungseong::Normal(ch) => ch.to_index() + JUNGSEONG_START,
            Jungseong::Compat(ch) => ch.to_index() + COMPAT_JUNGSEONG_START,
        }
    }

    /// The character of this nucleus in its own block.
    pub fn to_char(&self) -> (r: char)
        ensures
            (r as u32) as int == jungseong_code(*self),
    {
        char_from_code(self.to_u32())
    }

    fn character_of_index(i: u32) -> (r: JungseongCharacter)
        requires
            i < 21,
        ensures
            r == jungseong_of_index(i as int),
    {
        if i == 0 {
            JungseongCharacter::A
        } else if i == 1 {
            JungseongCharacter::AE
        } else if i == 2 {
            JungseongCharacter::YA
        } else if i == 3 {
            JungseongCharacter::YAE
        } else if i == 4 {
            JungseongCharacter::EO
        } else if i == 5 {
            JungseongCharacter::E
        } else if i == 6 {
            JungseongCharacter::YEO
        } else if i == 7 {
            JungseongCharacter::YE
        } else if i == 8 {
            JungseongCharacter::O
        } else if i == 9 {
            JungseongCharacter::WA
        } else if i == 10 {
            JungseongCharacter::WAE
        } else if i == 11 {
            JungseongCharacter::OE
        } else if i == 12 {
            JungseongCharacter::YO
        } else if i == 13 {
            JungseongCharacter::U
        } else if i == 14 {
            JungseongCharacter::WEO
        } else if i == 15 {
            JungseongCharacter::WE
        } else if i == 16 {
            JungseongCharacter::WI
        } else if i == 17 {
            JungseongCharacter::YU
        } else if i == 18 {
            JungseongCharacter::EU
        } else if i == 19 {
            JungseongCharacter::YI
        } else {
            JungseongCharacter::I
        }
    }
}

impl CharacterInformation for Jungseong {
    fn is_jaeum(&self) -> (r: bool)
        ensures
            r == false,
    {
        self.character().is_jaeum()
    }

    fn is_moeum(&self) -> (r: bool)
        ensures
            r == true,
    {
        self.character().is_moeum()
    }

    fn to_composable(&self) -> (r: u32)
        ensures
            r as int == 28 * jungseong_index(jungseong_character(*self)),
    {
        self.character().to_index() * JONGSEONG_COUNT
    }
}

} // verus!
