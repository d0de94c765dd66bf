//! Jongseong classification over both jamo blocks: a `Jongseong` is a coda
//! consonant together with the block (conjoining or compatibility) its code
//! point came from.

use vstd::prelude::*;

use crate::characters::char_from_code;
use crate::characters::jongseong::{
    compat_jongseong_code, compat_jongseong_of, compat_jongseong_rev, is_normal_jongseong_code,
    jongseong_index, jongseong_of_index, jongseong_to_code, JongseongCharacter,
};
use crate::characters::CharacterInformation;
use crate::constants::JONGSEONG_START;

verus! {

#[derive(Clone, Copy, Debug, PartialEq, Eq, Structural)]
pub enum Jongseong {
    Normal(JongseongCharacter),
    Compat(JongseongCharacter),
}

/// The consonant of a `Jongseong`, without its block.
pub open spec fn jongseong_character(c: Jongseong) -> JongseongCharacter {
    match c {
        Jongseong::Normal(ch) => ch,
        Jongseong::Compat(ch) => ch,
    }
}

/// The code point of a `Jongseong` in its own block.
pub open spec fn jongseong_code(c: Jongseong) -> int {
    match c {
        Jongseong::Normal(ch) => 0x11A7 + jongseong_index(ch),
        Jongseong::Compat(ch) => compat_jongseong_code(jongseong_index(ch)),
    }
}

/// The `Jongseong` a code point names: a syllable counts as its own coda
/// (none when it has no coda), a conjoining or compatibility coda code point
/// as itself.
pub open spec fn jongseong_from_code(x: int) -> Option<Jongseong> {
    let y = jongseong_to_code(x);
    if is_normal_jongseong_code(y) {
        Some(Jongseong::Normal(jongseong_of_index(y - 0x11A7)))
    } else {
        match compat_jongseong_rev(y) {
            Some(i) => Some(Jongseong::Compat(jongseong_of_index(i))),
            None => None,
        }
    }
}

/// Whether a code point names a coda (directly, or as a syllable's coda).
pub open spec fn is_jongseong_code(x: int) -> bool {
    jongseong_from_code(x) is Some
}

/// Whether a code point names a conjoining-block coda.
pub open spec fn is_normal_jongseong(x: int) -> bool {
    jongseong_from_code(x) matches Some(Jongseong::Normal(_))
}

/// Whether a code point names a compatibility-block coda.
pub open spec fn is_compat_jongseong(x: int) -> bool {
    jongseong_from_code(x) matches Some(Jongseong::Compat(_))
}

pub trait JongseongInformation {
    fn is_jongseong(&self) -> bool;

    fn is_normal_jongseong(&self) -> bool;

    fn is_compat_jongseong(&self) -> bool;

    fn has_jongseong(&self) -> bool;

    fn has_normal_jongseong(&self) -> bool;

    fn has_compat_jongseong(&self) -> bool;
}

impl JongseongInformation for u32 {
    fn is_jongseong(&self) -> (r: bool)
        ensures
            r == is_jongseong_code(*self as int),
    {
        Jongseong::try_from_u32(*self).is_ok()
    }

    fn is_normal_jongseong(&self) -> (r: bool)
        ensures
            r == is_normal_jongseong(*self as int),
    {
        match Jongseong::try_from_u32(*self) {
            Ok(jongseong) => match jongseong {
                Jongseong::Normal(_) => true,
                Jongseong::Compat(_) => false,
            },
            Err(_) => false,
        }
    }

    fn is_compat_jongseong(&self) -> (r: bool)
        ensures
            r == is_compat_jongseong(*self as int),
    {
        match Jongseong::try_from_u32(*self) {
            Ok(jongseong) => match jongseong {
                Jongseong::Normal(_) => false,
                Jongseong::Compat(_) => true,
            },
            Err(_) => false,
        }
    }

    fn has_jongseong(&self) -> (r: bool)
        ensures
            r == is_jongseong_code(jongseong_to_code(*self as int)),
    {
        JongseongCharacter::to_code(*self).is_jongseong()
    }

    fn has_normal_jongseong(&self) -> (r: bool)
        ensures
            r == is_normal_jongseong(jongseong_to_code(*self as int)),
    {
        JongseongCharacter::to_code(*self).is_normal_jongseong()
    }

    fn has_compat_jongseong(&self) -> (r: bool)
        ensures
            r == is_compat_jongseong(jongseong_to_code(*self as int)),
    {
        JongseongCharacter::to_code(*self).is_compat_jongseong()
    }
}

impl JongseongInformation for char {
    fn is_jongseong(&self) -> (r: bool)
        ensures
            r == is_jongseong_code((*self as u32) as int),
    {
        (*self as u32).is_jongseong()
    }

    fn is_normal_jongseong(&self) -> (r: bool)
        ensures
            r == is_normal_jongseong((*self as u32) as int),
    {
        (*self as u32).is_normal_jongseong()
    }

    fn is_compat_jongseong(&self) -> (r: bool)
        ensures
            r == is_compat_jongseong((*self as u32) as int),
    {
        (*self as u32).is_compat_jongseong()
    }

    fn has_jongseong(&self) -> (r: bool)
        ensures
            r == is_jongseong_code(jongseong_to_code((*self as u32) as int)),
    {
        (*self as u32).has_jongseong()
    }

    fn has_normal_jongseong(&self) -> (r: bool)
        ensures
            r == is_normal_jongseong(jongseong_to_code((*self as u32) as int)),
    {
        (*self as u32).has_normal_jongseong()
    }

    fn has_compat_jongseong(&self) -> (r: bool)
        ensures
            r == is_compat_jongseong(jongseong_to_code((*self as u32) as int)),
    {
        (*self as u32).has_compat_jongseong()
    }
}

impl JongseongCharacter {
    /// This consonant as a conjoining-block `Jongseong`.
    pub fn to_normal(&self) -> (r: Jongseong)
        ensures
            r == Jongseong::Normal(*self),
    {
        Jongseong::Normal(*self)
    }

    /// This consonant as a compatibility-block `Jongseong`.
    pub fn to_compat(&self) -> (r: Jongseong)
        ensures
            r == Jongseong::Compat(*self),
    {
        Jongseong::Compat(*self)
    }
}

impl Jongseong {
    /// The consonant itself, without its block.
    pub fn character(&self) -> (r: JongseongCharacter)
        ensures
            r == jongseong_character(*self),
    {
        match self {
            Jongseong::Normal(ch) => *ch,
            Jongseong::Compat(ch) => *ch,
        }
    }

    /// A consonant as a conjoining-block `Jongseong`.
    pub fn from_character(ch: &JongseongCharacter) -> (r: Jongseong)
        ensures
            r == Jongseong::Normal(*ch),
    {
        Jongseong::Normal(*ch)
    }

    /// The `Jongseong` a code point names, or an error when it names none.
    pub fn try_from_u32(item: u32) -> (r: Result<Jongseong, ()>)
        ensures
            match r {
                Ok(c) => jongseong_from_code(item as int) == Some(c),
                Err(_) => jongseong_from_code(item as int) is None,
            },
    {
        let y = JongseongCharacter::to_code(item);
        if 0x11A8 <= y && y <= 0x11C2 {
            Ok(Jongseong::Normal(Self::character_of_index(y - 0x11A7)))
        } else {
            match crate::characters::jongseong::compat_jongseong_index_of(y) {
                Some(i) => Ok(Jongseong::Compat(Self::character_of_index(i))),
                None => Err(()),
            }
        }
    }

    /// The `Jongseong` a character names, or an error when it names none.
    pub fn try_from_char(item: char) -> (r: Result<Jongseong, ()>)
        ensures
            match r {
                Ok(c) => jongseong_from_code((item as u32) as int) == Some(c),
                Err(_) => jongseong_from_code((item as u32) as int) is None,
            },
    {
        Jongseong::try_from_u32(item as u32)
    }

    /// The code point of this coda in its own block.
    pub fn to_u32(&self) -> (r: u32)
        ensures
            r as int == jongseong_code(*self),
    {
        match self {
            Jongseong::Normal(ch) => ch.to_index() + JONGSEONG_START - 1,
            Jongseong::Compat(ch) => compat_jongseong_of(ch.to_index()),
        }
    }

    /// The character of this coda in its own block.
    pub fn to_char(&self) -> (r: char)
        ensures
            (r as u32) as int == jongseong_code(*self),
    {
        char_from_code(self.to_u32())
    }

    fn character_of_index(i: u32) -> (r: JongseongCharacter)
        requires
            1 <= i <= 27,
        ensures
            r == jongseong_of_index(i as int),
    {
        if i == 1 {
            JongseongCharacter::Giyeok
        } else if i == 2 {
            JongseongCharacter::SsangGiyeok
        } else if i == 3 {
            JongseongCharacter::GiyeokSiot
        } else if i == 4 {
            JongseongCharacter::Nieun
        } else if i == 5 {
            JongseongCharacter::NieunJieut
        } else if i == 6 {
            JongseongCharacter::NieunHieuh
        } else if i == 7 {
            JongseongCharacter::Digeut
        } else if i == 8 {
            JongseongCharacter::Rieul
        } else if i == 9 {
            JongseongCharacter::RieulGiyeok
        } else if i == 10 {
            JongseongCharacter::RieulMieum
        } else if i == 11 {
            JongseongCharacter::RieulBieup
        } else if i == 12 {
            JongseongCharacter::RieulSiot
        } else if i == 13 {
            JongseongCharacter::RieulTieut
        } else if i == 14 {
            JongseongCharacter::RieulPieup
        } else if i == 15 {
            JongseongCharacter::RieulHieuh
        } else if i == 16 {
            JongseongCharacter::Mieum
        } else if i == 17 {
            JongseongCharacter::Bieup
        } else if i == 18 {
            JongseongCharacter::BieupSiot
        } else if i == 19 {
            JongseongCharacter::Siot
        } else if i == 20 {
            JongseongCharacter::SsangSiot
        } else if i == 21 {
            JongseongCharacter::Ieung
        } else if i == 22 {
            JongseongCharacter::Jieut
        } else if i == 23 {
            JongseongCharacter::Chieut
        } else if i == 24 {
            JongseongCharacter::Kieuk
        } else if i == 25 {
            JongseongCharacter::Tieut
        } else if i == 26 {
            JongseongCharacter::Pieup
        } else {
            JongseongCharacter::Hieuh
        }
    }
}

impl CharacterInformation for Jongseong {
    fn is_jaeum(&self) -> (r: bool)
        ensures
            r == true,
    {
        self.character().is_jaeum()
    }

    fn is_moeum(&self) -> (r: bool)
        ensures
            r == false,
    {
        self.character().is_moeum()
    }

    fn to_composable(&self) -> (r: u32)
        ensures
            r as int == jongseong_index(jongseong_character(*self)),
    {
        self.character().to_index()
    }
}

} // verus!
