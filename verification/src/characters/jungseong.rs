//! The 21 modern jungseong (nucleus vowels), their composition indices and
//! their code points in the conjoining and compatibility jamo blocks. Both
//! blocks list the vowels contiguously in composition order.

use vstd::prelude::*;

use crate::characters::CharacterInformation;
use crate::constants::{HANGEUL_OFFSET, JONGSEONG_COUNT, JUNGSEONG_START};
use crate::syllable::{is_syllable_code, syllable_jung, SyllableInformation};

verus! {

#[derive(Clone, Copy, Debug, PartialEq, Eq, Structural)]
pub enum JungseongCharacter {
    /// ㅏ
    A,
    /// ㅐ
    AE,
    /// ㅑ
    YA,
    /// ㅒ
    YAE,
    /// ㅓ
    EO,
    /// ㅔ
    E,
    /// ㅕ
    YEO,
    /// ㅖ
    YE,
    /// ㅗ
    O,
    /// ㅘ
    WA,
    /// ㅙ
    WAE,
    /// ㅚ
    OE,
    /// ㅛ
    YO,
    /// ㅜ
    U,
    /// ㅝ
    WEO,
    /// ㅞ
    WE,
    /// ㅟ
    WI,
    /// ㅠ
    YU,
    /// ㅡ
    EU,
    /// ㅢ
    YI,
    /// ㅣ
    I,
}

/// Composition index of a jungseong.
pub open spec fn jungseong_index(c: JungseongCharacter) -> int {
    match c {
        JungseongCharacter::A => 0,
        JungseongCharacter::AE => 1,
        JungseongCharacter::YA => 2,
        JungseongCharacter::YAE => 3,
        JungseongCharacter::EO => 4,
        JungseongCharacter::E => 5,
        JungseongCharacter::YEO => 6,
        JungseongCharacter::YE => 7,
        JungseongCharacter::O => 8,
        JungseongCharacter::WA => 9,
        JungseongCharacter::WAE => 10,
        JungseongCharacter::OE => 11,
        JungseongCharacter::YO => 12,
        JungseongCharacter::U => 13,
        JungseongCharacter::WEO => 14,
        JungseongCharacter::WE => 15,
        JungseongCharacter::WI => 16,
        JungseongCharacter::YU => 17,
        JungseongCharacter::EU => 18,
        JungseongCharacter::YI => 19,
        JungseongCharacter::I => 20,
    }
}

/// The jungseong with the given composition index.
pub open spec fn jungseong_of_index(i: int) -> JungseongCharacter {
    if i == 0 {
        JungseongCharacter::A
    } else if i == 1 {
        JungseongCharacter::AE
    } else if i == 2 {
        JungseongCharacter::YA
    } else if i == 3 {
        JungseongCharacter::YAE
    } else if i == 4 {
        JungseongCharacter::EO
    } else if i == 5 {
        JungseongCharacter::E
    } else if i == 6 {
        JungseongCharacter::YEO
    } else if i == 7 {
        JungseongCharacter::YE
    } else if i == 8 {
        JungseongCharacter::O
    } else if i == 9 {
        JungseongCharacter::WA
    } else if i == 10 {
        JungseongCharacter::WAE
    } else if i == 11 {
        JungseongCharacter::OE
    } else if i == 12 {
        JungseongCharacter::YO
    } else if i == 13 {
        JungseongCharacter::U
    } else if i == 14 {
        JungseongCharacter::WEO
    } else if i == 15 {
        JungseongCharacter::WE
    } else if i == 16 {
        JungseongCharacter::WI
    } else if i == 17 {
        JungseongCharacter::YU
    } else if i == 18 {
        JungseongCharacter::EU
    } else if i == 19 {
        JungseongCharacter::YI
    } else {
        JungseongCharacter::I
    }
}

/// Code point of a jungseong in the compatibility jamo block, by composition
/// index.
pub open spec fn compat_jungseong_code(i: int) -> int {
    0x314F + i
}

/// A code point naming a jungseong in the compatibility jamo block.
pub open spec fn is_compat_jungseong_code(x: int) -> bool {
    0x314F <= x <= 0x3163
}

/// A code point naming a jungseong in the conjoining jamo block.
pub open spec fn is_normal_jungseong_code(x: int) -> bool {
    0x1161 <= x <= 0x1175
}

/// What `JungseongCharacter::to_code` computes: a syllable code point is
/// replaced by the conjoining code point of its nucleus; everything else is
/// returned unchanged.
pub open spec fn jungseong_to_code(code: int) -> int {
    if is_syllable_code(code) {
        syllable_jung(code) + 0x1161
    } else {
        code
    }
}

impl JungseongCharacter {
    /// Code point a jungseong query should classify: the nucleus's conjoining
    /// code point for a syllable, the code point itself otherwise.
    pub fn to_code(code: u32) -> (r: u32)
        ensures
            r as int == jungseong_to_code(code as int),
    {
        if code.is_syllable() {
            proof {
                crate::syllable::lemma_syllable_decompose(code as int);
            }
            let value = ((code - HANGEUL_OFFSET) % 588) / JONGSEONG_COUNT;
            value + JUNGSEONG_START
        } else {
            code
        }
    }

    pub fn to_index(&self) -> (r: u32)
        ensures
            r as int == jungseong_index(*self),
    {
        match self {
            JungseongCharacter::A => 0,
            JungseongCharacter::AE => 1,
            JungseongCharacter::YA => 2,
            JungseongCharacter::YAE => 3,
            JungseongCharacter::EO => 4,
            JungseongCharacter::E => 5,
            JungseongCharacter::YEO => 6,
            JungseongCharacter::YE => 7,
            JungseongCharacter::O => 8,
            JungseongCharacter::WA => 9,
            JungseongCharacter::WAE => 10,
            JungseongCharacter::OE => 11,
            JungseongCharacter::YO => 12,
            JungseongCharacter::U => 13,
            JungseongCharacter::WEO => 14,
            JungseongCharacter::WE => 15,
            JungseongCharacter::WI => 16,
            JungseongCharacter::YU => 17,
            JungseongCharacter::EU => 18,
            JungseongCharacter::YI => 19,
            JungseongCharacter::I => 20,
        }
    }
}

impl CharacterInformation for JungseongCharacter {
    fn is_jaeum(&self) -> (r: bool)
        ensures
            r == false,
    {
        false
    }

    fn is_moeum(&self) -> (r: bool)
        ensures
            r == true,
    {
        true
    }

    /// Composition weight of a nucleus: `28 * index`, the jongseong slot
    /// count times the index, per the syllable composition formula.
    fn to_composable(&self) -> (r: u32)
        ensures
            r as int == 28 * jungseong_index(*self),
    {
        self.to_index() * JONGSEONG_COUNT
    }
}

} // verus!
