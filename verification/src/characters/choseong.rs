//! The 19 modern choseong (onset consonants), their composition indices and
//! their code points in the conjoining and compatibility jamo blocks.

use vstd::prelude::*;

use crate::characters::CharacterInformation;
use crate::constants::{CHOSEONG_START, HANGEUL_OFFSET, JONGSEONG_COUNT, JUNGSEONG_COUNT};
use crate::syllable::{is_syllable_code, syllable_cho, SyllableInformation};

verus! {

#[derive(Clone, Copy, Debug, PartialEq, Eq, Structural)]
pub enum ChoseongCharacter {
    /// ㄱ
    Giyeok,
    /// ㄲ
    SsangGiyeok,
    /// ㄴ
    Nieun,
    /// ㄷ
    Digeut,
    /// ㄸ
    SsangDigeut,
    /// ㄹ
    Rieul,
    /// ㅁ
    Mieum,
    /// ㅂ
    Bieup,
    /// ㅃ
    SsangBieup,
    /// ㅅ
    Siot,
    /// ㅆ
    SsangSiot,
    /// ㅇ
    Ieung,
    /// ㅈ
    Jieut,
    /// ㅉ
    SsangJieut,
    /// ㅊ
    Chieut,
    /// ㅋ
    Kiyeok,
    /// ㅌ
    Tieut,
    /// ㅍ
    Pieup,
    /// ㅎ
    Hieuh,
}

/// Composition index of a choseong.
pub open spec fn choseong_index(c: ChoseongCharacter) -> int {
    match c {
        ChoseongCharacter::Giyeok => 0,
        ChoseongCharacter::SsangGiyeok => 1,
        ChoseongCharacter::Nieun => 2,
        ChoseongCharacter::Digeut => 3,
        ChoseongCharacter::SsangDigeut => 4,
        ChoseongCharacter::Rieul => 5,
        ChoseongCharacter::Mieum => 6,
        ChoseongCharacter::Bieup => 7,
        ChoseongCharacter::SsangBieup => 8,
        ChoseongCharacter::Siot => 9,
        ChoseongCharacter::SsangSiot => 10,
        ChoseongCharacter::Ieung => 11,
        ChoseongCharacter::Jieut => 12,
        ChoseongCharacter::SsangJieut => 13,
        ChoseongCharacter::Chieut => 14,
        ChoseongCharacter::Kiyeok => 15,
        ChoseongCharacter::Tieut => 16,
        ChoseongCharacter::Pieup => 17,
        ChoseongCharacter::Hieuh => 18,
    }
}

/// The choseong with the given composition index.
pub open spec fn choseong_of_index(i: int) -> ChoseongCharacter {
    if i == 0 {
        ChoseongCharacter::Giyeok
    } else if i == 1 {
        ChoseongCharacter::SsangGiyeok
    } else if i == 2 {
        ChoseongCharacter::Nieun
    } else if i == 3 {
        ChoseongCharacter::Digeut
    } else if i == 4 {
        ChoseongCharacter::SsangDigeut
    } else if i == 5 {
        ChoseongCharacter::Rieul
    } else if i == 6 {
        ChoseongCharacter::Mieum
    } else if i == 7 {
        ChoseongCharacter::Bieup
    } else if i == 8 {
        ChoseongCharacter::SsangBieup
    } else if i == 9 {
        ChoseongCharacter::Siot
    } else if i == 10 {
        ChoseongCharacter::SsangSiot
    } else if i == 11 {
        ChoseongCharacter::Ieung
    } else if i == 12 {
        ChoseongCharacter::Jieut
    } else if i == 13 {
        ChoseongCharacter::SsangJieut
    } else if i == 14 {
        ChoseongCharacter::Chieut
    } else if i == 15 {
        ChoseongCharacter::Kiyeok
    } else if i == 16 {
        ChoseongCharacter::Tieut
    } else if i == 17 {
        ChoseongCharacter::Pieup
    } else {
        ChoseongCharacter::Hieuh
    }
}

/// Code point of a choseong in the compatibility jamo block, by composition
/// index.
pub open spec fn compat_choseong_code(i: int) -> int {
    if i == 0 {
        0x3131
    } else if i == 1 {
        0x3132
    } else if i == 2 {
        0x3134
    } else if i == 3 {
        0x3137
    } else if i == 4 {
        0x3138
    } else if i == 5 {
        0x3139
    } else if i == 6 {
        0x3141
    } else if i == 7 {
        0x3142
    } else if i == 8 {
        0x3143
    } else if i == 9 {
        0x3145
    } else if i == 10 {
        0x3146
    } else if i == 11 {
        0x3147
    } else if i == 12 {
        0x3148
    } else if i == 13 {
        0x3149
    } else if i == 14 {
        0x314A
    } else if i == 15 {
        0x314B
    } else if i == 16 {
        0x314C
    } else if i == 17 {
        0x314D
    } else {
        0x314E
    }
}

/// Composition index of a compatibility-block choseong code point.
pub open spec fn compat_choseong_rev(x: int) -> Option<int> {
    if x == 0x3131 {
        Some(0int)
    } else if x == 0x3132 {
        Some(1int)
    } else if x == 0x3134 {
        Some(2int)
    } else if x == 0x3137 {
        Some(3int)
    } else if x == 0x3138 {
        Some(4int)
    } else if x == 0x3139 {
        Some(5int)
    } else if x == 0x3141 {
        Some(6int)
    } else if x == 0x3142 {
        Some(7int)
    } else if x == 0x3143 {
        Some(8int)
    } else if x == 0x3145 {
        Some(9int)
    } else if x == 0x3146 {
        Some(10int)
    } else if x == 0x3147 {
        Some(11int)
    } else if x == 0x3148 {
        Some(12int)
    } else if x == 0x3149 {
        Some(13int)
    } else if x == 0x314A {
        Some(14int)
    } else if x == 0x314B {
        Some(15int)
    } else if x == 0x314C {
        Some(16int)
    } else if x == 0x314D {
        Some(17int)
    } else if x == 0x314E {
        Some(18int)
    } else {
        None
    }
}

/// A code point naming a choseong in the conjoining jamo block.
pub open spec fn is_normal_choseong_code(x: int) -> bool {
    0x1100 <= x <= 0x1112
}

/// What `ChoseongCharacter::to_code` computes: a syllable code point is
/// replaced by the conjoining code point of its onset; everything else is
/// returned unchanged.
pub open spec fn choseong_to_code(code: int) -> int {
    if is_syllable_code(code) {
        syllable_cho(code) + 0x1100
    } else {
        code
    }
}

impl ChoseongCharacter {
    /// Code point a choseong query should classify: the onset's conjoining
    /// code point for a syllable, the code point itself otherwise.
    pub fn to_code(code: u32) -> (r: u32)
        ensures
            r as int == choseong_to_code(code as int),
    {
        if code.is_syllable() {
            proof {
                crate::syllable::lemma_syllable_decompose(code as int);
            }
            let value = (code - HANGEUL_OFFSET) / (JUNGSEONG_COUNT * JONGSEONG_COUNT);
            value + CHOSEONG_START
        } else {
            code
        }
    }

    pub fn to_index(&self) -> (r: u32)
        ensures
            r as int == choseong_index(*self),
    {
        match self {
            ChoseongCharacter::Giyeok => 0,
            ChoseongCharacter::SsangGiyeok => 1,
            ChoseongCharacter::Nieun => 2,
            ChoseongCharacter::Digeut => 3,
            ChoseongCharacter::SsangDigeut => 4,
            ChoseongCharacter::Rieul => 5,
            ChoseongCharacter::Mieum => 6,
            ChoseongCharacter::Bieup => 7,
            ChoseongCharacter::SsangBieup => 8,
            ChoseongCharacter::Siot => 9,
            ChoseongCharacter::SsangSiot => 10,
            ChoseongCharacter::Ieung => 11,
            ChoseongCharacter::Jieut => 12,
            ChoseongCharacter::SsangJieut => 13,
            ChoseongCharacter::Chieut => 14,
            ChoseongCharacter::Kiyeok => 15,
            ChoseongCharacter::Tieut => 16,
            ChoseongCharacter::Pieup => 17,
            ChoseongCharacter::Hieuh => 18,
        }
    }
}

/// Compatibility-block code point of the choseong with the given composition
/// index.
pub fn compat_choseong_of(i: u32) -> (r: u32)
    requires
        i < 19,
    ensures
        r as int == compat_choseong_code(i as int),
{
    if i == 0 {
        0x3131
    } else if i == 1 {
        0x3132
    } else if i == 2 {
        0x3134
    } else if i == 3 {
        0x3137
    } else if i == 4 {
        0x3138
    } else if i == 5 {
        0x3139
    } else if i == 6 {
        0x3141
    } else if i == 7 {
        0x3142
    } else if i == 8 {
        0x3143
    } else if i == 9 {
        0x3145
    } else if i == 10 {
        0x3146
    } else if i == 11 {
        0x3147
    } else if i == 12 {
        0x3148
    } else if i == 13 {
        0x3149
    } else if i == 14 {
        0x314A
    } else if i == 15 {
        0x314B
    } else if i == 16 {
        0x314C
    } else if i == 17 {
        0x314D
    } else {
        0x314E
    }
}

impl CharacterInformation for ChoseongCharacter {
    fn is_jaeum(&self) -> (r: bool)
        ensures
            r == true,
    {
        true
    }

    fn is_moeum(&self) -> (r: bool)
        ensures
            r == false,
    {
        false
    }

    /// Composition weight of an onset: `588 * index`.
    fn to_composable(&self) -> (r: u32)
        ensures
            r as int == 588 * choseong_index(*self),
    {
        self.to_index() * JUNGSEONG_COUNT * JONGSEONG_COUNT
    }
}

} // verus!
