//! The 27 modern jongseong (coda consonants), their composition indices and
//! their code points in the conjoining and compatibility jamo blocks.
//! Composition index 0 is reserved for "no coda", so indices run from 1
//! to 27.

use vstd::prelude::*;

use crate::characters::CharacterInformation;
use crate::constants::{HANGEUL_OFFSET, JONGSEONG_COUNT, JONGSEONG_START};
use crate::syllable::{is_syllable_code, syllable_jong, SyllableInformation};

verus! {

#[derive(Clone, Copy, Debug, PartialEq, Eq, Structural)]
pub enum JongseongCharacter {
    /// ᆨ
    Giyeok,
    /// ᆩ
    SsangGiyeok,
    /// ᆪ
    GiyeokSiot,
    /// ᆫ
    Nieun,
    /// ᆬ
    NieunJieut,
    /// ᆭ
    NieunHieuh,
    /// ᆮ
    Digeut,
    /// ᆯ
    Rieul,
    /// ᆰ
    RieulGiyeok,
    /// ᆱ
    RieulMieum,
    /// ᆲ
    RieulBieup,
    /// ᆳ
    RieulSiot,
    /// ᆴ
    RieulTieut,
    /// ᆵ
    RieulPieup,
    /// ᆶ
    RieulHieuh,
    /// ᆷ
    Mieum,
    /// ᆸ
    Bieup,
    /// ᆹ
    BieupSiot,
    /// ᆺ
    Siot,
    /// ᆻ
    SsangSiot,
    /// ᆼ
    Ieung,
    /// ᆽ
    Jieut,
    /// ᆾ
    Chieut,
    /// ᆿ
    Kieuk,
    /// ᇀ
    Tieut,
    /// ᇁ
    Pieup,
    /// ᇂ
    Hieuh,
}

/// Composition index of a jongseong (1 to 27; 0 means "no coda").
pub open spec fn jongseong_index(c: JongseongCharacter) -> int {
    match c {
        JongseongCharacter::Giyeok => 1,
        JongseongCharacter::SsangGiyeok => 2,
        JongseongCharacter::GiyeokSiot => 3,
        JongseongCharacter::Nieun => 4,
        JongseongCharacter::NieunJieut => 5,
        JongseongCharacter::NieunHieuh => 6,
        JongseongCharacter::Digeut => 7,
        JongseongCharacter::Rieul => 8,
        JongseongCharacter::RieulGiyeok => 9,
        JongseongCharacter::RieulMieum => 10,
        JongseongCharacter::RieulBieup => 11,
        JongseongCharacter::RieulSiot => 12,
        JongseongCharacter::RieulTieut => 13,
        JongseongCharacter::RieulPieup => 14,
        JongseongCharacter::RieulHieuh => 15,
        JongseongCharacter::Mieum => 16,
        JongseongCharacter::Bieup => 17,
        JongseongCharacter::BieupSiot => 18,
        JongseongCharacter::Siot => 19,
        JongseongCharacter::SsangSiot => 20,
        JongseongCharacter::Ieung => 21,
        JongseongCharacter::Jieut => 22,
        JongseongCharacter::Chieut => 23,
        JongseongCharacter::Kieuk => 24,
        JongseongCharacter::Tieut => 25,
        JongseongCharacter::Pieup => 26,
        JongseongCharacter::Hieuh => 27,
    }
}

/// The jongseong with the given composition index (1 to 27).
pub open spec fn jongseong_of_index(i: int) -> JongseongCharacter {
    if i == 1 {
        JongseongCharacter::Giyeok
    } else if i == 2 {
        JongseongCharacter::SsangGiyeok
    } else if i == 3 {
        JongseongCharacter::GiyeokSiot
    } else if i == 4 {
        JongseongCharacter::Nieun
    } else if i == 5 {
        JongseongCharacter::NieunJieut
    } else if i == 6 {
        JongseongCharacter::NieunHieuh
    } else if i == 7 {
        JongseongCharacter::Digeut
    } else if i == 8 {
        JongseongCharacter::Rieul
    } else if i == 9 {
        JongseongCharacter::RieulGiyeok
    } else if i == 10 {
        JongseongCharacter::RieulMieum
    } else if i == 11 {
        JongseongCharacter::RieulBieup
    } else if i == 12 {
        JongseongCharacter::RieulSiot
    } else if i == 13 {
        JongseongCharacter::RieulTieut
    } else if i == 14 {
        JongseongCharacter::RieulPieup
    } else if i == 15 {
        JongseongCharacter::RieulHieuh
    } else if i == 16 {
        JongseongCharacter::Mieum
    } else if i == 17 {
        JongseongCharacter::Bieup
    } else if i == 18 {
        JongseongCharacter::BieupSiot
    } else if i == 19 {
        JongseongCharacter::Siot
    } else if i == 20 {
        JongseongCharacter::SsangSiot
    } else if i == 21 {
        JongseongCharacter::Ieung
    } else if i == 22 {
        JongseongCharacter::Jieut
    } else if i == 23 {
        JongseongCharacter::Chieut
    } else if i == 24 {
        JongseongCharacter::Kieuk
    } else if i == 25 {
        JongseongCharacter::Tieut
    } else if i == 26 {
        JongseongCharacter::Pieup
    } else {
        JongseongCharacter::Hieuh
    }
}

/// Code point of a jongseong in the compatibility jamo block, by composition
/// index (1 to 27).
pub open spec fn compat_jongseong_code(i: int) -> int {
    if i == 1 {
        0x3131
    } else if i == 2 {
        0x3132
    } else if i == 3 {
        0x3133
    } else if i == 4 {
        0x3134
    } else if i == 5 {
        0x3135
    } else if i == 6 {
        0x3136
    } else if i == 7 {
        0x3137
    } else if i == 8 {
        0x3139
    } else if i == 9 {
        0x313A
    } else if i == 10 {
        0x313B
    } else if i == 11 {
        0x313C
    } else if i == 12 {
        0x313D
    } else if i == 13 {
        0x313E
    } else if i == 14 {
        0x313F
    } else if i == 15 {
        0x3140
    } else if i == 16 {
        0x3141
    } else if i == 17 {
        0x3142
    } else if i == 18 {
        0x3144
    } else if i == 19 {
        0x3145
    } else if i == 20 {
        0x3146
    } else if i == 21 {
        0x3147
    } else if i == 22 {
        0x3148
    } else if i == 23 {
        0x314A
    } else if i == 24 {
        0x314B
    } else if i == 25 {
        0x314C
    } else if i == 26 {
        0x314D
    } else {
        0x314E
    }
}

/// Composition index of a compatibility-block jongseong code point.
pub open spec fn compat_jongseong_rev(x: int) -> Option<int> {
    if x == 0x3131 {
        Some(1int)
    } else if x == 0x3132 {
        Some(2int)
    } else if x == 0x3133 {
        Some(3int)
    } else if x == 0x3134 {
        Some(4int)
    } else if x == 0x3135 {
        Some(5int)
    } else if x == 0x3136 {
        Some(6int)
    } else if x == 0x3137 {
        Some(7int)
    } else if x == 0x3139 {
        Some(8int)
    } else if x == 0x313A {
        Some(9int)
    } else if x == 0x313B {
        Some(10int)
    } else if x == 0x313C {
        Some(11int)
    } else if x == 0x313D {
        Some(12int)
    } else if x == 0x313E {
        Some(13int)
    } else if x == 0x313F {
        Some(14int)
    } else if x == 0x3140 {
        Some(15int)
    } else if x == 0x3141 {
        Some(16int)
    } else if x == 0x3142 {
        Some(17int)
    } else if x == 0x3144 {
        Some(18int)
    } else if x == 0x3145 {
        Some(19int)
    } else if x == 0x3146 {
        Some(20int)
    } else if x == 0x3147 {
        Some(21int)
    } else if x == 0x3148 {
        Some(22int)
    } else if x == 0x314A {
        Some(23int)
    } else if x == 0x314B {
        Some(24int)
    } else if x == 0x314C {
        Some(25int)
    } else if x == 0x314D {
        Some(26int)
    } else if x == 0x314E {
        Some(27int)
    } else {
        None
    }
}

/// A code point naming a jongseong in the conjoining jamo block.
pub open spec fn is_normal_jongseong_code(x: int) -> bool {
    0x11A8 <= x <= 0x11C2
}

/// What `JongseongCharacter::to_code` computes: a syllable code point is
/// replaced by the conjoining code point of its coda (one below the block
/// start when the syllable has no coda); everything else is returned
/// unchanged.
pub open spec fn jongseong_to_code(code: int) -> int {
    if is_syllable_code(code) {
        syllable_jong(code) + 0x11A7
    } else {
        code
    }
}

impl JongseongCharacter {
    /// Code point a jongseong query should classify: the coda's conjoining
    /// code point for a syllable, the code point itself otherwise.
    pub fn to_code(code: u32) -> (r: u32)
        ensures
            r as int == jongseong_to_code(code as int),
    {
        if code.is_syllable() {
            proof {
                crate::syllable::lemma_syllable_decompose(code as int);
            }
            let value = (code - HANGEUL_OFFSET) % JONGSEONG_COUNT;
            value + JONGSEONG_START - 1
        } else {
            code
        }
    }

    pub fn to_index(&self) -> (r: u32)
        ensures
            r as int == jongseong_index(*self),
    {
        match self {
            JongseongCharacter::Giyeok => 1,
            JongseongCharacter::SsangGiyeok => 2,
            JongseongCharacter::GiyeokSiot => 3,
            JongseongCharacter::Nieun => 4,
            JongseongCharacter::NieunJieut => 5,
            JongseongCharacter::NieunHieuh => 6,
            JongseongCharacter::Digeut => 7,
            JongseongCharacter::Rieul => 8,
            JongseongCharacter::RieulGiyeok => 9,
            JongseongCharacter::RieulMieum => 10,
            JongseongCharacter::RieulBieup => 11,
            JongseongCharacter::RieulSiot => 12,
            JongseongCharacter::RieulTieut => 13,
            JongseongCharacter::RieulPieup => 14,
            JongseongCharacter::RieulHieuh => 15,
            JongseongCharacter::Mieum => 16,
            JongseongCharacter::Bieup => 17,
            JongseongCharacter::BieupSiot => 18,
            JongseongCharacter::Siot => 19,
            JongseongCharacter::SsangSiot => 20,
            JongseongCharacter::Ieung => 21,
            JongseongCharacter::Jieut => 22,
            JongseongCharacter::Chieut => 23,
            JongseongCharacter::Kieuk => 24,
            JongseongCharacter::Tieut => 25,
            JongseongCharacter::Pieup => 26,
            JongseongCharacter::Hieuh => 27,
        }
    }
}

/// Compatibility-block code point of the jongseong with the given
/// composition index.
pub fn compat_jongseong_of(i: u32) -> (r: u32)
    requires
        1 <= i <= 27,
    ensures
        r as int == compat_jongseong_code(i as int),
{
    if i == 1 {
        0x3131
    } else if i == 2 {
        0x3132
    } else if i == 3 {
        0x3133
    } else if i == 4 {
        0x3134
    } else if i == 5 {
        0x3135
    } else if i == 6 {
        0x3136
    } else if i == 7 {
        0x3137
    } else if i == 8 {
        0x3139
    } else if i == 9 {
        0x313A
    } else if i == 10 {
        0x313B
    } else if i == 11 {
        0x313C
    } else if i == 12 {
        0x313D
    } else if i == 13 {
        0x313E
    } else if i == 14 {
        0x313F
    } else if i == 15 {
        0x3140
    } else if i == 16 {
        0x3141
    } else if i == 17 {
        0x3142
    } else if i == 18 {
        0x3144
    } else if i == 19 {
        0x3145
    } else if i == 20 {
        0x3146
    } else if i == 21 {
        0x3147
    } else if i == 22 {
        0x3148
    } else if i == 23 {
        0x314A
    } else if i == 24 {
        0x314B
    } else if i == 25 {
        0x314C
    } else if i == 26 {
        0x314D
    } else {
        0x314E
    }
}

/// Composition index of a compatibility-block jongseong code point.
pub fn compat_jongseong_index_of(x: u32) -> (r: Option<u32>)
    ensures
        match r {
            Some(k) => compat_jongseong_rev(x as int) == Some(k as int),
            None => compat_jongseong_rev(x as int) is None,
        },
{
    if x == 0x3131 {
        Some(1)
    } else if x == 0x3132 {
        Some(2)
    } else if x == 0x3133 {
        Some(3)
    } else if x == 0x3134 {
        Some(4)
    } else if x == 0x3135 {
        Some(5)
    } else if x == 0x3136 {
        Some(6)
    } else if x == 0x3137 {
        Some(7)
    } else if x == 0x3139 {
        Some(8)
    } else if x == 0x313A {
        Some(9)
    } else if x == 0x313B {
        Some(10)
    } else if x == 0x313C {
        Some(11)
    } else if x == 0x313D {
        Some(12)
    } else if x == 0x313E {
        Some(13)
    } else if x == 0x313F {
        Some(14)
    } else if x == 0x3140 {
        Some(15)
    } else if x == 0x3141 {
        Some(16)
    } else if x == 0x3142 {
        Some(17)
    } else if x == 0x3144 {
        Some(18)
    } else if x == 0x3145 {
        Some(19)
    } else if x == 0x3146 {
        Some(20)
    } else if x == 0x3147 {
        Some(21)
    } else if x == 0x3148 {
        Some(22)
    } else if x == 0x314A {
        Some(23)
    } else if x == 0x314B {
        Some(24)
    } else if x == 0x314C {
        Some(25)
    } else if x == 0x314D {
        Some(26)
    } else if x == 0x314E {
        Some(27)
    } else {
        None
    }
}

impl CharacterInformation for JongseongCharacter {
    fn is_jaeum(&self) -> (r: bool)
        ensures
            r == true,
    {
        true
    }

    fn is_moeum(&self) -> (r: bool)
        ensures
            r == false,
    {
        false
    }

    /// Composition weight of a coda: the index itself.
    fn to_composable(&self) -> (r: u32)
        ensures
            r as int == jongseong_index(*self),
    {
        self.to_index()
    }
}

} // verus!
