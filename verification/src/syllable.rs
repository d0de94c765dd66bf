//! The syllable codec: the arithmetic bijection between a precomposed
//! syllable code point and its (choseong, jungseong, jongseong) component
//! indices, the block-range classification predicates, and the `Syllable`
//! value type.

use vstd::prelude::*;

use crate::characters::char_from_code;
use crate::characters::choseong::{choseong_index, ChoseongCharacter};
use crate::characters::jongseong::{jongseong_index, JongseongCharacter};
use crate::characters::jungseong::{jungseong_index, JungseongCharacter};
use crate::characters::CharacterInformation;
use crate::choseong::{choseong_character, choseong_from_code, Choseong};
use crate::compat::choseong::{CompatChoseong, CompatChoseongInformation};
use crate::compat::jongseong::{CompatJongseong, CompatJongseongInformation};
use crate::compat::jungseong::{CompatJungseong, CompatJungseongInformation};
use crate::constants::{
    COMPAT_JAMO_END, COMPAT_JAMO_START, HANGEUL_OFFSET, JAMO_END, JAMO_START, SYLLABLE_END,
    SYLLABLE_START,
};
use crate::jongseong::{jongseong_character, jongseong_from_code, Jongseong};
use crate::jungseong::{jungseong_character, jungseong_from_code, Jungseong};
use crate::normal::choseong::ChoseongInformation;
use crate::normal::jongseong::JongseongInformation;
use crate::normal::jungseong::JungseongInformation;

verus! {

// ---------------------------------------------------------------------------
// Block ranges.
// ---------------------------------------------------------------------------

/// A code point in the precomposed syllable block.
pub open spec fn is_syllable_code(x: int) -> bool {
    0xAC00 <= x <= 0xD7A3
}

/// A code point in the conjoining jamo block.
pub open spec fn is_jamo_code(x: int) -> bool {
    0x1100 <= x <= 0x11FF
}

/// A code point in the compatibility jamo block (the slice of it holding the
/// modern consonants and vowels).
pub open spec fn is_compat_jamo_code(x: int) -> bool {
    0x3131 <= x <= 0x318E
}

pub open spec fn is_hangeul_code(x: int) -> bool {
    is_syllable_code(x) || is_jamo_code(x) || is_compat_jamo_code(x)
}

// ---------------------------------------------------------------------------
// The composition bijection.
//
// A syllable code point is `0xAC00 + (cho * 21 + jung) * 28 + jong`, with
// `cho < 19`, `jung < 21` and `jong < 28` (`jong == 0` meaning "no coda").
// ---------------------------------------------------------------------------

/// Choseong index of a syllable code point.
pub open spec fn syllable_cho(x: int) -> int {
    (x - 0xAC00) / 588
}

/// Jungseong index of a syllable code point.
pub open spec fn syllable_jung(x: int) -> int {
    ((x - 0xAC00) % 588) / 28
}

/// Jongseong index of a syllable code point; `0` means the syllable has no
/// coda.
pub open spec fn syllable_jong(x: int) -> int {
    (x - 0xAC00) % 28
}

/// The syllable code point composed from component indices.
pub open spec fn compose_code(cho: int, jung: int, jong: int) -> int {
    0xAC00 + 588 * cho + 28 * jung + jong
}

/// Decomposing a syllable code point yields in-range indices, and composing
/// them back yields the same code point.
pub proof fn lemma_syllable_decompose(x: int)
    requires
        is_syllable_code(x),
    ensures
        0 <= syllable_cho(x) < 19,
        0 <= syllable_jung(x) < 21,
        0 <= syllable_jong(x) < 28,
        compose_code(syllable_cho(x), syllable_jung(x), syllable_jong(x)) == x,
{
    let d = x - 0xAC00;
    vstd::arithmetic::div_mod::lemma_fundamental_div_mod(d, 588);
    vstd::arithmetic::div_mod::lemma_fundamental_div_mod(d % 588, 28);
    vstd::arithmetic::div_mod::lemma_mod_breakdown(d, 28, 21);
}

/// Composing in-range component indices yields a syllable code point that
/// decomposes back to the same indices.
pub proof fn lemma_syllable_compose(cho: int, jung: int, jong: int)
    requires
        0 <= cho < 19,
        0 <= jung < 21,
        0 <= jong < 28,
    ensures
        is_syllable_code(compose_code(cho, jung, jong)),
        syllable_cho(compose_code(cho, jung, jong)) == cho,
        syllable_jung(compose_code(cho, jung, jong)) == jung,
        syllable_jong(compose_code(cho, jung, jong)) == jong,
{
    let d = 588 * cho + 28 * jung + jong;
    vstd::arithmetic::div_mod::lemma_fundamental_div_mod_converse(d, 588, cho, 28 * jung + jong);
    vstd::arithmetic::div_mod::lemma_fundamental_div_mod_converse(28 * jung + jong, 28, jung, jong);
    vstd::arithmetic::div_mod::lemma_fundamental_div_mod_converse(d, 28, 21 * cho + jung, jong);
}

// ---------------------------------------------------------------------------
// Classification of whole code points.
// ---------------------------------------------------------------------------

pub trait SyllableInformation {
    fn is_hangeul(&self) -> bool;

    fn is_syllable(&self) -> bool;

    fn is_jamo(&self) -> bool;

    fn is_compat_jamo(&self) -> bool;
}

impl SyllableInformation for u32 {
    fn is_hangeul(&self) -> (r: bool)
        ensures
            r == is_hangeul_code(*self as int),
    {
        self.is_syllable() || self.is_jamo() || self.is_compat_jamo()
    }

    fn is_syllable(&self) -> (r: bool)
        ensures
            r == is_syllable_code(*self as int),
    {
        SYLLABLE_START <= *self && *self <= SYLLABLE_END
    }

    fn is_jamo(&self) -> (r: bool)
        ensures
            r == is_jamo_code(*self as int),
    {
        JAMO_START <= *self && *self <= JAMO_END
    }

    fn is_compat_jamo(&self) -> (r: bool)
        ensures
            r == is_compat_jamo_code(*self as int),
    {
        COMPAT_JAMO_START <= *self && *self <= COMPAT_JAMO_END
    }
}

// ---------------------------------------------------------------------------
// The syllable value type.
// ---------------------------------------------------------------------------

/// A code point known to lie in the precomposed syllable block.
#[derive(Clone, Copy, Debug, PartialEq, Eq, Structural)]
pub struct Syllable(u32);

/// The code point a triple of jamo code points composes to, if each of the
/// three names its component (in either block, or through a syllable).
pub open spec fn syllable_of_triple(a: int, b: int, k: Option<int>) -> Option<int> {
    match choseong_from_code(a) {
        Some(c) => match jungseong_from_code(b) {
            Some(j) => {
                let ci = choseong_index(choseong_character(c));
                let ji = jungseong_index(jungseong_character(j));
                match k {
                    Some(kc) => match jongseong_from_code(kc) {
                        Some(jo) => Some(
                            compose_code(ci, ji, jongseong_index(jongseong_character(jo))),
                        ),
                        None => None,
                    },
                    None => Some(compose_code(ci, ji, 0)),
                }
            },
            None => None,
        },
        None => None,
    }
}

impl Syllable {
    /// The syllable's code point.
    pub closed spec fn code_spec(&self) -> int {
        self.0 as int
    }

    #[verifier::type_invariant]
    spec fn wf(&self) -> bool {
        is_syllable_code(self.0 as int)
    }

    /// The syllable a code point names, or an error when the code point is
    /// outside the syllable block.
    pub fn try_from_u32(item: u32) -> (r: Result<Syllable, ()>)
        ensures
            match r {
                Ok(s) => is_syllable_code(item as int) && s.code_spec() == item as int,
                Err(_) => !is_syllable_code(item as int),
            },
    {
        if item.is_syllable() {
            Ok(Syllable(item))
        } else {
            Err(())
        }
    }

    /// The syllable a character names, or an error when it names none.
    pub fn try_from_char(item: &char) -> (r: Result<Syllable, ()>)
        ensures
            match r {
                Ok(s) => is_syllable_code((*item as u32) as int) && s.code_spec() == (*item
                    as u32) as int,
                Err(_) => !is_syllable_code((*item as u32) as int),
            },
    {
        Syllable::try_from_u32(*item as u32)
    }

    /// The syllable composed from jamo code points (each accepted in either
    /// block), or an error when a component is not what it should be.
    pub fn try_from_triple_u32(cho: u32, jung: u32, jong: Option<u32>) -> (r: Result<
        Syllable,
        (),
    >)
        ensures
            match r {
                Ok(s) => syllable_of_triple(
                    cho as int,
                    jung as int,
                    match jong {
                        Some(k) => Some(k as int),
                        None => None,
                    },
                ) == Some(s.code_spec()),
                Err(_) => syllable_of_triple(
                    cho as int,
                    jung as int,
                    match jong {
                        Some(k) => Some(k as int),
                        None => None,
                    },
                ) is None,
            },
    {
        let c = match Choseong::try_from_u32(cho) {
            Ok(c) => c,
            Err(_) => {
                return Err(());
            },
        };
        let j = match Jungseong::try_from_u32(jung) {
            Ok(j) => j,
            Err(_) => {
                return Err(());
            },
        };
        let k = match jong {
            Some(code) => match Jongseong::try_from_u32(code) {
                Ok(jo) => jo.to_composable(),
                Err(_) => {
                    return Err(());
                },
            },
            None => 0,
        };
        Syllable::try_from_u32(c.to_composable() + j.to_composable() + k + HANGEUL_OFFSET)
    }

    /// The syllable composed from jamo characters (each accepted in either
    /// block), or an error when a component is not what it should be.
    pub fn try_from_triple_char(cho: char, jung: char, jong: Option<char>) -> (r: Result<
        Syllable,
        (),
    >)
        ensures
            match r {
                Ok(s) => syllable_of_triple(
                    (cho as u32) as int,
                    (jung as u32) as int,
                    match jong {
                        Some(k) => Some((k as u32) as int),
                        None => None,
                    },
                ) == Some(s.code_spec()),
                Err(_) => syllable_of_triple(
                    (cho as u32) as int,
                    (jung as u32) as int,
                    match jong {
                        Some(k) => Some((k as u32) as int),
                        None => None,
                    },
                ) is None,
            },
    {
        let jong_code = match jong {
            Some(k) => Some(k as u32),
            None => None,
        };
        Syllable::try_from_triple_u32(cho as u32, jung as u32, jong_code)
    }

    /// The syllable composed from typed components.
    pub fn try_from_components(cho: &Choseong, jung: &Jungseong, jong: Option<&Jongseong>) -> (r:
        Result<Syllable, ()>)
        ensures
            match r {
                Ok(s) => s.code_spec() == compose_code(
                    choseong_index(choseong_character(*cho)),
                    jungseong_index(jungseong_character(*jung)),
                    match jong {
                        Some(jo) => jongseong_index(jongseong_character(*jo)),
                        None => 0,
                    },
                ),
                Err(_) => false,
            },
    {
        let k = match jong {
            Some(jo) => jo.to_composable(),
            None => 0,
        };
        Syllable::try_from_u32(cho.to_composable() + jung.to_composable() + k + HANGEUL_OFFSET)
    }

    /// The syllable composed from typed compatibility components.
    pub fn try_from_compat_components(
        cho: &CompatChoseong,
        jung: &CompatJungseong,
        jong: Option<&CompatJongseong>,
    ) -> (r: Result<Syllable, ()>)
        ensures
            match r {
                Ok(s) => s.code_spec() == compose_code(
                    choseong_index(cho.character_spec()),
                    jungseong_index(jung.character_spec()),
                    match jong {
                        Some(jo) => jongseong_index(jo.character_spec()),
                        None => 0,
                    },
                ),
                Err(_) => false,
            },
    {
        let k = match jong {
            Some(jo) => jo.to_composable(),
            None => 0,
        };
        Syllable::try_from_u32(cho.to_composable() + jung.to_composable() + k + HANGEUL_OFFSET)
    }

    /// The syllable's code point.
    pub fn to_u32(&self) -> (r: u32)
        ensures
            r as int == self.code_spec(),
    {
        self.0
    }

    /// The syllable's character.
    pub fn to_char(&self) -> (r: char)
        ensures
            (r as u32) as int == self.code_spec(),
            is_syllable_code(self.code_spec()),
    {
        proof {
            use_type_invariant(&*self);
        }
        char_from_code(self.0)
    }

    /// The syllable's components as conjoining-block code points; the third
    /// is `None` when the syllable has no coda.
    pub fn to_triple_u32(&self) -> (r: (u32, u32, Option<u32>))
        ensures
            r.0 as int == 0x1100 + syllable_cho(self.code_spec()),
            r.1 as int == 0x1161 + syllable_jung(self.code_spec()),
            match r.2 {
                Some(k) => syllable_jong(self.code_spec()) != 0 && k as int == 0x11A7
                    + syllable_jong(self.code_spec()),
                None => syllable_jong(self.code_spec()) == 0,
            },
    {
        proof {
            use_type_invariant(&*self);
            lemma_syllable_decompose(self.0 as int);
        }
        let d = self.0 - 0xAC00;
        let cho = 0x1100 + d / 588;
        let jung = 0x1161 + (d % 588) / 28;
        let k = d % 28;
        let jong = if k == 0 {
            None
        } else {
            Some(0x11A7 + k)
        };
        (cho, jung, jong)
    }

    /// The syllable's components as conjoining-block characters; the third
    /// is `None` when the syllable has no coda.
    pub fn to_triple_char(&self) -> (r: (char, char, Option<char>))
        ensures
            (r.0 as u32) as int == 0x1100 + syllable_cho(self.code_spec()),
            (r.1 as u32) as int == 0x1161 + syllable_jung(self.code_spec()),
            match r.2 {
                Some(k) => syllable_jong(self.code_spec()) != 0 && (k as u32) as int == 0x11A7
                    + syllable_jong(self.code_spec()),
                None => syllable_jong(self.code_spec()) == 0,
            },
    {
        proof {
            use_type_invariant(&*self);
            lemma_syllable_decompose(self.0 as int);
        }
        let (cho, jung, jong) = self.to_triple_u32();
        let jong_char = match jong {
            Some(k) => Some(char_from_code(k)),
            None => None,
        };
        (char_from_code(cho), char_from_code(jung), jong_char)
    }

    /// The syllable's typed components, in their conjoining forms.
    pub fn to_components(&self) -> (r: Option<(Choseong, Jungseong, Option<Jongseong>)>)
        ensures
            match r {
                Some(t) => {
                    &&& choseong_from_code(self.code_spec()) == Some(t.0)
                    &&& jungseong_from_code(self.code_spec()) == Some(t.1)
                    &&& match t.2 {
                        Some(jo) => jongseong_from_code(self.code_spec()) == Some(jo),
                        None => jongseong_from_code(self.code_spec()) is None,
                    }
                },
                None => false,
            },
    {
        proof {
            use_type_invariant(&*self);
            lemma_syllable_decompose(self.0 as int);
        }
        let cho = match Choseong::try_from_u32(self.0) {
            Ok(c) => c,
            Err(_) => {
                return None;
            },
        };
        let jung = match Jungseong::try_from_u32(self.0) {
            Ok(j) => j,
            Err(_) => {
                return None;
            },
        };
        let jong = match Jongseong::try_from_u32(self.0) {
            Ok(jo) => Some(jo),
            Err(_) => None,
        };
        Some((cho, jung, jong))
    }

    /// The syllable's typed components in their compatibility forms: always
    /// `None`, because a composed syllable classifies through its conjoining
    /// forms, which never name compatibility jamo.
    pub fn to_compat_components(&self) -> (r: Option<
        (CompatChoseong, CompatJungseong, Option<CompatJongseong>),
    >)
        ensures
            r is None,
    {
        proof {
            use_type_invariant(&*self);
            lemma_syllable_decompose(self.0 as int);
        }
        match CompatChoseong::try_from_u32(self.0) {
            Ok(_) => {
                proof {
                    assert(false);
                }
                None
            },
            Err(_) => None,
        }
    }
}

impl ChoseongInformation for Syllable {
    fn is_choseong(&self) -> (r: bool)
        ensures
            r == crate::normal::choseong::is_normal_choseong_at(self.code_spec()),
    {
        self.0.is_choseong()
    }

    fn has_choseong(&self) -> (r: bool)
        ensures
            r == crate::normal::choseong::is_normal_choseong_at(
                crate::characters::choseong::choseong_to_code(self.code_spec()),
            ),
    {
        self.0.has_choseong()
    }
}

impl JungseongInformation for Syllable {
    fn is_jungseong(&self) -> (r: bool)
        ensures
            r == crate::normal::jungseong::is_normal_jungseong_at(self.code_spec()),
    {
        self.0.is_jungseong()
    }

    fn has_jungseong(&self) -> (r: bool)
        ensures
            r == crate::normal::jungseong::is_normal_jungseong_at(
                crate::characters::jungseong::jungseong_to_code(self.code_spec()),
            ),
    {
        self.0.has_jungseong()
    }
}

impl JongseongInformation for Syllable {
    fn is_jongseong(&self) -> (r: bool)
        ensures
            r == crate::normal::jongseong::is_normal_jongseong_at(self.code_spec()),
    {
        self.0.is_jongseong()
    }

    fn has_jongseong(&self) -> (r: bool)
        ensures
            r == crate::normal::jongseong::is_normal_jongseong_at(
                crate::characters::jongseong::jongseong_to_code(self.code_spec()),
            ),
    {
        self.0.has_jongseong()
    }
}

impl CompatChoseongInformation for Syllable {
    fn is_compat_choseong(&self) -> (r: bool)
        ensures
            r == crate::compat::choseong::is_compat_choseong_code(self.code_spec()),
    {
        self.0.is_compat_choseong()
    }

    fn has_compat_choseong(&self) -> (r: bool)
        ensures
            r == crate::compat::choseong::is_compat_choseong_code(
                crate::characters::choseong::choseong_to_code(self.code_spec()),
            ),
    {
        self.0.has_compat_choseong()
    }
}

impl CompatJungseongInformation for Syllable {
    fn is_compat_jungseong(&self) -> (r: bool)
        ensures
            r == crate::compat::jungseong::is_compat_jungseong_at(self.code_spec()),
    {
        self.0.is_compat_jungseong()
    }

    fn has_compat_jungseong(&self) -> (r: bool)
        ensures
            r == crate::compat::jungseong::is_compat_jungseong_at(
                crate::characters::jungseong::jungseong_to_code(self.code_spec()),
            ),
    {
        self.0.has_compat_jungseong()
    }
}

impl CompatJongseongInformation for Syllable {
    fn is_compat_jongseong(&self) -> (r: bool)
        ensures
            r == crate::compat::jongseong::is_compat_jongseong_at(self.code_spec()),
    {
        self.0.is_compat_jongseong()
    }

    fn has_compat_jongseong(&self) -> (r: bool)
        ensures
            r == crate::compat::jongseong::is_compat_jongseong_at(
                crate::characters::jongseong::jongseong_to_code(self.code_spec()),
            ),
    {
        self.0.has_compat_jongseong()
    }
}

impl SyllableInformation for char {
    fn is_hangeul(&self) -> (r: bool)
        ensures
            r == is_hangeul_code(*self as u32 as int),
    {
        (*self as u32).is_hangeul()
    }

    fn is_syllable(&self) -> (r: bool)
        ensures
            r == is_syllable_code(*self as u32 as int),
    {
        (*self as u32).is_syllable()
    }

    fn is_jamo(&self) -> (r: bool)
        ensures
            r == is_jamo_code(*self as u32 as int),
    {
        (*self as u32).is_jamo()
    }

    fn is_compat_jamo(&self) -> (r: bool)
        ensures
            r == is_compat_jamo_code(*self as u32 as int),
    {
        (*self as u32).is_compat_jamo()
    }
}

} // verus!
