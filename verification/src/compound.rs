//! Compound jamo tables: which codas and vowels are built from two atomic
//! components, how they split, and which pairs of atomic components combine
//! back. Also the classification of single characters as the assembly
//! transducer sees them.
//!
//! All tables speak in composition indices: onset indices (0 to 18), vowel
//! indices (0 to 20) and coda indices (1 to 27).

use vstd::prelude::*;

use crate::characters::choseong::{compat_choseong_code, compat_choseong_rev};
use crate::characters::jongseong::compat_jongseong_code;
use crate::syllable::compose_code;

verus! {

// ---------------------------------------------------------------------------
// Characters built from composition indices.
// ---------------------------------------------------------------------------

/// The standalone (compatibility) character of an onset consonant.
pub open spec fn onset_char(o: u32) -> char {
    compat_choseong_code(o as int) as char
}

/// The standalone (compatibility) character of a vowel.
pub open spec fn vowel_char(n: u32) -> char {
    (0x314F + n as int) as char
}

/// The standalone (compatibility) character of a coda consonant.
pub open spec fn coda_char(k: u32) -> char {
    compat_jongseong_code(k as int) as char
}

/// The syllable character with the given component indices.
pub open spec fn syllable_char(onset: u32, nucleus: u32, coda: u32) -> char {
    compose_code(onset as int, nucleus as int, coda as int) as char
}

// ---------------------------------------------------------------------------
// Coda capability of onset consonants.
// ---------------------------------------------------------------------------

/// The coda index of the consonant with the given onset index, or `None` for
/// the three tense consonants (ㄸ, ㅃ, ㅉ) that cannot close a syllable.
pub open spec fn coda_of_onset(o: u32) -> Option<u32> {
    if o == 0 {
        Some(1u32)
    } else if o == 1 {
        Some(2u32)
    } else if o == 2 {
        Some(4u32)
    } else if o == 3 {
        Some(7u32)
    } else if o == 5 {
        Some(8u32)
    } else if o == 6 {
        Some(16u32)
    } else if o == 7 {
        Some(17u32)
    } else if o == 9 {
        Some(19u32)
    } else if o == 10 {
        Some(20u32)
    } else if o == 11 {
        Some(21u32)
    } else if o == 12 {
        Some(22u32)
    } else if o == 14 {
        Some(23u32)
    } else if o == 15 {
        Some(24u32)
    } else if o == 16 {
        Some(25u32)
    } else if o == 17 {
        Some(26u32)
    } else if o == 18 {
        Some(27u32)
    } else {
        None
    }
}

/// The onset index of the consonant with the given atomic coda index;
/// `None` for the eleven compound codas, which are not single consonants.
pub open spec fn onset_of_coda(k: u32) -> Option<u32> {
    if k == 1 {
        Some(0u32)
    } else if k == 2 {
        Some(1u32)
    } else if k == 4 {
        Some(2u32)
    } else if k == 7 {
        Some(3u32)
    } else if k == 8 {
        Some(5u32)
    } else if k == 16 {
        Some(6u32)
    } else if k == 17 {
        Some(7u32)
    } else if k == 19 {
        Some(9u32)
    } else if k == 20 {
        Some(10u32)
    } else if k == 21 {
        Some(11u32)
    } else if k == 22 {
        Some(12u32)
    } else if k == 23 {
        Some(14u32)
    } else if k == 24 {
        Some(15u32)
    } else if k == 25 {
        Some(16u32)
    } else if k == 26 {
        Some(17u32)
    } else if k == 27 {
        Some(18u32)
    } else {
        None
    }
}

// ---------------------------------------------------------------------------
// Compound codas: eleven fixed pairs.
// ---------------------------------------------------------------------------

/// The atomic decomposition of a compound coda, as a pair of onset indices
/// (the standalone display form of each component); `None` for atomic codas.
pub open spec fn coda_pair(k: u32) -> Option<(u32, u32)> {
    if k == 3 {
        Some((0u32, 9u32))  // ㄳ = ㄱ + ㅅ
    } else if k == 5 {
        Some((2u32, 12u32))  // ㄵ = ㄴ + ㅈ
    } else if k == 6 {
        Some((2u32, 18u32))  // ㄶ = ㄴ + ㅎ
    } else if k == 9 {
        Some((5u32, 0u32))  // ㄺ = ㄹ + ㄱ
    } else if k == 10 {
        Some((5u32, 6u32))  // ㄻ = ㄹ + ㅁ
    } else if k == 11 {
        Some((5u32, 7u32))  // ㄼ = ㄹ + ㅂ
    } else if k == 12 {
        Some((5u32, 9u32))  // ㄽ = ㄹ + ㅅ
    } else if k == 13 {
        Some((5u32, 16u32))  // ㄾ = ㄹ + ㅌ
    } else if k == 14 {
        Some((5u32, 17u32))  // ㄿ = ㄹ + ㅍ
    } else if k == 15 {
        Some((5u32, 18u32))  // ㅀ = ㄹ + ㅎ
    } else if k == 18 {
        Some((7u32, 9u32))  // ㅄ = ㅂ + ㅅ
    } else {
        None
    }
}

/// The compound coda formed by an atomic coda followed by an onset consonant,
/// if the pair combines.
pub open spec fn combine_coda(k: u32, o: u32) -> Option<u32> {
    if k == 1 && o == 9 {
        Some(3u32)
    } else if k == 4 && o == 12 {
        Some(5u32)
    } else if k == 4 && o == 18 {
        Some(6u32)
    } else if k == 8 && o == 0 {
        Some(9u32)
    } else if k == 8 && o == 6 {
        Some(10u32)
    } else if k == 8 && o == 7 {
        Some(11u32)
    } else if k == 8 && o == 9 {
        Some(12u32)
    } else if k == 8 && o == 16 {
        Some(13u32)
    } else if k == 8 && o == 17 {
        Some(14u32)
    } else if k == 8 && o == 18 {
        Some(15u32)
    } else if k == 17 && o == 9 {
        Some(18u32)
    } else {
        None
    }
}

// ---------------------------------------------------------------------------
// Compound vowels (diphthongs): seven fixed pairs, in vowel indices.
// ---------------------------------------------------------------------------

/// The atomic decomposition of a compound vowel, as a pair of vowel indices;
/// `None` for atomic vowels.
pub open spec fn vowel_pair(n: u32) -> Option<(u32, u32)> {
    if n == 9 {
        Some((8u32, 0u32))  // ㅘ = ㅗ + ㅏ
    } else if n == 10 {
        Some((8u32, 1u32))  // ㅙ = ㅗ + ㅐ
    } else if n == 11 {
        Some((8u32, 20u32))  // ㅚ = ㅗ + ㅣ
    } else if n == 14 {
        Some((13u32, 4u32))  // ㅝ = ㅜ + ㅓ
    } else if n == 15 {
        Some((13u32, 5u32))  // ㅞ = ㅜ + ㅔ
    } else if n == 16 {
        Some((13u32, 20u32))  // ㅟ = ㅜ + ㅣ
    } else if n == 19 {
        Some((18u32, 20u32))  // ㅢ = ㅡ + ㅣ
    } else {
        None
    }
}

/// The compound vowel formed by two atomic vowels, if the pair combines.
pub open spec fn combine_vowel(a: u32, b: u32) -> Option<u32> {
    if a == 8 && b == 0 {
        Some(9u32)
    } else if a == 8 && b == 1 {
        Some(10u32)
    } else if a == 8 && b == 20 {
        Some(11u32)
    } else if a == 13 && b == 4 {
        Some(14u32)
    } else if a == 13 && b == 5 {
        Some(15u32)
    } else if a == 13 && b == 20 {
        Some(16u32)
    } else if a == 18 && b == 20 {
        Some(19u32)
    } else {
        None
    }
}

// ---------------------------------------------------------------------------
// Character classification for the assembly transducer.
// ---------------------------------------------------------------------------

/// How the assembly transducer sees one input character: an atomic onset
/// consonant, an atomic vowel, or anything else (which always passes
/// through). Compound compatibility jamo deliberately fall under `Other`:
/// only atomic jamo take part in assembly.
#[derive(Clone, Copy, Debug, PartialEq, Eq, Structural)]
pub enum JamoClass {
    Onset(u32),
    Vowel(u32),
    Other,
}

/// The classification of a character for assembly.
pub open spec fn jamo_class(c: char) -> JamoClass {
    let x = (c as u32) as int;
    match compat_choseong_rev(x) {
        Some(o) => JamoClass::Onset(o as u32),
        None => {
            if 0x314F <= x <= 0x3163 && vowel_pair((x - 0x314F) as u32) is None {
                JamoClass::Vowel((x - 0x314F) as u32)
            } else {
                JamoClass::Other
            }
        },
    }
}

/// Classifies one input character for assembly.
pub fn classify(c: char) -> (r: JamoClass)
    ensures
        r == jamo_class(c),
        r matches JamoClass::Onset(o) ==> o < 19,
        r matches JamoClass::Vowel(n) ==> n < 21 && vowel_pair(n) is None,
{
    let x = c as u32;
    if x == 0x3131 {
        JamoClass::Onset(0)
    } else if x == 0x3132 {
        JamoClass::Onset(1)
    } else if x == 0x3134 {
        JamoClass::Onset(2)
    } else if x == 0x3137 {
        JamoClass::Onset(3)
    } else if x == 0x3138 {
        JamoClass::Onset(4)
    } else if x == 0x3139 {
        JamoClass::Onset(5)
    } else if x == 0x3141 {
        JamoClass::Onset(6)
    } else if x == 0x3142 {
        JamoClass::Onset(7)
    } else if x == 0x3143 {
        JamoClass::Onset(8)
    } else if x == 0x3145 {
        JamoClass::Onset(9)
    } else if x == 0x3146 {
        JamoClass::Onset(10)
    } else if x == 0x3147 {
        JamoClass::Onset(11)
    } else if x == 0x3148 {
        JamoClass::Onset(12)
    } else if x == 0x3149 {
        JamoClass::Onset(13)
    } else if x == 0x314A {
        JamoClass::Onset(14)
    } else if x == 0x314B {
        JamoClass::Onset(15)
    } else if x == 0x314C {
        JamoClass::Onset(16)
    } else if x == 0x314D {
        JamoClass::Onset(17)
    } else if x == 0x314E {
        JamoClass::Onset(18)
    } else if 0x314F <= x && x <= 0x3163 {
        let n = x - 0x314F;
        if n == 9 || n == 10 || n == 11 || n == 14 || n == 15 || n == 16 || n == 19 {
            JamoClass::Other
        } else {
            JamoClass::Vowel(n)
        }
    } else {
        JamoClass::Other
    }
}

// ---------------------------------------------------------------------------
// Exec lookups for the tables.
// ---------------------------------------------------------------------------

/// Coda index of an onset-indexed consonant, `None` where it cannot close a
/// syllable.
pub fn coda_index_of_onset(o: u32) -> (r: Option<u32>)
    requires
        o < 19,
    ensures
        r == coda_of_onset(o),
{
    if o == 0 {
        Some(1)
    } else if o == 1 {
        Some(2)
    } else if o == 2 {
        Some(4)
    } else if o == 3 {
        Some(7)
    } else if o == 5 {
        Some(8)
    } else if o == 6 {
        Some(16)
    } else if o == 7 {
        Some(17)
    } else if o == 9 {
        Some(19)
    } else if o == 10 {
        Some(20)
    } else if o == 11 {
        Some(21)
    } else if o == 12 {
        Some(22)
    } else if o == 14 {
        Some(23)
    } else if o == 15 {
        Some(24)
    } else if o == 16 {
        Some(25)
    } else if o == 17 {
        Some(26)
    } else if o == 18 {
        Some(27)
    } else {
        None
    }
}

/// Compound coda formed by an atomic coda and a following onset consonant.
pub fn combine_coda_indices(k: u32, o: u32) -> (r: Option<u32>)
    ensures
        r == combine_coda(k, o),
{
    if k == 1 && o == 9 {
        Some(3)
    } else if k == 4 && o == 12 {
        Some(5)
    } else if k == 4 && o == 18 {
        Some(6)
    } else if k == 8 && o == 0 {
        Some(9)
    } else if k == 8 && o == 6 {
        Some(10)
    } else if k == 8 && o == 7 {
        Some(11)
    } else if k == 8 && o == 9 {
        Some(12)
    } else if k == 8 && o == 16 {
        Some(13)
    } else if k == 8 && o == 17 {
        Some(14)
    } else if k == 8 && o == 18 {
        Some(15)
    } else if k == 17 && o == 9 {
        Some(18)
    } else {
        None
    }
}

/// Compound vowel formed by two atomic vowels.
pub fn combine_vowel_indices(a: u32, b: u32) -> (r: Option<u32>)
    ensures
        r == combine_vowel(a, b),
{
    if a == 8 && b == 0 {
        Some(9)
    } else if a == 8 && b == 1 {
        Some(10)
    } else if a == 8 && b == 20 {
        Some(11)
    } else if a == 13 && b == 4 {
        Some(14)
    } else if a == 13 && b == 5 {
        Some(15)
    } else if a == 13 && b == 20 {
        Some(16)
    } else if a == 18 && b == 20 {
        Some(19)
    } else {
        None
    }
}

/// Atomic decomposition of a compound coda, as onset indices.
pub fn coda_pair_of(k: u32) -> (r: Option<(u32, u32)>)
    ensures
        r == coda_pair(k),
{
    if k == 3 {
        Some((0, 9))
    } else if k == 5 {
        Some((2, 12))
    } else if k == 6 {
        Some((2, 18))
    } else if k == 9 {
        Some((5, 0))
    } else if k == 10 {
        Some((5, 6))
    } else if k == 11 {
        Some((5, 7))
    } else if k == 12 {
        Some((5, 9))
    } else if k == 13 {
        Some((5, 16))
    } else if k == 14 {
        Some((5, 17))
    } else if k == 15 {
        Some((5, 18))
    } else if k == 18 {
        Some((7, 9))
    } else {
        None
    }
}

/// Atomic decomposition of a compound vowel, as vowel indices.
pub fn vowel_pair_of(n: u32) -> (r: Option<(u32, u32)>)
    ensures
        r == vowel_pair(n),
{
    if n == 9 {
        Some((8, 0))
    } else if n == 10 {
        Some((8, 1))
    } else if n == 11 {
        Some((8, 20))
    } else if n == 14 {
        Some((13, 4))
    } else if n == 15 {
        Some((13, 5))
    } else if n == 16 {
        Some((13, 20))
    } else if n == 19 {
        Some((18, 20))
    } else {
        None
    }
}

} // verus!
