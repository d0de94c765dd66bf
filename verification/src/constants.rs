//! Code-point boundaries of the Unicode blocks this crate works with, and
//! the cardinalities that drive the syllable composition arithmetic.

use vstd::prelude::*;

verus! {

/// First code point of the precomposed syllable block.
pub const HANGEUL_OFFSET: u32 = 0xAC00;

pub const SYLLABLE_START: u32 = 0xAC00;

pub const SYLLABLE_END: u32 = 0xD7A3;

/// Number of jungseong (nucleus vowels) per choseong in the syllable block.
pub const JUNGSEONG_COUNT: u32 = 21;

/// Number of jongseong slots (27 codas plus the empty slot) per jungseong.
pub const JONGSEONG_COUNT: u32 = 28;

// Conjoining ("normal") jamo block.
pub const JAMO_START: u32 = 0x1100;

pub const JAMO_END: u32 = 0x11FF;

pub const CHOSEONG_START: u32 = 0x1100;

pub const JUNGSEONG_START: u32 = 0x1161;

pub const JONGSEONG_START: u32 = 0x11A8;

// Standalone ("compatibility") jamo block.
pub const COMPAT_JAMO_START: u32 = 0x3131;

pub const COMPAT_JAMO_END: u32 = 0x318E;

pub const COMPAT_JUNGSEONG_START: u32 = 0x314F;

} // verus!
