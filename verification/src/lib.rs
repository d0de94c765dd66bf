//! Hangul jamo codec: classification of Hangul code points, arithmetic
//! conversion between composed syllables and their phonetic components
//! (choseong / jungseong / jongseong), and a pair of stream transducers
//! that decompose syllables into standalone compatibility jamo and greedily
//! recompose such jamo streams back into syllables.

pub mod assemble;
pub mod characters;
pub mod choseong;
pub mod compat;
pub mod compound;
pub mod constants;
pub mod disassemble;
pub mod jongseong;
pub mod jungseong;
pub mod normal;
pub mod roundtrip;
pub mod syllable;
