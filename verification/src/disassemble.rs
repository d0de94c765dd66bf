//! The disassembly transducer: decomposes every precomposed syllable and
//! every compound compatibility jamo in a character stream into atomic
//! compatibility jamo, and passes every other character through unchanged.
//! One input character yields one to five output characters (an onset plus
//! up to two nucleus parts and two coda parts), so the output stays finite
//! and at most five times as long as the input.

use vstd::prelude::*;

use crate::characters::char_from_code;
use crate::characters::choseong::compat_choseong_of;
use crate::characters::jongseong::{
    compat_jongseong_index_of, compat_jongseong_of, compat_jongseong_rev,
};
use crate::compound::{
    coda_char, coda_pair, coda_pair_of, onset_char, vowel_char, vowel_pair, vowel_pair_of,
};
use crate::syllable::{
    is_syllable_code, lemma_syllable_decompose, syllable_cho, syllable_jong, syllable_jung,
    SyllableInformation,
};

verus! {

broadcast use vstd::utf8::char_u32_cast;

// ---------------------------------------------------------------------------
// Decomposition, one character at a time.
// ---------------------------------------------------------------------------

/// The atomic characters of a nucleus: the two components of a compound
/// vowel, or the vowel's own standalone character.
pub open spec fn nucleus_parts(n: u32) -> Seq<char> {
    match vowel_pair(n) {
        Some(p) => seq![vowel_char(p.0), vowel_char(p.1)],
        None => seq![vowel_char(n)],
    }
}

/// The atomic characters of a coda slot: nothing for an absent coda, the two
/// components of a compound coda, or the coda's own standalone character.
pub open spec fn coda_parts(k: u32) -> Seq<char> {
    if k == 0 {
        Seq::<char>::empty()
    } else {
        match coda_pair(k) {
            Some(p) => seq![onset_char(p.0), onset_char(p.1)],
            None => seq![coda_char(k)],
        }
    }
}

/// What disassembly emits for one input character: a syllable becomes its
/// onset character followed by its nucleus and coda parts; a standalone
/// compound vowel or compound coda becomes its atomic pair; everything else
/// passes through unchanged.
pub open spec fn decompose_char(c: char) -> Seq<char> {
    let x = (c as u32) as int;
    if is_syllable_code(x) {
        seq![onset_char(syllable_cho(x) as u32)] + nucleus_parts(syllable_jung(x) as u32)
            + coda_parts(syllable_jong(x) as u32)
    } else if 0x314F <= x <= 0x3163 && vowel_pair((x - 0x314F) as u32) is Some {
        nucleus_parts((x - 0x314F) as u32)
    } else {
        match compat_jongseong_rev(x) {
            Some(k) => {
                if coda_pair(k as u32) is Some {
                    coda_parts(k as u32)
                } else {
                    seq![c]
                }
            },
            None => seq![c],
        }
    }
}

/// What disassembly emits for a whole character sequence.
pub open spec fn disassemble_seq(s: Seq<char>) -> Seq<char>
    decreases s.len(),
{
    if s.len() == 0 {
        Seq::<char>::empty()
    } else {
        decompose_char(s[0]) + disassemble_seq(s.drop_first())
    }
}

/// Appends the decomposition of one character to `out`.
pub fn disassemble_char(c: char, out: &mut Vec<char>)
    ensures
        final(out)@ == old(out)@ + decompose_char(c),
{
    let ghost entry = out@;
    let x = c as u32;
    if x.is_syllable() {
        proof {
            lemma_syllable_decompose(x as int);
        }
        let d = x - 0xAC00;
        let o = d / 588;
        let n = (d % 588) / 28;
        let k = d % 28;
        out.push(char_from_code(compat_choseong_of(o)));
        match vowel_pair_of(n) {
            Some(p) => {
                out.push(char_from_code(0x314F + p.0));
                out.push(char_from_code(0x314F + p.1));
            },
            None => {
                out.push(char_from_code(0x314F + n));
            },
        }
        if k != 0 {
            match coda_pair_of(k) {
                Some(p) => {
                    out.push(char_from_code(compat_choseong_of(p.0)));
                    out.push(char_from_code(compat_choseong_of(p.1)));
                },
                None => {
                    out.push(char_from_code(compat_jongseong_of(k)));
                },
            }
        }
        proof {
            assert(out@ =~= entry + decompose_char(c));
        }
    } else if 0x314F <= x && x <= 0x3163 {
        let n = x - 0x314F;
        match vowel_pair_of(n) {
            Some(p) => {
                out.push(char_from_code(0x314F + p.0));
                out.push(char_from_code(0x314F + p.1));
            },
            None => {
                out.push(c);
            },
        }
        proof {
            assert(out@ =~= entry + decompose_char(c));
        }
    } else {
        match compat_jongseong_index_of(x) {
            Some(k) => {
                match coda_pair_of(k) {
                    Some(p) => {
                        out.push(char_from_code(compat_choseong_of(p.0)));
                        out.push(char_from_code(compat_choseong_of(p.1)));
                    },
                    None => {
                        out.push(c);
                    },
                }
            },
            None => {
                out.push(c);
            },
        }
        proof {
            assert(out@ =~= entry + decompose_char(c));
        }
    }
}

/// Decomposes every syllable and every compound compatibility jamo in the
/// input into atomic compatibility jamo; all other characters pass through
/// unchanged.
pub fn disassemble(input: &Vec<char>) -> (out: Vec<char>)
    ensures
        out@ == disassemble_seq(input@),
{
    let mut out: Vec<char> = Vec::new();
    let input_len = input.len();
    proof {
        assert(out@ + disassemble_seq(input@.skip(0)) =~= disassemble_seq(input@)) by {
            assert(input@.skip(0) =~= input@);
        }
    }
    for i in 0..input_len
        invariant
            input_len == input@.len(),
            out@ + disassemble_seq(input@.skip(i as int)) == disassemble_seq(input@),
    {
        proof {
            assert(input@.skip(i as int)[0] == input@[i as int]);
            assert(input@.skip(i as int).drop_first() =~= input@.skip(i as int + 1));
        }
        disassemble_char(input[i], &mut out);
    }
    proof {
        assert(input@.skip(input_len as int) =~= Seq::<char>::empty());
    }
    out
}

} // verus!
