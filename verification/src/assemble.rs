//! The assembly transducer: a finite-state accumulator that consumes one
//! character at a time and greedily recomposes atomic compatibility jamo
//! into precomposed syllables. It holds at most one partially composed
//! syllable across steps, resolves the coda/onset ambiguity by one-character
//! lookahead (a held coda is reinterpreted as the next syllable's onset when
//! a vowel follows), and flushes its pending state at end of input. Every
//! character that is not an atomic compatibility jamo passes through
//! unchanged, after flushing whatever was pending.

use vstd::prelude::*;

use crate::characters::char_from_code;
use crate::characters::choseong::compat_choseong_of;
use crate::compound::{
    classify, coda_index_of_onset, coda_of_onset, combine_coda, combine_coda_indices,
    combine_vowel, combine_vowel_indices, jamo_class, onset_char, syllable_char, vowel_char,
    JamoClass,
};

verus! {

broadcast use vstd::utf8::char_u32_cast;

// ---------------------------------------------------------------------------
// The accumulator state.
// ---------------------------------------------------------------------------

/// The assembly transducer's working state. Indices are composition indices:
/// onsets 0 to 18, vowels 0 to 20, codas 1 to 27.
#[derive(Clone, Copy, Debug, PartialEq, Eq, Structural)]
pub enum CombineStage {
    /// Nothing pending.
    Empty,
    /// One onset consonant pending.
    OnsetPending { onset: u32 },
    /// One vowel pending (possibly a compound built by combination).
    NucleusPending { nucleus: u32 },
    /// An onset and a nucleus pending, no coda yet.
    OnsetNucleusPending { onset: u32, nucleus: u32 },
    /// A full syllable pending with a single-consonant coda; `coda_onset` is
    /// the same consonant as an onset index, kept for reinterpretation when
    /// a vowel follows.
    FullUncombinedCoda { onset: u32, nucleus: u32, coda_onset: u32, coda: u32 },
    /// A full syllable pending with a compound coda; `coda` is the primary
    /// coda alone, `second_onset` the secondary consonant as an onset index,
    /// and `combined` the compound coda of the two.
    FullCombinedCoda { onset: u32, nucleus: u32, coda: u32, second_onset: u32, combined: u32 },
}

/// Well-formedness of the accumulator state: every index in range, and the
/// coda fields consistent with the combination tables.
pub open spec fn wf_stage(st: CombineStage) -> bool {
    match st {
        CombineStage::Empty => true,
        CombineStage::OnsetPending { onset } => onset < 19,
        CombineStage::NucleusPending { nucleus } => nucleus < 21,
        CombineStage::OnsetNucleusPending { onset, nucleus } => onset < 19 && nucleus < 21,
        CombineStage::FullUncombinedCoda { onset, nucleus, coda_onset, coda } => {
            onset < 19 && nucleus < 21 && coda_onset < 19 && coda_of_onset(coda_onset) == Some(
                coda,
            )
        },
        CombineStage::FullCombinedCoda { onset, nucleus, coda, second_onset, combined } => {
            onset < 19 && nucleus < 21 && second_onset < 19 && 1 <= coda <= 27 && combine_coda(
                coda,
                second_onset,
            ) == Some(combined)
        },
    }
}

/// What flushing the accumulator emits: its best-effort reading of the
/// pending state, as zero or one characters.
pub open spec fn flush_emits(st: CombineStage) -> Seq<char> {
    match st {
        CombineStage::Empty => Seq::<char>::empty(),
        CombineStage::OnsetPending { onset } => seq![onset_char(onset)],
        CombineStage::NucleusPending { nucleus } => seq![vowel_char(nucleus)],
        CombineStage::OnsetNucleusPending { onset, nucleus } => seq![
            syllable_char(onset, nucleus, 0),
        ],
        CombineStage::FullUncombinedCoda { onset, nucleus, coda_onset, coda } => seq![
            syllable_char(onset, nucleus, coda),
        ],
        CombineStage::FullCombinedCoda { onset, nucleus, coda, second_onset, combined } => seq![
            syllable_char(onset, nucleus, combined),
        ],
    }
}

/// One transition of the accumulator: what it emits for the input character,
/// and the state it moves to.
pub open spec fn step(st: CombineStage, c: char) -> (Seq<char>, CombineStage) {
    match jamo_class(c) {
        JamoClass::Onset(o2) => match st {
            CombineStage::Empty => (Seq::<char>::empty(), CombineStage::OnsetPending { onset: o2 }),
            CombineStage::OnsetPending { onset } => (
                seq![onset_char(onset)],
                CombineStage::OnsetPending { onset: o2 },
            ),
            CombineStage::NucleusPending { nucleus } => (
                seq![vowel_char(nucleus)],
                CombineStage::OnsetPending { onset: o2 },
            ),
            CombineStage::OnsetNucleusPending { onset, nucleus } => match coda_of_onset(o2) {
                Some(k) => (
                    Seq::<char>::empty(),
                    CombineStage::FullUncombinedCoda {
                        onset,
                        nucleus,
                        coda_onset: o2,
                        coda: k,
                    },
                ),
                None => (
                    seq![syllable_char(onset, nucleus, 0)],
                    CombineStage::OnsetPending { onset: o2 },
                ),
            },
            CombineStage::FullUncombinedCoda { onset, nucleus, coda_onset, coda } => {
                match combine_coda(coda, o2) {
                    Some(k2) => (
                        Seq::<char>::empty(),
                        CombineStage::FullCombinedCoda {
                            onset,
                            nucleus,
                            coda,
                            second_onset: o2,
                            combined: k2,
                        },
                    ),
                    None => (
                        seq![syllable_char(onset, nucleus, coda)],
                        CombineStage::OnsetPending { onset: o2 },
                    ),
                }
            },
            CombineStage::FullCombinedCoda { onset, nucleus, coda, second_onset, combined } => (
                seq![syllable_char(onset, nucleus, combined)],
                CombineStage::OnsetPending { onset: o2 },
            ),
        },
        JamoClass::Vowel(n2) => match st {
            CombineStage::Empty => (
                Seq::<char>::empty(),
                CombineStage::NucleusPending { nucleus: n2 },
            ),
            CombineStage::OnsetPending { onset } => (
                Seq::<char>::empty(),
                CombineStage::OnsetNucleusPending { onset, nucleus: n2 },
            ),
            CombineStage::NucleusPending { nucleus } => match combine_vowel(nucleus, n2) {
                Some(d) => (Seq::<char>::empty(), CombineStage::NucleusPending { nucleus: d }),
                None => (
                    seq![vowel_char(nucleus)],
                    CombineStage::NucleusPending { nucleus: n2 },
                ),
            },
            CombineStage::OnsetNucleusPending { onset, nucleus } => match combine_vowel(
                nucleus,
                n2,
            ) {
                Some(d) => (
                    Seq::<char>::empty(),
                    CombineStage::OnsetNucleusPending { onset, nucleus: d },
                ),
                None => (
                    seq![syllable_char(onset, nucleus, 0)],
                    CombineStage::NucleusPending { nucleus: n2 },
                ),
            },
            CombineStage::FullUncombinedCoda { onset, nucleus, coda_onset, coda } => (
                seq![syllable_char(onset, nucleus, 0)],
                CombineStage::OnsetNucleusPending { onset: coda_onset, nucleus: n2 },
            ),
            CombineStage::FullCombinedCoda { onset, nucleus, coda, second_onset, combined } => (
                seq![syllable_char(onset, nucleus, coda)],
                CombineStage::OnsetNucleusPending { onset: second_onset, nucleus: n2 },
            ),
        },
        JamoClass::Other => (flush_emits(st) + seq![c], CombineStage::Empty),
    }
}

/// What assembly emits from a given state for the rest of the input,
/// including the final flush.
pub open spec fn assemble_cont(st: CombineStage, s: Seq<char>) -> Seq<char>
    decreases s.len(),
{
    if s.len() == 0 {
        flush_emits(st)
    } else {
        step(st, s[0]).0 + assemble_cont(step(st, s[0]).1, s.drop_first())
    }
}

/// What assembly emits for a whole character sequence.
pub open spec fn assemble_seq(s: Seq<char>) -> Seq<char> {
    assemble_cont(CombineStage::Empty, s)
}

/// A step preserves well-formedness of the state.
pub proof fn lemma_step_wf(st: CombineStage, c: char)
    requires
        wf_stage(st),
    ensures
        wf_stage(step(st, c).1),
{
}

// ---------------------------------------------------------------------------
// Executable transducer.
// ---------------------------------------------------------------------------

/// Pushes the flush of a pending state onto `out`.
pub fn flush_stage(st: CombineStage, out: &mut Vec<char>)
    requires
        wf_stage(st),
    ensures
        final(out)@ == old(out)@ + flush_emits(st),
{
    let ghost entry = out@;
    match st {
        CombineStage::Empty => {},
        CombineStage::OnsetPending { onset } => {
            out.push(char_from_code(compat_choseong_of(onset)));
        },
        CombineStage::NucleusPending { nucleus } => {
            out.push(char_from_code(0x314F + nucleus));
        },
        CombineStage::OnsetNucleusPending { onset, nucleus } => {
            out.push(char_from_code(0xAC00 + 588 * onset + 28 * nucleus));
        },
        CombineStage::FullUncombinedCoda { onset, nucleus, coda_onset: _, coda } => {
            out.push(char_from_code(0xAC00 + 588 * onset + 28 * nucleus + coda));
        },
        CombineStage::FullCombinedCoda { onset, nucleus, coda: _, second_onset: _, combined } => {
            out.push(char_from_code(0xAC00 + 588 * onset + 28 * nucleus + combined));
        },
    }
    proof {
        assert(out@ =~= entry + flush_emits(st));
    }
}

/// Performs one transition: appends what the step emits to `out` and returns
/// the next state.
pub fn assemble_step(st: CombineStage, c: char, out: &mut Vec<char>) -> (next: CombineStage)
    requires
        wf_stage(st),
    ensures
        next == step(st, c).1,
        wf_stage(next),
        final(out)@ == old(out)@ + step(st, c).0,
{
    let ghost entry = out@;
    let next = match classify(c) {
        JamoClass::Onset(o2) => match st {
            CombineStage::Empty => CombineStage::OnsetPending { onset: o2 },
            CombineStage::OnsetPending { onset } => {
                out.push(char_from_code(compat_choseong_of(onset)));
                CombineStage::OnsetPending { onset: o2 }
            },
            CombineStage::NucleusPending { nucleus } => {
                out.push(char_from_code(0x314F + nucleus));
                CombineStage::OnsetPending { onset: o2 }
            },
            CombineStage::OnsetNucleusPending { onset, nucleus } => {
                match coda_index_of_onset(o2) {
                    Some(k) => CombineStage::FullUncombinedCoda {
                        onset,
                        nucleus,
                        coda_onset: o2,
                        coda: k,
                    },
                    None => {
                        out.push(char_from_code(0xAC00 + 588 * onset + 28 * nucleus));
                        CombineStage::OnsetPending { onset: o2 }
                    },
                }
            },
            CombineStage::FullUncombinedCoda { onset, nucleus, coda_onset: _, coda } => {
                match combine_coda_indices(coda, o2) {
                    Some(k2) => CombineStage::FullCombinedCoda {
                        onset,
                        nucleus,
                        coda,
                        second_onset: o2,
                        combined: k2,
                    },
                    None => {
                        out.push(char_from_code(0xAC00 + 588 * onset + 28 * nucleus + coda));
                        CombineStage::OnsetPending { onset: o2 }
                    },
                }
            },
            CombineStage::FullCombinedCoda { onset, nucleus, coda: _, second_onset: _, combined } => {
                out.push(char_from_code(0xAC00 + 588 * onset + 28 * nucleus + combined));
                CombineStage::OnsetPending { onset: o2 }
            },
        },
        JamoClass::Vowel(n2) => match st {
            CombineStage::Empty => CombineStage::NucleusPending { nucleus: n2 },
            CombineStage::OnsetPending { onset } => CombineStage::OnsetNucleusPending {
                onset,
                nucleus: n2,
            },
            CombineStage::NucleusPending { nucleus } => {
                match combine_vowel_indices(nucleus, n2) {
                    Some(d) => CombineStage::NucleusPending { nucleus: d },
                    None => {
                        out.push(char_from_code(0x314F + nucleus));
                        CombineStage::NucleusPending { nucleus: n2 }
                    },
                }
            },
            CombineStage::OnsetNucleusPending { onset, nucleus } => {
                match combine_vowel_indices(nucleus, n2) {
                    Some(d) => CombineStage::OnsetNucleusPending { onset, nucleus: d },
                    None => {
                        out.push(char_from_code(0xAC00 + 588 * onset + 28 * nucleus));
                        CombineStage::NucleusPending { nucleus: n2 }
                    },
                }
            },
            CombineStage::FullUncombinedCoda { onset, nucleus, coda_onset, coda: _ } => {
                out.push(char_from_code(0xAC00 + 588 * onset + 28 * nucleus));
                CombineStage::OnsetNucleusPending { onset: coda_onset, nucleus: n2 }
            },
            CombineStage::FullCombinedCoda { onset, nucleus, coda, second_onset, combined: _ } => {
                out.push(char_from_code(0xAC00 + 588 * onset + 28 * nucleus + coda));
                CombineStage::OnsetNucleusPending { onset: second_onset, nucleus: n2 }
            },
        },
        JamoClass::Other => {
            flush_stage(st, out);
            out.push(c);
            CombineStage::Empty
        },
    };
    proof {
        assert(out@ =~= entry + step(st, c).0);
    }
    next
}

/// Greedily recomposes atomic compatibility jamo into syllables; every other
/// character passes through unchanged, and the pending state is flushed at
/// end of input.
pub fn assemble(input: &Vec<char>) -> (out: Vec<char>)
    ensures
        out@ == assemble_seq(input@),
{
    let mut out: Vec<char> = Vec::new();
    let mut st = CombineStage::Empty;
    let input_len = input.len();
    proof {
        assert(out@ + assemble_cont(st, input@.skip(0)) =~= assemble_seq(input@)) by {
            assert(input@.skip(0) =~= input@);
        }
    }
    for i in 0..input_len
        invariant
            input_len == input@.len(),
            wf_stage(st),
            out@ + assemble_cont(st, input@.skip(i as int)) == assemble_seq(input@),
    {
        proof {
            assert(input@.skip(i as int)[0] == input@[i as int]);
            assert(input@.skip(i as int).drop_first() =~= input@.skip(i as int + 1));
        }
        st = assemble_step(st, input[i], &mut out);
    }
    proof {
        assert(input@.skip(input_len as int) =~= Seq::<char>::empty());
    }
    flush_stage(st, &mut out);
    out
}

} // verus!
