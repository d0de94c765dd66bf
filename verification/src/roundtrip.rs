//! The laws relating the two transducers: disassembling any sequence of
//! syllables (and passthrough characters) and assembling the result yields
//! the original sequence back.

use vstd::prelude::*;

use crate::assemble::{assemble_cont, assemble_seq, flush_emits, step, wf_stage, CombineStage};
use crate::characters::choseong::{compat_choseong_code, compat_choseong_rev};
use crate::characters::jongseong::{compat_jongseong_code, compat_jongseong_rev};
use crate::compound::{
    coda_char, coda_of_onset, coda_pair, combine_coda, combine_vowel, jamo_class, onset_char,
    onset_of_coda, syllable_char, vowel_char, vowel_pair, JamoClass,
};
use crate::disassemble::{coda_parts, decompose_char, disassemble_seq, nucleus_parts};
use crate::syllable::{
    compose_code, is_hangeul_code, is_syllable_code, lemma_syllable_compose,
    lemma_syllable_decompose, syllable_cho, syllable_jong, syllable_jung,
};

verus! {

broadcast use vstd::utf8::char_u32_cast;

// ---------------------------------------------------------------------------
// How the assembly transducer classifies the characters that disassembly
// emits.
// ---------------------------------------------------------------------------

/// The standalone character of an onset is classified as that onset.
proof fn lemma_classify_onset_char(o: u32)
    requires
        o < 19,
    ensures
        jamo_class(onset_char(o)) == JamoClass::Onset(o),
{
    assert((compat_choseong_code(o as int) as char) as u32 == compat_choseong_code(o as int));
}

/// The standalone character of a vowel is classified as that vowel when the
/// vowel is atomic, and passes through when it is compound.
proof fn lemma_classify_vowel_char(n: u32)
    requires
        n < 21,
    ensures
        vowel_pair(n) is None ==> jamo_class(vowel_char(n)) == JamoClass::Vowel(n),
        vowel_pair(n) is Some ==> jamo_class(vowel_char(n)) == JamoClass::Other,
{
    assert(((0x314F + n as int) as char) as u32 == 0x314F + n);
}

/// The standalone character of an atomic coda is classified as the onset of
/// the same consonant.
proof fn lemma_classify_coda_char(k: u32)
    requires
        onset_of_coda(k) is Some,
    ensures
        jamo_class(coda_char(k)) == JamoClass::Onset(onset_of_coda(k)->Some_0),
        coda_of_onset(onset_of_coda(k)->Some_0) == Some(k),
{
    assert((compat_jongseong_code(k as int) as char) as u32 == compat_jongseong_code(k as int));
}

// ---------------------------------------------------------------------------
// Consistency of the compound tables.
// ---------------------------------------------------------------------------

/// The components of a compound coda are in range, the first is coda-capable,
/// and combining them yields the compound back.
proof fn lemma_coda_pair_combines(k: u32)
    requires
        coda_pair(k) is Some,
    ensures
        1 <= k <= 27,
        coda_pair(k)->Some_0.0 < 19,
        coda_pair(k)->Some_0.1 < 19,
        coda_of_onset(coda_pair(k)->Some_0.0) is Some,
        combine_coda(coda_of_onset(coda_pair(k)->Some_0.0)->Some_0, coda_pair(k)->Some_0.1)
            == Some(k),
{
}

/// The components of a compound vowel are in range, both atomic, and
/// combining them yields the compound back.
proof fn lemma_vowel_pair_combines(n: u32)
    requires
        vowel_pair(n) is Some,
    ensures
        n < 21,
        vowel_pair(n)->Some_0.0 < 21,
        vowel_pair(n)->Some_0.1 < 21,
        vowel_pair(vowel_pair(n)->Some_0.0) is None,
        vowel_pair(vowel_pair(n)->Some_0.1) is None,
        combine_vowel(vowel_pair(n)->Some_0.0, vowel_pair(n)->Some_0.1) == Some(n),
{
}

/// An atomic coda (one with no compound decomposition) is a single consonant:
/// it has an onset form.
proof fn lemma_atomic_coda_has_onset(k: u32)
    requires
        1 <= k <= 27,
        coda_pair(k) is None,
    ensures
        onset_of_coda(k) is Some,
        onset_of_coda(k)->Some_0 < 19,
{
}

// ---------------------------------------------------------------------------
// The state the accumulator reaches after consuming exactly the atoms of one
// syllable, and what it still owes for it.
// ---------------------------------------------------------------------------

/// The accumulator state after consuming the disassembly of the syllable
/// with code point `x`, starting from a state that owed nothing.
spec fn after_stage(x: int) -> CombineStage {
    let o = syllable_cho(x) as u32;
    let n = syllable_jung(x) as u32;
    let k = syllable_jong(x) as u32;
    if k == 0 {
        CombineStage::OnsetNucleusPending { onset: o, nucleus: n }
    } else {
        match coda_pair(k) {
            Some(p) => CombineStage::FullCombinedCoda {
                onset: o,
                nucleus: n,
                coda: coda_of_onset(p.0)->Some_0,
                second_onset: p.1,
                combined: k,
            },
            None => CombineStage::FullUncombinedCoda {
                onset: o,
                nucleus: n,
                coda_onset: onset_of_coda(k)->Some_0,
                coda: k,
            },
        }
    }
}

/// The accumulator state between two characters of the argument sequence:
/// empty, or holding the whole previous syllable.
spec fn boundary_stage(prev: Option<int>) -> CombineStage {
    match prev {
        None => CombineStage::Empty,
        Some(y) => after_stage(y),
    }
}

/// What the accumulator still owes at such a boundary: nothing, or the
/// previous syllable itself.
spec fn boundary_owed(prev: Option<int>) -> Seq<char> {
    match prev {
        None => Seq::<char>::empty(),
        Some(y) => seq![(y as char)],
    }
}

/// A boundary for a valid previous syllable.
spec fn valid_boundary(prev: Option<int>) -> bool {
    match prev {
        None => true,
        Some(y) => is_syllable_code(y),
    }
}

/// The after-state of a syllable is well formed and flushes to exactly that
/// syllable's character.
proof fn lemma_after_stage(x: int)
    requires
        is_syllable_code(x),
    ensures
        wf_stage(after_stage(x)),
        flush_emits(after_stage(x)) == seq![(x as char)],
{
    lemma_syllable_decompose(x);
    let o = syllable_cho(x) as u32;
    let n = syllable_jung(x) as u32;
    let k = syllable_jong(x) as u32;
    if k == 0 {
        assert(syllable_char(o, n, 0) == (x as char));
    } else {
        match coda_pair(k) {
            Some(p) => {
                lemma_coda_pair_combines(k);
                assert(syllable_char(o, n, k) == (x as char));
            },
            None => {
                lemma_atomic_coda_has_onset(k);
                lemma_classify_coda_char(k);
                assert(syllable_char(o, n, k) == (x as char));
            },
        }
    }
}

// ---------------------------------------------------------------------------
// Feeding one syllable's atoms through the accumulator.
// ---------------------------------------------------------------------------

/// Feeding an onset character and then an atomic vowel character from a
/// boundary state emits exactly what the boundary owed and leaves the pair
/// pending.
proof fn lemma_feed_onset_vowel(prev: Option<int>, o: u32, v: u32, rest: Seq<char>)
    requires
        valid_boundary(prev),
        o < 19,
        v < 21,
        vowel_pair(v) is None,
    ensures
        assemble_cont(boundary_stage(prev), seq![onset_char(o), vowel_char(v)] + rest)
            == boundary_owed(prev) + assemble_cont(
            CombineStage::OnsetNucleusPending { onset: o, nucleus: v },
            rest,
        ),
{
    lemma_classify_onset_char(o);
    lemma_classify_vowel_char(v);
    let s = seq![onset_char(o), vowel_char(v)] + rest;
    let s1 = seq![vowel_char(v)] + rest;
    assert(s[0] == onset_char(o));
    assert(s.drop_first() =~= s1);
    assert(s1[0] == vowel_char(v));
    assert(s1.drop_first() =~= rest);
    let st0 = boundary_stage(prev);
    let e0 = step(st0, s[0]).0;
    let st_mid = step(st0, s[0]).1;
    assert(assemble_cont(st0, s) == e0 + assemble_cont(st_mid, s1));
    let e1 = step(st_mid, s1[0]).0;
    let st_end = step(st_mid, s1[0]).1;
    assert(assemble_cont(st_mid, s1) == e1 + assemble_cont(st_end, rest));
    if let Some(y) = prev {
        lemma_syllable_decompose(y);
        lemma_after_stage(y);
    }
    assert(st_end == (CombineStage::OnsetNucleusPending { onset: o, nucleus: v }));
    assert(e0 + e1 =~= boundary_owed(prev));
    assert(assemble_cont(st0, s) =~= boundary_owed(prev) + assemble_cont(st_end, rest));
}

/// Feeding the second component of a compound vowel merges it into the
/// pending nucleus without emitting anything.
proof fn lemma_feed_second_vowel(o: u32, a: u32, b: u32, n: u32, rest: Seq<char>)
    requires
        combine_vowel(a, b) == Some(n),
        b < 21,
        vowel_pair(b) is None,
    ensures
        assemble_cont(
            CombineStage::OnsetNucleusPending { onset: o, nucleus: a },
            seq![vowel_char(b)] + rest,
        ) == assemble_cont(CombineStage::OnsetNucleusPending { onset: o, nucleus: n }, rest),
{
    lemma_classify_vowel_char(b);
    let s = seq![vowel_char(b)] + rest;
    assert(s[0] == vowel_char(b));
    assert(s.drop_first() =~= rest);
}

/// Feeding an atomic coda character onto a pending onset-nucleus pair holds
/// it as the syllable's coda without emitting anything.
proof fn lemma_feed_atomic_coda(o: u32, n: u32, k: u32, rest: Seq<char>)
    requires
        onset_of_coda(k) is Some,
    ensures
        assemble_cont(
            CombineStage::OnsetNucleusPending { onset: o, nucleus: n },
            seq![coda_char(k)] + rest,
        ) == assemble_cont(
            CombineStage::FullUncombinedCoda {
                onset: o,
                nucleus: n,
                coda_onset: onset_of_coda(k)->Some_0,
                coda: k,
            },
            rest,
        ),
{
    lemma_classify_coda_char(k);
    let s = seq![coda_char(k)] + rest;
    assert(s[0] == coda_char(k));
    assert(s.drop_first() =~= rest);
}

/// Feeding the two components of a compound coda onto a pending
/// onset-nucleus pair holds the combined coda without emitting anything.
proof fn lemma_feed_compound_coda(o: u32, n: u32, k: u32, rest: Seq<char>)
    requires
        coda_pair(k) is Some,
    ensures
        assemble_cont(
            CombineStage::OnsetNucleusPending { onset: o, nucleus: n },
            seq![onset_char(coda_pair(k)->Some_0.0), onset_char(coda_pair(k)->Some_0.1)] + rest,
        ) == assemble_cont(
            CombineStage::FullCombinedCoda {
                onset: o,
                nucleus: n,
                coda: coda_of_onset(coda_pair(k)->Some_0.0)->Some_0,
                second_onset: coda_pair(k)->Some_0.1,
                combined: k,
            },
            rest,
        ),
{
    let a = coda_pair(k)->Some_0.0;
    let b = coda_pair(k)->Some_0.1;
    lemma_coda_pair_combines(k);
    lemma_classify_onset_char(a);
    lemma_classify_onset_char(b);
    let s = seq![onset_char(a), onset_char(b)] + rest;
    let s1 = seq![onset_char(b)] + rest;
    assert(s[0] == onset_char(a));
    assert(s.drop_first() =~= s1);
    assert(s1[0] == onset_char(b));
    assert(s1.drop_first() =~= rest);
    let st0 = CombineStage::OnsetNucleusPending { onset: o, nucleus: n };
    let st_mid = step(st0, s[0]).1;
    assert(assemble_cont(st0, s) == step(st0, s[0]).0 + assemble_cont(st_mid, s1));
    let st_end = step(st_mid, s1[0]).1;
    assert(assemble_cont(st_mid, s1) == step(st_mid, s1[0]).0 + assemble_cont(st_end, rest));
    assert(assemble_cont(st0, s) =~= assemble_cont(st_end, rest));
}

/// Feeding the whole disassembly of a syllable from a boundary state emits
/// exactly what the boundary owed and leaves the syllable pending.
proof fn lemma_feed_syllable(prev: Option<int>, x: int, rest: Seq<char>)
    requires
        valid_boundary(prev),
        is_syllable_code(x),
    ensures
        assemble_cont(boundary_stage(prev), decompose_char((x as char)) + rest)
            == boundary_owed(prev) + assemble_cont(after_stage(x), rest),
{
    lemma_syllable_decompose(x);
    assert((x as char) as u32 == x);
    let o = syllable_cho(x) as u32;
    let n = syllable_jung(x) as u32;
    let k = syllable_jong(x) as u32;
    let atoms = decompose_char((x as char));
    assert(atoms == seq![onset_char(o)] + nucleus_parts(n) + coda_parts(k));
    match vowel_pair(n) {
        Some(vp) => {
            lemma_vowel_pair_combines(n);
            let head = seq![onset_char(o), vowel_char(vp.0)];
            let mid = seq![vowel_char(vp.1)] + coda_parts(k) + rest;
            assert(atoms + rest =~= head + (seq![vowel_char(vp.1)] + (coda_parts(k) + rest)));
            lemma_feed_onset_vowel(prev, o, vp.0, seq![vowel_char(vp.1)] + (coda_parts(k) + rest));
            lemma_feed_second_vowel(o, vp.0, vp.1, n, coda_parts(k) + rest);
        },
        None => {
            let head = seq![onset_char(o), vowel_char(n)];
            assert(atoms + rest =~= head + (coda_parts(k) + rest));
            lemma_feed_onset_vowel(prev, o, n, coda_parts(k) + rest);
        },
    }
    // The accumulator now holds the onset and the full nucleus; the coda
    // parts remain.
    let st_on = CombineStage::OnsetNucleusPending { onset: o, nucleus: n };
    if k == 0 {
        assert(coda_parts(k) + rest =~= rest);
        assert(after_stage(x) == st_on);
    } else {
        match coda_pair(k) {
            Some(p) => {
                assert(coda_parts(k) + rest =~= seq![onset_char(p.0), onset_char(p.1)] + rest);
                lemma_feed_compound_coda(o, n, k, rest);
            },
            None => {
                lemma_atomic_coda_has_onset(k);
                assert(coda_parts(k) + rest =~= seq![coda_char(k)] + rest);
                lemma_feed_atomic_coda(o, n, k, rest);
            },
        }
    }
}

/// Feeding a passthrough character from a boundary state emits what the
/// boundary owed and the character itself, and empties the accumulator.
proof fn lemma_feed_passive(prev: Option<int>, c: char, rest: Seq<char>)
    requires
        valid_boundary(prev),
        jamo_class(c) == JamoClass::Other,
    ensures
        assemble_cont(boundary_stage(prev), seq![c] + rest) == boundary_owed(prev) + seq![c]
            + assemble_cont(CombineStage::Empty, rest),
{
    let s = seq![c] + rest;
    assert(s[0] == c);
    assert(s.drop_first() =~= rest);
    if let Some(y) = prev {
        lemma_after_stage(y);
    }
    let st0 = boundary_stage(prev);
    assert(assemble_cont(st0, s) == step(st0, c).0 + assemble_cont(CombineStage::Empty, rest));
    assert(assemble_cont(st0, s) =~= boundary_owed(prev) + seq![c] + assemble_cont(
        CombineStage::Empty,
        rest,
    ));
}

// ---------------------------------------------------------------------------
// The round-trip law.
// ---------------------------------------------------------------------------

/// A character that neither transducer touches: not a syllable, not an
/// atomic onset or vowel jamo, not a compound jamo. Every character outside
/// the Hangul blocks qualifies.
pub open spec fn passthrough_char(c: char) -> bool {
    let x = (c as u32) as int;
    &&& !is_syllable_code(x)
    &&& compat_choseong_rev(x) is None
    &&& !(0x314F <= x <= 0x3163)
    &&& match compat_jongseong_rev(x) {
        Some(k) => coda_pair(k as u32) is None,
        None => true,
    }
}

/// Every character outside the Hangul blocks is a passthrough character.
pub proof fn lemma_non_hangeul_passthrough(c: char)
    requires
        !is_hangeul_code((c as u32) as int),
    ensures
        passthrough_char(c),
{
}

/// A passthrough character is untouched by disassembly and inert to
/// assembly: it is emitted unchanged by both transducers.
pub proof fn lemma_passthrough_inert(c: char)
    requires
        passthrough_char(c),
    ensures
        decompose_char(c) == seq![c],
        jamo_class(c) == JamoClass::Other,
{
}

/// Every sequence of syllables and passthrough characters that disassembly
/// has turned into atoms is reassembled exactly, with the accumulator
/// starting at a boundary state.
#[verifier::rlimit(60)]
proof fn lemma_round_trip_rec(prev: Option<int>, s: Seq<char>)
    requires
        valid_boundary(prev),
        forall|i: int|
            0 <= i < s.len() ==> is_syllable_code((#[trigger] s[i] as u32) as int)
                || passthrough_char(s[i]),
    ensures
        assemble_cont(boundary_stage(prev), disassemble_seq(s)) == boundary_owed(prev) + s,
    decreases s.len(),
{
    if s.len() == 0 {
        if let Some(y) = prev {
            lemma_after_stage(y);
        }
        assert(boundary_owed(prev) + s =~= boundary_owed(prev));
    } else {
        let c = s[0];
        let t = s.drop_first();
        let x = (c as u32) as int;
        assert(disassemble_seq(s) == decompose_char(c) + disassemble_seq(t));
        assert(forall|i: int|
            0 <= i < t.len() ==> is_syllable_code((#[trigger] t[i] as u32) as int)
                || passthrough_char(t[i])) by {
            assert(forall|i: int| 0 <= i < t.len() ==> t[i] == s[i + 1]);
        }
        if c as u32 <= 0xD7A3 && 0xAC00 <= c as u32 {
            vstd::utf8::char_u32_cast(c, c as u32);
            assert((x as char) == c);
            lemma_feed_syllable(prev, x, disassemble_seq(t));
            lemma_round_trip_rec(Some(x), t);
            assert(boundary_owed(prev) + seq![(x as char)] + t =~= boundary_owed(prev) + s) by {
                assert(s =~= seq![c] + t);
            }
            assert(assemble_cont(boundary_stage(prev), disassemble_seq(s)) =~= boundary_owed(prev)
                + s);
        } else {
            lemma_passthrough_inert(c);
            lemma_feed_passive(prev, c, disassemble_seq(t));
            lemma_round_trip_rec(None, t);
            assert(assemble_cont(boundary_stage(prev), disassemble_seq(s)) =~= boundary_owed(prev)
                + s) by {
                assert(s =~= seq![c] + t);
            }
        }
    }
}

/// Round trip: disassembling a sequence of syllables and passthrough
/// characters and assembling the result yields the original sequence. This
/// covers every syllable — with no coda, an atomic or compound coda, an
/// atomic or compound nucleus — mixed with arbitrary non-Hangul text.
pub proof fn lemma_round_trip(s: Seq<char>)
    requires
        forall|i: int|
            0 <= i < s.len() ==> is_syllable_code((#[trigger] s[i] as u32) as int)
                || passthrough_char(s[i]),
    ensures
        assemble_seq(disassemble_seq(s)) == s,
{
    lemma_round_trip_rec(None, s);
    assert(boundary_owed(None) + s =~= s);
}

/// A lone consonant between two vowels belongs to the following syllable:
/// assembling onset, vowel, consonant, vowel yields two open syllables. The
/// consonant is first held as a possible coda of the first syllable (when it
/// can be one) and reinterpreted as the next onset once the second vowel
/// arrives.
pub proof fn lemma_consonant_between_vowels_starts_next_syllable(
    o1: u32,
    n1: u32,
    o2: u32,
    n2: u32,
)
    requires
        o1 < 19,
        n1 < 21,
        vowel_pair(n1) is None,
        o2 < 19,
        n2 < 21,
        vowel_pair(n2) is None,
    ensures
        assemble_seq(seq![onset_char(o1), vowel_char(n1), onset_char(o2), vowel_char(n2)])
            == seq![
            (compose_code(o1 as int, n1 as int, 0) as char),
            (compose_code(o2 as int, n2 as int, 0) as char),
        ],
{
    let y1 = compose_code(o1 as int, n1 as int, 0);
    let y2 = compose_code(o2 as int, n2 as int, 0);
    lemma_syllable_compose(o1 as int, n1 as int, 0);
    lemma_syllable_compose(o2 as int, n2 as int, 0);
    let s = seq![onset_char(o1), vowel_char(n1), onset_char(o2), vowel_char(n2)];
    let tail = seq![onset_char(o2), vowel_char(n2)] + Seq::<char>::empty();
    assert(s =~= seq![onset_char(o1), vowel_char(n1)] + tail);
    lemma_feed_onset_vowel(None, o1, n1, tail);
    assert(boundary_stage(Some(y1)) == (CombineStage::OnsetNucleusPending {
        onset: o1,
        nucleus: n1,
    }));
    lemma_feed_onset_vowel(Some(y1), o2, n2, Seq::<char>::empty());
    assert(boundary_stage(Some(y2)) == (CombineStage::OnsetNucleusPending {
        onset: o2,
        nucleus: n2,
    }));
    lemma_after_stage(y2);
    assert(assemble_seq(s) =~= seq![(y1 as char), (y2 as char)]);
}

// ---------------------------------------------------------------------------
// Standalone compound jamo decompose to their atomic pair.
// ---------------------------------------------------------------------------

/// A standalone compound coda character decomposes into the standalone
/// characters of its two atomic components.
pub proof fn lemma_compound_coda_decomposes(c: char, k: u32)
    requires
        compat_jongseong_rev((c as u32) as int) == Some(k as int),
        coda_pair(k) is Some,
    ensures
        decompose_char(c) == seq![
            onset_char(coda_pair(k)->Some_0.0),
            onset_char(coda_pair(k)->Some_0.1),
        ],
{
}

/// A standalone compound vowel character decomposes into the standalone
/// characters of its two atomic components.
pub proof fn lemma_compound_vowel_decomposes(c: char, n: u32)
    requires
        (c as u32) as int == 0x314F + n,
        vowel_pair(n) is Some,
    ensures
        decompose_char(c) == seq![
            vowel_char(vowel_pair(n)->Some_0.0),
            vowel_char(vowel_pair(n)->Some_0.1),
        ],
{
}

// ---------------------------------------------------------------------------
// Disassembly is a homomorphism on concatenation, touches no passthrough
// character, never shrinks and at most triples its input, and is idempotent.
// ---------------------------------------------------------------------------

/// Disassembling a concatenation disassembles the parts independently.
pub proof fn lemma_disassemble_append(s1: Seq<char>, s2: Seq<char>)
    ensures
        disassemble_seq(s1 + s2) == disassemble_seq(s1) + disassemble_seq(s2),
    decreases s1.len(),
{
    if s1.len() == 0 {
        assert(s1 + s2 =~= s2);
        assert(disassemble_seq(s1) + disassemble_seq(s2) =~= disassemble_seq(s2));
    } else {
        assert((s1 + s2)[0] == s1[0]);
        assert((s1 + s2).drop_first() =~= s1.drop_first() + s2);
        lemma_disassemble_append(s1.drop_first(), s2);
        assert(disassemble_seq(s1 + s2) =~= disassemble_seq(s1) + disassemble_seq(s2));
    }
}

/// One character yields at least one and at most five characters (an onset
/// plus up to two vowel parts and two coda parts), so the disassembly of a
/// sequence is finite and at most five times as long.
pub proof fn lemma_disassemble_len(s: Seq<char>)
    ensures
        s.len() <= disassemble_seq(s).len() <= 5 * s.len(),
    decreases s.len(),
{
    if s.len() > 0 {
        lemma_disassemble_len(s.drop_first());
    }
}

/// A character that is neither a syllable nor a compound compatibility jamo.
/// Disassembly emits exactly these characters, and leaves them unchanged.
pub open spec fn atomic_char(c: char) -> bool {
    let x = (c as u32) as int;
    &&& !is_syllable_code(x)
    &&& !(0x314F <= x <= 0x3163 && vowel_pair((x - 0x314F) as u32) is Some)
    &&& match compat_jongseong_rev(x) {
        Some(k) => coda_pair(k as u32) is None,
        None => true,
    }
}

/// Disassembling an already-fully-atomic sequence (no syllables, no
/// compounds) returns the same sequence unchanged.
pub proof fn lemma_disassemble_atomic_identity(s: Seq<char>)
    requires
        forall|i: int| 0 <= i < s.len() ==> atomic_char(#[trigger] s[i]),
    ensures
        disassemble_seq(s) == s,
    decreases s.len(),
{
    if s.len() == 0 {
        assert(disassemble_seq(s) =~= s);
    } else {
        assert(forall|i: int| 0 <= i < s.drop_first().len() ==> atomic_char(
            #[trigger] s.drop_first()[i],
        )) by {
            assert(forall|i: int| 0 <= i < s.drop_first().len() ==> s.drop_first()[i] == s[i + 1]);
        }
        lemma_disassemble_atomic_identity(s.drop_first());
        assert(decompose_char(s[0]) == seq![s[0]]);
        assert(disassemble_seq(s) =~= s) by {
            assert(s =~= seq![s[0]] + s.drop_first());
        }
    }
}

/// Everything disassembly emits is atomic.
proof fn lemma_decompose_char_atomic(c: char)
    ensures
        forall|j: int| 0 <= j < decompose_char(c).len() ==> atomic_char(
            #[trigger] decompose_char(c)[j],
        ),
{
    let x = (c as u32) as int;
    if is_syllable_code(x) {
        lemma_syllable_decompose(x);
        let o = syllable_cho(x) as u32;
        let n = syllable_jung(x) as u32;
        let k = syllable_jong(x) as u32;
        assert(atomic_char(onset_char(o))) by {
            assert((compat_choseong_code(o as int) as char) as u32 == compat_choseong_code(
                o as int,
            ));
        }
        lemma_nucleus_parts_atomic(n);
        if k != 0 {
            match coda_pair(k) {
                Some(p) => {
                    lemma_coda_pair_combines(k);
                    assert(atomic_char(onset_char(p.0))) by {
                        assert((compat_choseong_code(p.0 as int) as char) as u32
                            == compat_choseong_code(p.0 as int));
                    }
                    assert(atomic_char(onset_char(p.1))) by {
                        assert((compat_choseong_code(p.1 as int) as char) as u32
                            == compat_choseong_code(p.1 as int));
                    }
                },
                None => {
                    assert(atomic_char(coda_char(k))) by {
                        assert((compat_jongseong_code(k as int) as char) as u32
                            == compat_jongseong_code(k as int));
                    }
                },
            }
        }
    } else if 0x314F <= x <= 0x3163 && vowel_pair((x - 0x314F) as u32) is Some {
        lemma_nucleus_parts_atomic((x - 0x314F) as u32);
    } else {
        match compat_jongseong_rev(x) {
            Some(k) => {
                if coda_pair(k as u32) is Some {
                    lemma_coda_pair_combines(k as u32);
                    let p = coda_pair(k as u32)->Some_0;
                    assert(atomic_char(onset_char(p.0))) by {
                        assert((compat_choseong_code(p.0 as int) as char) as u32
                            == compat_choseong_code(p.0 as int));
                    }
                    assert(atomic_char(onset_char(p.1))) by {
                        assert((compat_choseong_code(p.1 as int) as char) as u32
                            == compat_choseong_code(p.1 as int));
                    }
                }
            },
            None => {},
        }
    }
}

/// The nucleus parts of any vowel are atomic characters.
proof fn lemma_nucleus_parts_atomic(n: u32)
    requires
        n < 21,
    ensures
        forall|j: int| 0 <= j < nucleus_parts(n).len() ==> atomic_char(
            #[trigger] nucleus_parts(n)[j],
        ),
{
    match vowel_pair(n) {
        Some(p) => {
            lemma_vowel_pair_combines(n);
            assert(atomic_char(vowel_char(p.0))) by {
                assert(((0x314F + p.0 as int) as char) as u32 == 0x314F + p.0);
            }
            assert(atomic_char(vowel_char(p.1))) by {
                assert(((0x314F + p.1 as int) as char) as u32 == 0x314F + p.1);
            }
        },
        None => {
            assert(atomic_char(vowel_char(n))) by {
                assert(((0x314F + n as int) as char) as u32 == 0x314F + n);
            }
        },
    }
}

/// Disassembly is idempotent: its output contains no syllable and no
/// compound jamo, so disassembling it again changes nothing.
pub proof fn lemma_disassemble_idempotent(s: Seq<char>)
    ensures
        disassemble_seq(disassemble_seq(s)) == disassemble_seq(s),
    decreases s.len(),
{
    if s.len() == 0 {
        assert(disassemble_seq(disassemble_seq(s)) =~= disassemble_seq(s));
    } else {
        lemma_decompose_char_atomic(s[0]);
        lemma_disassemble_atomic_identity(decompose_char(s[0]));
        lemma_disassemble_idempotent(s.drop_first());
        lemma_disassemble_append(decompose_char(s[0]), disassemble_seq(s.drop_first()));
    }
}

// ---------------------------------------------------------------------------
// Assembly emits passthrough characters unchanged, wherever they stand.
// ---------------------------------------------------------------------------

/// The accumulator state after consuming a sequence, without flushing.
spec fn run_state(st: CombineStage, s: Seq<char>) -> CombineStage
    decreases s.len(),
{
    if s.len() == 0 {
        st
    } else {
        run_state(step(st, s[0]).1, s.drop_first())
    }
}

/// What the accumulator emits while consuming a sequence, without flushing.
spec fn run_emit(st: CombineStage, s: Seq<char>) -> Seq<char>
    decreases s.len(),
{
    if s.len() == 0 {
        Seq::<char>::empty()
    } else {
        step(st, s[0]).0 + run_emit(step(st, s[0]).1, s.drop_first())
    }
}

/// Assembly is the run followed by the final flush.
proof fn lemma_cont_is_run(st: CombineStage, s: Seq<char>)
    ensures
        assemble_cont(st, s) == run_emit(st, s) + flush_emits(run_state(st, s)),
    decreases s.len(),
{
    if s.len() == 0 {
        assert(run_emit(st, s) + flush_emits(st) =~= flush_emits(st));
    } else {
        lemma_cont_is_run(step(st, s[0]).1, s.drop_first());
        assert(assemble_cont(st, s) =~= run_emit(st, s) + flush_emits(run_state(st, s)));
    }
}

/// Runs compose over concatenation.
proof fn lemma_run_append(st: CombineStage, s1: Seq<char>, s2: Seq<char>)
    ensures
        run_state(st, s1 + s2) == run_state(run_state(st, s1), s2),
        run_emit(st, s1 + s2) == run_emit(st, s1) + run_emit(run_state(st, s1), s2),
    decreases s1.len(),
{
    if s1.len() == 0 {
        assert(s1 + s2 =~= s2);
        assert(run_emit(st, s1) + run_emit(st, s2) =~= run_emit(st, s2));
    } else {
        assert((s1 + s2)[0] == s1[0]);
        assert((s1 + s2).drop_first() =~= s1.drop_first() + s2);
        lemma_run_append(step(st, s1[0]).1, s1.drop_first(), s2);
        assert(run_emit(st, s1 + s2) =~= run_emit(st, s1) + run_emit(run_state(st, s1), s2));
    }
}

/// A passthrough character splits assembly: the text before it is assembled
/// and flushed on its own, the character passes through, and assembly starts
/// afresh after it.
pub proof fn lemma_assemble_passthrough(s1: Seq<char>, c: char, s2: Seq<char>)
    requires
        passthrough_char(c),
    ensures
        assemble_seq(s1 + seq![c] + s2) == assemble_seq(s1) + seq![c] + assemble_seq(s2),
{
    lemma_passthrough_inert(c);
    let whole = s1 + seq![c] + s2;
    let tail = seq![c] + s2;
    assert(whole =~= s1 + tail);
    let st1 = run_state(CombineStage::Empty, s1);
    lemma_run_append(CombineStage::Empty, s1, tail);
    assert(tail[0] == c);
    assert(tail.drop_first() =~= s2);
    assert(run_state(st1, tail) == run_state(CombineStage::Empty, s2));
    assert(run_emit(st1, tail) == (flush_emits(st1) + seq![c]) + run_emit(
        CombineStage::Empty,
        s2,
    ));
    lemma_cont_is_run(CombineStage::Empty, whole);
    lemma_cont_is_run(CombineStage::Empty, s1);
    lemma_cont_is_run(CombineStage::Empty, s2);
    assert(assemble_seq(whole) =~= assemble_seq(s1) + seq![c] + assemble_seq(s2));
}

} // verus!
