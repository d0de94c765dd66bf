use korean::assemble::assemble;
use korean::disassemble::disassemble;

fn chars(s: &str) -> Vec<char> {
    s.chars().collect()
}

fn string(v: &[char]) -> String {
    v.iter().collect()
}

fn round_trip(s: &str) -> String {
    string(&assemble(&disassemble(&chars(s))))
}

#[test]
fn round_trip_simple_syllables() {
    // Syllables with an onset, an atomic nucleus and no coda.
    assert_eq!(round_trip("가"), "가");
    assert_eq!(round_trip("나무"), "나무");
    assert_eq!(round_trip("자다"), "자다");
    assert_eq!(round_trip("차표"), "차표");
    assert_eq!(round_trip("야유"), "야유");
}

#[test]
fn round_trip_compound_coda_syllable() {
    assert_eq!(string(&disassemble(&chars("앉"))), "ㅇㅏㄴㅈ");
    assert_eq!(string(&assemble(&chars("ㅇㅏㄴㅈ"))), "앉");
    assert_eq!(round_trip("앉"), "앉");
    assert_eq!(round_trip("닭값"), "닭값");
}

#[test]
fn round_trip_compound_nucleus_syllables() {
    assert_eq!(string(&disassemble(&chars("참외"))), "ㅊㅏㅁㅇㅗㅣ");
    assert_eq!(string(&assemble(&chars("ㅊㅏㅁㅇㅗㅣ"))), "참외");
    assert_eq!(round_trip("참외"), "참외");
    assert_eq!(round_trip("과자"), "과자");
}

#[test]
fn compound_codas_decompose_to_atomic_pairs() {
    assert_eq!(
        string(&disassemble(&chars("ㄳㄵㄶㄺㄻㄼㄽㄾㄿㅀㅄ"))),
        "ㄱㅅㄴㅈㄴㅎㄹㄱㄹㅁㄹㅂㄹㅅㄹㅌㄹㅍㄹㅎㅂㅅ"
    );
}

#[test]
fn compound_vowels_decompose_to_atomic_pairs() {
    assert_eq!(string(&disassemble(&chars("ㅘㅙㅚㅝㅞㅟㅢ"))), "ㅗㅏㅗㅐㅗㅣㅜㅓㅜㅔㅜㅣㅡㅣ");
}

#[test]
fn coda_reinterpreted_as_next_onset() {
    assert_eq!(string(&assemble(&chars("ㄱㅗㄱㅜㅁㅏ"))), "고구마");
    assert_eq!(string(&assemble(&chars("ㄱㅏㅁㅈㅏ"))), "감자");
}

#[test]
fn any_jamo_mix_assembles_without_panic() {
    // Arbitrary mixes of syllables, consonants and vowels go through both
    // transducers and always come out as a string.
    let inputs = [
        "ㄱㄴㄷㄹㅁㅂㅅㅇㅈㅊㅋㅌㅍㅎ",
        "ㅏㅑㅓㅕㅗㅛㅜㅠㅡㅣ",
        "ㄸㅃㅉ가ㅎㅎㅎ",
        "ㅇㅇㅏㅏㄴㄴㅈㅈ",
        "값비싼 보석ㆍ구슬",
        "ㄱㅏㄱㄱㅏ",
        "ㅗㅏㅂㅅㅂㅅ",
    ];
    for input in inputs.iter() {
        let atoms = disassemble(&chars(input));
        let out = assemble(&atoms);
        let _ = string(&out);
    }
}

#[test]
fn tense_only_consonant_never_becomes_a_coda() {
    // ㄸ cannot close a syllable, so it always starts the next one.
    assert_eq!(string(&assemble(&chars("ㅇㅏㄸㅏ"))), "아따");
}

#[test]
fn non_hangeul_passes_through_both_transducers() {
    assert_eq!(string(&disassemble(&chars("abc 123!"))), "abc 123!");
    assert_eq!(string(&assemble(&chars("abc 123!"))), "abc 123!");
    assert_eq!(string(&disassemble(&chars("한a글b"))), "ㅎㅏㄴaㄱㅡㄹb");
    assert_eq!(string(&assemble(&chars("ㅎㅏㄴaㄱㅡㄹb"))), "한a글b");
    assert_eq!(round_trip("Hello, 월드! 참외 맛 1급."), "Hello, 월드! 참외 맛 1급.");
}

#[test]
fn disassembly_of_atomic_text_is_identity() {
    let atomic = "ㄱㄲㄴㄷㄹㅁㅂㅅㅆㅇㅏㅐㅓㅔㅗㅜㅡㅣ abc";
    assert_eq!(string(&disassemble(&chars(atomic))), atomic);
    // Disassembling twice changes nothing more than disassembling once.
    let once = disassemble(&chars("값진 참외"));
    let twice = disassemble(&once);
    assert_eq!(once, twice);
}

#[test]
fn assembly_flushes_pending_state_at_end_of_input() {
    assert_eq!(string(&assemble(&chars("ㄱ"))), "ㄱ");
    assert_eq!(string(&assemble(&chars("ㅏ"))), "ㅏ");
    assert_eq!(string(&assemble(&chars("ㄱㅏ"))), "가");
    assert_eq!(string(&assemble(&chars("ㄱㅏㅂ"))), "갑");
    assert_eq!(string(&assemble(&chars("ㄱㅏㅂㅅ"))), "값");
    assert_eq!(string(&assemble(&chars("ㅗㅏ"))), "ㅘ");
}

#[test]
fn assembly_splits_double_consonant_without_vowel() {
    // Two onsets in a row: the first is emitted alone.
    assert_eq!(string(&assemble(&chars("ㄱㄱㅏ"))), "ㄱ가");
    // A vowel then an onset: the vowel is emitted alone.
    assert_eq!(string(&assemble(&chars("ㅏㄱㅏ"))), "ㅏ가");
}

#[test]
fn assembly_replaces_jamo_between_transducers() {
    let input = "당신은 네모네모 멍뭉이의 저주에 걸렸습니다!";
    let swapped: Vec<char> = disassemble(&chars(input))
        .into_iter()
        .map(|c| if c == 'ㅇ' { 'ㅁ' } else { c })
        .collect();
    let nemo = string(&assemble(&swapped));
    assert_eq!(nemo, "담신믄 네모네모 멈뭄미믜 저주메 걸렸습니다!");
}
