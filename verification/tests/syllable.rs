use korean::characters::choseong::ChoseongCharacter;
use korean::characters::jongseong::JongseongCharacter;
use korean::characters::jungseong::JungseongCharacter;
use korean::choseong::Choseong;
use korean::jongseong::Jongseong;
use korean::jungseong::Jungseong;
use korean::syllable::{Syllable, SyllableInformation};

#[test]
fn block_classification() {
    assert_eq!(0xABFF.is_syllable(), false);
    assert_eq!(0xAC00.is_syllable(), true);
    assert_eq!(0xD7A3.is_syllable(), true);
    assert_eq!(0xD7A4.is_syllable(), false);
    assert_eq!('한'.is_syllable(), true);
    assert_eq!('한'.is_hangeul(), true);
    assert_eq!('ᄒ'.is_jamo(), true);
    assert_eq!('ㅎ'.is_compat_jamo(), true);
    assert_eq!('h'.is_hangeul(), false);
}

#[test]
fn syllable_from_code_point() {
    assert!(Syllable::try_from_u32(0xAC00).is_ok());
    assert!(Syllable::try_from_u32(0xABFF).is_err());
    assert!(Syllable::try_from_u32(0x3131).is_err());
    assert!(Syllable::try_from_char(&'한').is_ok());
    assert!(Syllable::try_from_char(&'ㅎ').is_err());
    let s = Syllable::try_from_char(&'한').unwrap();
    assert_eq!(s.to_u32(), 0xD55C);
    assert_eq!(s.to_char(), '한');
}

#[test]
fn syllable_composition_from_code_points() {
    // 한 = ㅎ (18) + ㅏ (0) + ㄴ (4): 0xAC00 + 588*18 + 28*0 + 4 = 0xD55C.
    let s = Syllable::try_from_triple_u32(0x314E, 0x314F, Some(0x3134)).unwrap();
    assert_eq!(s.to_u32(), 0xD55C);
    // The same composition from conjoining code points.
    let s = Syllable::try_from_triple_u32(0x1112, 0x1161, Some(0x11AB)).unwrap();
    assert_eq!(s.to_u32(), 0xD55C);
    // Without a coda: 가 = ㄱ + ㅏ.
    let s = Syllable::try_from_triple_char('ㄱ', 'ㅏ', None).unwrap();
    assert_eq!(s.to_char(), '가');
    // 앉 = ㅇ + ㅏ + ㄵ.
    let s = Syllable::try_from_triple_char('ㅇ', 'ㅏ', Some('ㄵ')).unwrap();
    assert_eq!(s.to_char(), '앉');
}

#[test]
fn syllable_composition_rejects_bad_components() {
    assert!(Syllable::try_from_triple_u32(0x0041, 0x314F, None).is_err());
    assert!(Syllable::try_from_triple_u32(0x3131, 0x0041, None).is_err());
    assert!(Syllable::try_from_triple_u32(0x3131, 0x314F, Some(0x0041)).is_err());
    // A vowel cannot stand as the onset, nor a consonant as the nucleus.
    assert!(Syllable::try_from_triple_char('ㅏ', 'ㅏ', None).is_err());
    assert!(Syllable::try_from_triple_char('ㄱ', 'ㄱ', None).is_err());
}

#[test]
fn syllable_decomposition_to_code_points() {
    let s = Syllable::try_from_u32(0xD55C).unwrap();
    let (cho, jung, jong) = s.to_triple_u32();
    assert_eq!(cho, 0x1112);
    assert_eq!(jung, 0x1161);
    assert_eq!(jong, Some(0x11AB));
    let (cho, jung, jong) = s.to_triple_char();
    assert_eq!(cho, 'ᄒ');
    assert_eq!(jung, 'ᅡ');
    assert_eq!(jong, Some('ᆫ'));
    // 가 has no coda.
    let s = Syllable::try_from_char(&'가').unwrap();
    let (cho, jung, jong) = s.to_triple_u32();
    assert_eq!(cho, 0x1100);
    assert_eq!(jung, 0x1161);
    assert_eq!(jong, None);
}

#[test]
fn syllable_typed_components() {
    let s = Syllable::try_from_char(&'한').unwrap();
    let (cho, jung, jong) = s.to_components().unwrap();
    assert_eq!(cho, Choseong::Normal(ChoseongCharacter::Hieuh));
    assert_eq!(jung, Jungseong::Normal(JungseongCharacter::A));
    assert_eq!(jong, Some(Jongseong::Normal(JongseongCharacter::Nieun)));

    let back = Syllable::try_from_components(&cho, &jung, jong.as_ref()).unwrap();
    assert_eq!(back.to_char(), '한');

    // The compatibility reading of a composed syllable finds nothing.
    assert!(s.to_compat_components().is_none());
}

#[test]
fn syllable_round_trips_through_triple() {
    for code in [0xAC00u32, 0xB155, 0xC548, 0xD55C, 0xD7A3] {
        let s = Syllable::try_from_u32(code).unwrap();
        let (cho, jung, jong) = s.to_triple_u32();
        let back = Syllable::try_from_triple_u32(cho, jung, jong).unwrap();
        assert_eq!(back.to_u32(), code);
    }
}
