use korean::jongseong::JongseongInformation;

fn normal_jongseong_u32_list() -> Vec<u32> {
    vec![
        0x11A8, 0x11A9, 0x11AA, 0x11AB, 0x11AC, 0x11AD, 0x11AE, 0x11AF, 0x11B0, 0x11B1, 0x11B2,
        0x11B3, 0x11B4, 0x11B5, 0x11B6, 0x11B7, 0x11B8, 0x11B9, 0x11BA, 0x11BB, 0x11BC, 0x11BD,
        0x11BE, 0x11BF, 0x11C0, 0x11C1, 0x11C2,
    ]
}

fn compat_jongseong_u32_list() -> Vec<u32> {
    vec![
        0x3131, 0x3132, 0x3133, 0x3134, 0x3135, 0x3136, 0x3137, 0x3139, 0x313A, 0x313B, 0x313C,
        0x313D, 0x313E, 0x313F, 0x3140, 0x3141, 0x3142, 0x3144, 0x3145, 0x3146, 0x3147, 0x3148,
        0x314A, 0x314B, 0x314C, 0x314D, 0x314E,
    ]
}

fn normal_jongseong_char_list() -> Vec<char> {
    vec![
        'ᆨ', 'ᆩ', 'ᆪ', 'ᆫ', 'ᆬ', 'ᆭ', 'ᆮ', 'ᆯ', 'ᆰ', 'ᆱ', 'ᆲ', 'ᆳ', 'ᆴ', 'ᆵ', 'ᆶ', 'ᆷ', 'ᆸ', 'ᆹ', 'ᆺ',
        'ᆻ', 'ᆼ', 'ᆽ', 'ᆾ', 'ᆿ', 'ᇀ', 'ᇁ', 'ᇂ',
    ]
}

fn compat_jongseong_char_list() -> Vec<char> {
    vec![
        'ㄱ', 'ㄲ', 'ㄳ', 'ㄴ', 'ㄵ', 'ㄶ', 'ㄷ', 'ㄹ', 'ㄺ', 'ㄻ', 'ㄼ', 'ㄽ', 'ㄾ', 'ㄿ', 'ㅀ', 'ㅁ', 'ㅂ', 'ㅄ', 'ㅅ',
        'ㅆ', 'ㅇ', 'ㅈ', 'ㅊ', 'ㅋ', 'ㅌ', 'ㅍ', 'ㅎ',
    ]
}

#[test]
fn is_jongseong_with_u32() {
    assert_eq!(0x11A7.is_jongseong(), false);
    for jongseong in normal_jongseong_u32_list().iter() {
        assert_eq!(jongseong.is_jongseong(), true);
    }
    assert_eq!(0x11C3.is_jongseong(), false);

    assert_eq!(0x11A7.is_jongseong(), false);
    for jongseong in compat_jongseong_u32_list().iter() {
        assert_eq!(jongseong.is_jongseong(), true);
    }
    assert_eq!(0x11C3.is_jongseong(), false);
}

#[test]
fn is_jongseong_with_char() {
    assert_eq!('\u{11A7}'.is_jongseong(), false);
    for jongseong in normal_jongseong_char_list().iter() {
        assert_eq!(jongseong.is_jongseong(), true);
    }
    assert_eq!('\u{11C3}'.is_jongseong(), false);

    assert_eq!('\u{11A7}'.is_jongseong(), false);
    for jongseong in compat_jongseong_char_list().iter() {
        assert_eq!(jongseong.is_jongseong(), true);
    }
    assert_eq!('\u{11C3}'.is_jongseong(), false);
}

#[test]
fn is_normal_jongseong_with_u32() {
    assert_eq!(0x11A7.is_normal_jongseong(), false);
    for jongseong in normal_jongseong_u32_list().iter() {
        assert_eq!(jongseong.is_normal_jongseong(), true);
    }
    assert_eq!(0x11C3.is_normal_jongseong(), false);

    assert_eq!(0x11A7.is_normal_jongseong(), false);
    for jongseong in compat_jongseong_u32_list().iter() {
        assert_eq!(jongseong.is_normal_jongseong(), false);
    }
    assert_eq!(0x11C3.is_normal_jongseong(), false);
}

#[test]
fn is_normal_jongseong_with_char() {
    assert_eq!('\u{11A7}'.is_normal_jongseong(), false);
    for jongseong in normal_jongseong_char_list().iter() {
        assert_eq!(jongseong.is_normal_jongseong(), true);
    }
    assert_eq!('\u{11C3}'.is_normal_jongseong(), false);

    assert_eq!('\u{11A7}'.is_normal_jongseong(), false);
    for jongseong in compat_jongseong_char_list().iter() {
        assert_eq!(jongseong.is_normal_jongseong(), false);
    }
    assert_eq!('\u{11C3}'.is_normal_jongseong(), false);
}

#[test]
fn is_compat_jongseong_with_u32() {
    assert_eq!(0x11A7.is_compat_jongseong(), false);
    for jongseong in normal_jongseong_u32_list().iter() {
        assert_eq!(jongseong.is_compat_jongseong(), false);
    }
    assert_eq!(0x11C3.is_compat_jongseong(), false);

    assert_eq!(0x11A7.is_compat_jongseong(), false);
    for jongseong in compat_jongseong_u32_list().iter() {
        assert_eq!(jongseong.is_compat_jongseong(), true);
    }
    assert_eq!(0x11C3.is_compat_jongseong(), false);
}

#[test]
fn is_compat_jongseong_with_char() {
    assert_eq!('\u{11A7}'.is_compat_jongseong(), false);
    for jongseong in normal_jongseong_char_list().iter() {
        assert_eq!(jongseong.is_compat_jongseong(), false);
    }
    assert_eq!('\u{11C3}'.is_compat_jongseong(), false);

    assert_eq!('\u{11A7}'.is_compat_jongseong(), false);
    for jongseong in compat_jongseong_char_list().iter() {
        assert_eq!(jongseong.is_compat_jongseong(), true);
    }
    assert_eq!('\u{11C3}'.is_compat_jongseong(), false);
}
