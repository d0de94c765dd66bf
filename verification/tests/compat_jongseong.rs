use korean::compat::jongseong::CompatJongseongInformation;

#[test]
fn jongseong_is_choseong_with_u32() {
    assert_eq!(0x11A7.is_compat_jongseong(), false);
    assert_eq!(0x3131.is_compat_jongseong(), true);
    assert_eq!(0x3132.is_compat_jongseong(), true);
    assert_eq!(0x3133.is_compat_jongseong(), true);
    assert_eq!(0x3134.is_compat_jongseong(), true);
    assert_eq!(0x3135.is_compat_jongseong(), true);
    assert_eq!(0x3136.is_compat_jongseong(), true);
    assert_eq!(0x3137.is_compat_jongseong(), true);
    assert_eq!(0x3139.is_compat_jongseong(), true);
    assert_eq!(0x313A.is_compat_jongseong(), true);
    assert_eq!(0x313B.is_compat_jongseong(), true);
    assert_eq!(0x313C.is_compat_jongseong(), true);
    assert_eq!(0x313D.is_compat_jongseong(), true);
    assert_eq!(0x313E.is_compat_jongseong(), true);
    assert_eq!(0x313F.is_compat_jongseong(), true);
    assert_eq!(0x3140.is_compat_jongseong(), true);
    assert_eq!(0x3141.is_compat_jongseong(), true);
    assert_eq!(0x3142.is_compat_jongseong(), true);
    assert_eq!(0x3144.is_compat_jongseong(), true);
    assert_eq!(0x3145.is_compat_jongseong(), true);
    assert_eq!(0x3146.is_compat_jongseong(), true);
    assert_eq!(0x3147.is_compat_jongseong(), true);
    assert_eq!(0x3148.is_compat_jongseong(), true);
    assert_eq!(0x314A.is_compat_jongseong(), true);
    assert_eq!(0x314B.is_compat_jongseong(), true);
    assert_eq!(0x314C.is_compat_jongseong(), true);
    assert_eq!(0x314D.is_compat_jongseong(), true);
    assert_eq!(0x314E.is_compat_jongseong(), true);
    assert_eq!(0x11C3.is_compat_jongseong(), false);
}

#[test]
fn jongseong_is_choseong_with_char() {
    assert_eq!('\u{11A7}'.is_compat_jongseong(), false);
    assert_eq!('ㄱ'.is_compat_jongseong(), true); // 0x3131
    assert_eq!('ㄲ'.is_compat_jongseong(), true); // 0x3132
    assert_eq!('ㄳ'.is_compat_jongseong(), true); // 0x3133
    assert_eq!('ㄴ'.is_compat_jongseong(), true); // 0x3134
    assert_eq!('ㄵ'.is_compat_jongseong(), true); // 0x3135
    assert_eq!('ㄶ'.is_compat_jongseong(), true); // 0x3136
    assert_eq!('ㄷ'.is_compat_jongseong(), true); // 0x3137
    assert_eq!('ㄹ'.is_compat_jongseong(), true); // 0x3139
    assert_eq!('ㄺ'.is_compat_jongseong(), true); // 0x313A
    assert_eq!('ㄻ'.is_compat_jongseong(), true); // 0x313B
    assert_eq!('ㄼ'.is_compat_jongseong(), true); // 0x313C
    assert_eq!('ㄽ'.is_compat_jongseong(), true); // 0x313D
    assert_eq!('ㄾ'.is_compat_jongseong(), true); // 0x313E
    assert_eq!('ㄿ'.is_compat_jongseong(), true); // 0x313F
    assert_eq!('ㅀ'.is_compat_jongseong(), true); // 0x3140
    assert_eq!('ㅁ'.is_compat_jongseong(), true); // 0x3141
    assert_eq!('ㅂ'.is_compat_jongseong(), true); // 0x3142
    assert_eq!('ㅄ'.is_compat_jongseong(), true); // 0x3144
    assert_eq!('ㅅ'.is_compat_jongseong(), true); // 0x3145
    assert_eq!('ㅆ'.is_compat_jongseong(), true); // 0x3146
    assert_eq!('ㅇ'.is_compat_jongseong(), true); // 0x3147
    assert_eq!('ㅈ'.is_compat_jongseong(), true); // 0x3148
    assert_eq!('ㅊ'.is_compat_jongseong(), true); // 0x314A
    assert_eq!('ㅋ'.is_compat_jongseong(), true); // 0x314B
    assert_eq!('ㅌ'.is_compat_jongseong(), true); // 0x314C
    assert_eq!('ㅍ'.is_compat_jongseong(), true); // 0x314D
    assert_eq!('ㅎ'.is_compat_jongseong(), true); // 0x314E
    assert_eq!('\u{11C3}'.is_compat_jongseong(), false);
}
