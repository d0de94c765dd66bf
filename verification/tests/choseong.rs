use korean::choseong::ChoseongInformation;

#[test]
fn choseong_is_choseong_with_u32() {
    assert_eq!(0x1099.is_choseong(), false);
    assert_eq!(0x1100.is_choseong(), true);
    assert_eq!(0x1101.is_choseong(), true);
    assert_eq!(0x1102.is_choseong(), true);
    assert_eq!(0x1103.is_choseong(), true);
    assert_eq!(0x1104.is_choseong(), true);
    assert_eq!(0x1105.is_choseong(), true);
    assert_eq!(0x1106.is_choseong(), true);
    assert_eq!(0x1107.is_choseong(), true);
    assert_eq!(0x1108.is_choseong(), true);
    assert_eq!(0x1109.is_choseong(), true);
    assert_eq!(0x110A.is_choseong(), true);
    assert_eq!(0x110B.is_choseong(), true);
    assert_eq!(0x110C.is_choseong(), true);
    assert_eq!(0x110D.is_choseong(), true);
    assert_eq!(0x110E.is_choseong(), true);
    assert_eq!(0x110F.is_choseong(), true);
    assert_eq!(0x1110.is_choseong(), true);
    assert_eq!(0x1111.is_choseong(), true);
    assert_eq!(0x1112.is_choseong(), true);
    assert_eq!(0x1113.is_choseong(), false);

    assert_eq!(0x1099.is_choseong(), false);
    assert_eq!(0x3131.is_choseong(), true);
    assert_eq!(0x3132.is_choseong(), true);
    assert_eq!(0x3134.is_choseong(), true);
    assert_eq!(0x3137.is_choseong(), true);
    assert_eq!(0x3138.is_choseong(), true);
    assert_eq!(0x3139.is_choseong(), true);
    assert_eq!(0x3141.is_choseong(), true);
    assert_eq!(0x3142.is_choseong(), true);
    assert_eq!(0x3143.is_choseong(), true);
    assert_eq!(0x3145.is_choseong(), true);
    assert_eq!(0x3146.is_choseong(), true);
    assert_eq!(0x3147.is_choseong(), true);
    assert_eq!(0x3148.is_choseong(), true);
    assert_eq!(0x3149.is_choseong(), true);
    assert_eq!(0x314A.is_choseong(), true);
    assert_eq!(0x314B.is_choseong(), true);
    assert_eq!(0x314C.is_choseong(), true);
    assert_eq!(0x314D.is_choseong(), true);
    assert_eq!(0x314E.is_choseong(), true);
    assert_eq!(0x1113.is_choseong(), false);
}

#[test]
fn choseong_is_choseong_with_char() {
    assert_eq!('\u{1099}'.is_choseong(), false);
    assert_eq!('ᄀ'.is_choseong(), true); // 0x1100
    assert_eq!('ᄁ'.is_choseong(), true); // 0x1101
    assert_eq!('ᄂ'.is_choseong(), true); // 0x1102
    assert_eq!('ᄃ'.is_choseong(), true); // 0x1103
    assert_eq!('ᄄ'.is_choseong(), true); // 0x1104
    assert_eq!('ᄅ'.is_choseong(), true); // 0x1105
    assert_eq!('ᄆ'.is_choseong(), true); // 0x1106
    assert_eq!('ᄇ'.is_choseong(), true); // 0x1107
    assert_eq!('ᄈ'.is_choseong(), true); // 0x1108
    assert_eq!('ᄉ'.is_choseong(), true); // 0x1109
    assert_eq!('ᄊ'.is_choseong(), true); // 0x110A
    assert_eq!('ᄋ'.is_choseong(), true); // 0x110B
    assert_eq!('ᄌ'.is_choseong(), true); // 0x110C
    assert_eq!('ᄍ'.is_choseong(), true); // 0x110D
    assert_eq!('ᄎ'.is_choseong(), true); // 0x110E
    assert_eq!('ᄏ'.is_choseong(), true); // 0x110F
    assert_eq!('ᄐ'.is_choseong(), true); // 0x1110
    assert_eq!('ᄑ'.is_choseong(), true); // 0x1111
    assert_eq!('ᄒ'.is_choseong(), true); // 0x1112
    assert_eq!('\u{1113}'.is_choseong(), false);

    assert_eq!(0x1099.is_choseong(), false);
    assert_eq!('ㄱ'.is_choseong(), true); // 0x3131
    assert_eq!('ㄲ'.is_choseong(), true); // 0x3132
    assert_eq!('ㄴ'.is_choseong(), true); // 0x3134
    assert_eq!('ㄷ'.is_choseong(), true); // 0x3137
    assert_eq!('ㄸ'.is_choseong(), true); // 0x3138
    assert_eq!('ㄹ'.is_choseong(), true); // 0x3139
    assert_eq!('ㅁ'.is_choseong(), true); // 0x3141
    assert_eq!('ㅂ'.is_choseong(), true); // 0x3142
    assert_eq!('ㅃ'.is_choseong(), true); // 0x3143
    assert_eq!('ㅅ'.is_choseong(), true); // 0x3145
    assert_eq!('ㅆ'.is_choseong(), true); // 0x3146
    assert_eq!('ㅇ'.is_choseong(), true); // 0x3147
    assert_eq!('ㅈ'.is_choseong(), true); // 0x3148
    assert_eq!('ㅉ'.is_choseong(), true); // 0x3149
    assert_eq!('ㅊ'.is_choseong(), true); // 0x314A
    assert_eq!('ㅋ'.is_choseong(), true); // 0x314B
    assert_eq!('ㅌ'.is_choseong(), true); // 0x314C
    assert_eq!('ㅍ'.is_choseong(), true); // 0x314D
    assert_eq!('ㅎ'.is_choseong(), true); // 0x314E
    assert_eq!(0x1113.is_choseong(), false);
}
