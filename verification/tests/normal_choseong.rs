use korean::normal::choseong::ChoseongInformation;

#[test]
fn normal_choseong_is_choseong_with_u32() {
    assert_eq!(0x1099.is_choseong(), false);
    assert_eq!(0x1100.is_choseong(), true);
    assert_eq!(0x1101.is_choseong(), true);
    assert_eq!(0x1102.is_choseong(), true);
    assert_eq!(0x1103.is_choseong(), true);
    assert_eq!(0x1104.is_choseong(), true);
    assert_eq!(0x1105.is_choseong(), true);
    assert_eq!(0x1106.is_choseong(), true);
    assert_eq!(0x1107.is_choseong(), true);
    assert_eq!(0x1108.is_choseong(), true);
    assert_eq!(0x1109.is_choseong(), true);
    assert_eq!(0x110A.is_choseong(), true);
    assert_eq!(0x110B.is_choseong(), true);
    assert_eq!(0x110C.is_choseong(), true);
    assert_eq!(0x110D.is_choseong(), true);
    assert_eq!(0x110E.is_choseong(), true);
    assert_eq!(0x110F.is_choseong(), true);
    assert_eq!(0x1110.is_choseong(), true);
    assert_eq!(0x1111.is_choseong(), true);
    assert_eq!(0x1112.is_choseong(), true);
    assert_eq!(0x1113.is_choseong(), false);
}

#[test]
fn normal_choseong_is_choseong_with_char() {
    assert_eq!('\u{1099}'.is_choseong(), false);
    assert_eq!('ᄀ'.is_choseong(), true); // 0x1100
    assert_eq!('ᄁ'.is_choseong(), true); // 0x1101
    assert_eq!('ᄂ'.is_choseong(), true); // 0x1102
    assert_eq!('ᄃ'.is_choseong(), true); // 0x1103
    assert_eq!('ᄄ'.is_choseong(), true); // 0x1104
    assert_eq!('ᄅ'.is_choseong(), true); // 0x1105
    assert_eq!('ᄆ'.is_choseong(), true); // 0x1106
    assert_eq!('ᄇ'.is_choseong(), true); // 0x1107
    assert_eq!('ᄈ'.is_choseong(), true); // 0x1108
    assert_eq!('ᄉ'.is_choseong(), true); // 0x1109
    assert_eq!('ᄊ'.is_choseong(), true); // 0x110A
    assert_eq!('ᄋ'.is_choseong(), true); // 0x110B
    assert_eq!('ᄌ'.is_choseong(), true); // 0x110C
    assert_eq!('ᄍ'.is_choseong(), true); // 0x110D
    assert_eq!('ᄎ'.is_choseong(), true); // 0x110E
    assert_eq!('ᄏ'.is_choseong(), true); // 0x110F
    assert_eq!('ᄐ'.is_choseong(), true); // 0x1110
    assert_eq!('ᄑ'.is_choseong(), true); // 0x1111
    assert_eq!('ᄒ'.is_choseong(), true); // 0x1112
    assert_eq!('\u{1113}'.is_choseong(), false);
}
