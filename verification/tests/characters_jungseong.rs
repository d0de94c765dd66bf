use korean::characters::jungseong::JungseongCharacter::{
    A, AE, E, EO, EU, I, O, OE, U, WA, WAE, WE, WEO, WI, YA, YAE, YE, YEO, YI, YO, YU,
};
use korean::characters::CharacterInformation;

#[test]
fn jungseong_is_jaeum() {
    assert_eq!(A.is_jaeum(), false);
    assert_eq!(AE.is_jaeum(), false);
    assert_eq!(YA.is_jaeum(), false);
    assert_eq!(YAE.is_jaeum(), false);
    assert_eq!(EO.is_jaeum(), false);
    assert_eq!(E.is_jaeum(), false);
    assert_eq!(YEO.is_jaeum(), false);
    assert_eq!(YE.is_jaeum(), false);
    assert_eq!(O.is_jaeum(), false);
    assert_eq!(WA.is_jaeum(), false);
    assert_eq!(WAE.is_jaeum(), false);
    assert_eq!(OE.is_jaeum(), false);
    assert_eq!(YO.is_jaeum(), false);
    assert_eq!(U.is_jaeum(), false);
    assert_eq!(WEO.is_jaeum(), false);
    assert_eq!(WE.is_jaeum(), false);
    assert_eq!(WI.is_jaeum(), false);
    assert_eq!(YU.is_jaeum(), false);
    assert_eq!(EU.is_jaeum(), false);
    assert_eq!(YI.is_jaeum(), false);
    assert_eq!(I.is_jaeum(), false);
}

#[test]
fn jungseong_is_moeum() {
    assert_eq!(A.is_moeum(), true);
    assert_eq!(AE.is_moeum(), true);
    assert_eq!(YA.is_moeum(), true);
    assert_eq!(YAE.is_moeum(), true);
    assert_eq!(EO.is_moeum(), true);
    assert_eq!(E.is_moeum(), true);
    assert_eq!(YEO.is_moeum(), true);
    assert_eq!(YE.is_moeum(), true);
    assert_eq!(O.is_moeum(), true);
    assert_eq!(WA.is_moeum(), true);
    assert_eq!(WAE.is_moeum(), true);
    assert_eq!(OE.is_moeum(), true);
    assert_eq!(YO.is_moeum(), true);
    assert_eq!(U.is_moeum(), true);
    assert_eq!(WEO.is_moeum(), true);
    assert_eq!(WE.is_moeum(), true);
    assert_eq!(WI.is_moeum(), true);
    assert_eq!(YU.is_moeum(), true);
    assert_eq!(EU.is_moeum(), true);
    assert_eq!(YI.is_moeum(), true);
    assert_eq!(I.is_moeum(), true);
}

#[test]
fn jungseong_to_index() {
    assert_eq!(A.to_index(), 0);
    assert_eq!(AE.to_index(), 1);
    assert_eq!(YA.to_index(), 2);
    assert_eq!(YAE.to_index(), 3);
    assert_eq!(EO.to_index(), 4);
    assert_eq!(E.to_index(), 5);
    assert_eq!(YEO.to_index(), 6);
    assert_eq!(YE.to_index(), 7);
    assert_eq!(O.to_index(), 8);
    assert_eq!(WA.to_index(), 9);
    assert_eq!(WAE.to_index(), 10);
    assert_eq!(OE.to_index(), 11);
    assert_eq!(YO.to_index(), 12);
    assert_eq!(U.to_index(), 13);
    assert_eq!(WEO.to_index(), 14);
    assert_eq!(WE.to_index(), 15);
    assert_eq!(WI.to_index(), 16);
    assert_eq!(YU.to_index(), 17);
    assert_eq!(EU.to_index(), 18);
    assert_eq!(YI.to_index(), 19);
    assert_eq!(I.to_index(), 20);
}

// The composition weight of a nucleus is 28 times its index: the syllable
// block advances by one jongseong slot count per nucleus.
#[test]
fn jungseong_to_composable() {
    assert_eq!(A.to_composable(), 0);
    assert_eq!(AE.to_composable(), 28);
    assert_eq!(YA.to_composable(), 56);
    assert_eq!(YAE.to_composable(), 84);
    assert_eq!(EO.to_composable(), 112);
    assert_eq!(E.to_composable(), 140);
    assert_eq!(YEO.to_composable(), 168);
    assert_eq!(YE.to_composable(), 196);
    assert_eq!(O.to_composable(), 224);
    assert_eq!(WA.to_composable(), 252);
    assert_eq!(WAE.to_composable(), 280);
    assert_eq!(OE.to_composable(), 308);
    assert_eq!(YO.to_composable(), 336);
    assert_eq!(U.to_composable(), 364);
    assert_eq!(WEO.to_composable(), 392);
    assert_eq!(WE.to_composable(), 420);
    assert_eq!(WI.to_composable(), 448);
    assert_eq!(YU.to_composable(), 476);
    assert_eq!(EU.to_composable(), 504);
    assert_eq!(YI.to_composable(), 532);
    assert_eq!(I.to_composable(), 560);
}
