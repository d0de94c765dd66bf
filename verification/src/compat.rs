//! Classification restricted to the compatibility jamo block: each component
//! type here accepts only standalone compatibility code points (and
//! syllables, through their conjoining form, which never match).

pub mod choseong;
pub mod jongseong;
pub mod jungseong;
