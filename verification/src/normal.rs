//! Classification restricted to the conjoining jamo block: each component
//! type here accepts only conjoining code points, and syllables through
//! their conjoining form.

pub mod choseong;
pub mod jongseong;
pub mod jungseong;
