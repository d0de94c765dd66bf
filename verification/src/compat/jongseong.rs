//! Codas of the compatibility jamo block alone.

use vstd::prelude::*;

use crate::characters::char_from_code;
use crate::characters::jongseong::{
    compat_jongseong_code, compat_jongseong_index_of, compat_jongseong_of, compat_jongseong_rev,
    jongseong_index, jongseong_to_code, JongseongCharacter,
};
use crate::characters::CharacterInformation;
use crate::jongseong::Jongseong;

verus! {

/// A coda consonant known to have come from the compatibility block.
#[derive(Clone, Copy, Debug, PartialEq, Eq, Structural)]
pub struct CompatJongseong(JongseongCharacter);

/// Whether a code point names a compatibility-block coda (directly, or as a
/// syllable's coda through its conjoining form, which never matches).
pub open spec fn is_compat_jongseong_at(x: int) -> bool {
    compat_jongseong_rev(jongseong_to_code(x)) is Some
}

pub trait CompatJongseongInformation {
    fn is_compat_jongseong(&self) -> bool;

    fn has_compat_jongseong(&self) -> bool;
}

impl CompatJongseongInformation for u32 {
    fn is_compat_jongseong(&self) -> (r: bool)
        ensures
            r == is_compat_jongseong_at(*self as int),
    {
        CompatJongseong::try_from_u32(*self).is_ok()
    }

    fn has_compat_jongseong(&self) -> (r: bool)
        ensures
            r == is_compat_jongseong_at(jongseong_to_code(*self as int)),
    {
        JongseongCharacter::to_code(*self).is_compat_jongseong()
    }
}

impl CompatJongseongInformation for char {
    fn is_compat_jongseong(&self) -> (r: bool)
        ensures
            r == is_compat_jongseong_at((*self as u32) as int),
    {
        (*self as u32).is_compat_jongseong()
    }

    fn has_compat_jongseong(&self) -> (r: bool)
        ensures
            r == is_compat_jongseong_at(jongseong_to_code((*self as u32) as int)),
    {
        (*self as u32).has_compat_jongseong()
    }
}

impl CompatJongseong {
    /// The consonant this compatibility coda names.
    pub closed spec fn character_spec(&self) -> JongseongCharacter {
        self.0
    }

    /// The consonant itself.
    pub fn character(&self) -> (r: JongseongCharacter)
        ensures
            r == self.character_spec(),
    {
        self.0
    }

    /// A consonant as a compatibility-block coda.
    pub fn from_character(ch: &JongseongCharacter) -> (r: CompatJongseong)
        ensures
            r.character_spec() == *ch,
    {
        CompatJongseong(*ch)
    }

    /// The compatibility coda a code point names, or an error when it names
    /// none.
    pub fn try_from_u32(item: u32) -> (r: Result<CompatJongseong, ()>)
        ensures
            match r {
                Ok(c) => compat_jongseong_rev(jongseong_to_code(item as int)) == Some(
                    jongseong_index(c.character_spec()),
                ),
                Err(_) => compat_jongseong_rev(jongseong_to_code(item as int)) is None,
            },
    {
        let y = JongseongCharacter::to_code(item);
        match compat_jongseong_index_of(y) {
            Some(i) => match Jongseong::try_from_u32(compat_jongseong_of(i)) {
                Ok(j) => Ok(CompatJongseong(j.character())),
                Err(_) => Err(()),
            },
            None => Err(()),
        }
    }

    /// The compatibility coda a character names, or an error when it names
    /// none.
    pub fn try_from_char(item: char) -> (r: Result<CompatJongseong, ()>)
        ensures
            match r {
                Ok(c) => compat_jongseong_rev(jongseong_to_code((item as u32) as int)) == Some(
                    jongseong_index(c.character_spec()),
                ),
                Err(_) => compat_jongseong_rev(jongseong_to_code((item as u32) as int)) is None,
            },
    {
        CompatJongseong::try_from_u32(item as u32)
    }

    /// The compatibility-block code point of this coda.
    pub fn to_u32(&self) -> (r: u32)
        ensures
            r as int == compat_jongseong_code(jongseong_index(self.character_spec())),
    {
        compat_jongseong_of(self.0.to_index())
    }

    /// The compatibility-block character of this coda.
    pub fn to_char(&self) -> (r: char)
        ensures
            (r as u32) as int == compat_jongseong_code(jongseong_index(self.character_spec())),
    {
        char_from_code(self.to_u32())
    }
}

impl CharacterInformation for CompatJongseong {
    fn is_jaeum(&self) -> (r: bool)
        ensures
            r == true,
    {
        self.0.is_jaeum()
    }

    fn is_moeum(&self) -> (r: bool)
        ensures
            r == false,
    {
        self.0.is_moeum()
    }

    fn to_composable(&self) -> (r: u32)
        ensures
            r as int == jongseong_index(self.character_spec()),
    {
        self.0.to_composable()
    }
}

} // verus!
