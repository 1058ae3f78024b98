//! The vocabulary of haptic effects that playback is stated in.

use vstd::prelude::*;
use crate::enumerated::Enumerated;
use crate::text::same_text;

verus! {

/// Where on the body an effect is felt.
#[derive(Clone, Copy, Debug, PartialEq, Eq, Structural)]
pub enum BodyPart {
    ChestFront,
    ChestBack,
}

impl BodyPart {
    /// The number that stands for the body part on a device link.
    pub open spec fn code_of(self) -> u8 {
        match self {
            BodyPart::ChestFront => 0,
            BodyPart::ChestBack => 1,
        }
    }

    /// The number that stands for the body part on a device link.
    pub fn code(self) -> (r: u8)
        ensures
            r == self.code_of(),
    {
        match self {
            BodyPart::ChestFront => 0,
            BodyPart::ChestBack => 1,
        }
    }

    /// The body part that a number stands for.
    pub fn from_code(code: u8) -> (r: Option<BodyPart>)
        ensures
            match r {
                Some(part) => part.code_of() == code,
                None => forall|part: BodyPart| part.code_of() != code,
            },
    {
        if code == 0 {
            Some(BodyPart::ChestFront)
        } else if code == 1 {
            Some(BodyPart::ChestBack)
        } else {
            None
        }
    }
}

/// The kind of actuator an effect drives, and where.
#[derive(Clone, Copy, Debug, PartialEq, Eq, Structural)]
pub enum EffectPath {
    Haptic(BodyPart),
    Thermal(BodyPart),
}

impl EffectPath {
    /// The body part that the effect is felt on.
    pub fn body_part(self) -> (r: BodyPart)
        ensures
            r == match self {
                EffectPath::Haptic(part) => part,
                EffectPath::Thermal(part) => part,
            },
    {
        match self {
            EffectPath::Haptic(part) => part,
            EffectPath::Thermal(part) => part,
        }
    }
}

/// One sample of an effect on a grid of 256 by 256 places.
#[derive(Clone, Copy, Debug, PartialEq, Eq, Structural)]
pub struct EffectPoint {
    pub x: u8,
    pub y: u8,
    pub intensity: u8,
}

/// A set of points driven together for a time.
#[derive(Clone, Debug, PartialEq, Eq)]
pub struct EffectFrame {
    pub path: EffectPath,
    pub duration_millis: u32,
    pub points: Vec<EffectPoint>,
}

/// How intensity ramps over the time window of a feedback collection.
#[derive(Clone, Copy, Debug, PartialEq, Eq, Structural)]
pub enum EffectInterpolation {
    /// No ramp: the intensity holds over the whole window.
    NoFade,
    FadeIn,
    FadeOut,
    FadeInOut,
}

impl View for EffectInterpolation {
    type V = EffectInterpolation;

    open spec fn view(&self) -> EffectInterpolation {
        *self
    }
}

impl Enumerated for EffectInterpolation {
    open spec fn named(name: Seq<char>) -> Option<EffectInterpolation> {
        if name == "NONE"@ {
            Some(EffectInterpolation::NoFade)
        } else if name == "FADE_IN"@ {
            Some(EffectInterpolation::FadeIn)
        } else if name == "FADE_OUT"@ {
            Some(EffectInterpolation::FadeOut)
        } else if name == "FADE_IN_OUT"@ {
            Some(EffectInterpolation::FadeInOut)
        } else {
            None
        }
    }

    open spec fn name_of(self) -> Seq<char> {
        match self {
            EffectInterpolation::NoFade => "NONE"@,
            EffectInterpolation::FadeIn => "FADE_IN"@,
            EffectInterpolation::FadeOut => "FADE_OUT"@,
            EffectInterpolation::FadeInOut => "FADE_IN_OUT"@,
        }
    }

    fn parse(name: &str) -> (r: Option<EffectInterpolation>) {
        if same_text(name, "NONE") {
            Some(EffectInterpolation::NoFade)
        } else if same_text(name, "FADE_IN") {
            Some(EffectInterpolation::FadeIn)
        } else if same_text(name, "FADE_OUT") {
            Some(EffectInterpolation::FadeOut)
        } else if same_text(name, "FADE_IN_OUT") {
            Some(EffectInterpolation::FadeInOut)
        } else {
            None
        }
    }

    fn wire_name(self) -> (r: &'static str) {
        match self {
            EffectInterpolation::NoFade => "NONE",
            EffectInterpolation::FadeIn => "FADE_IN",
            EffectInterpolation::FadeOut => "FADE_OUT",
            EffectInterpolation::FadeInOut => "FADE_IN_OUT",
        }
    }

    proof fn lemma_name_round_trip(self) {
        reveal_strlit("NONE");
        reveal_strlit("FADE_IN");
        reveal_strlit("FADE_OUT");
        reveal_strlit("FADE_IN_OUT");
        assert("NONE"@.len() == 4);
        assert("FADE_IN"@.len() == 7);
        assert("FADE_OUT"@.len() == 8);
        assert("FADE_IN_OUT"@.len() == 11);
    }
}

} // verus!
