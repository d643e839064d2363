//! Pitch class implementation for the 12 chromatic pitch classes.
//!
//! A [`PitchClass`] is a pitch with the octave information dropped: one of
//! the twelve positions C, C#, D, ..., B, stored as a value 0 to 11.

use vstd::prelude::*;

verus! {

/// One of the 12 chromatic pitch classes, C through B, as a value 0 to 11.
#[derive(Debug, Clone, Copy, PartialEq, Eq, Structural, PartialOrd, Ord, Hash)]
pub struct PitchClass(pub u8);

/// The note name of a pitch class value, in sharp notation; values 12 and
/// above fall back to "C", which no constructor of this type produces.
pub open spec fn spec_pitch_name(value: u8) -> Seq<char> {
    if value == 0 {
        "C"@
    } else if value == 1 {
        "C#"@
    } else if value == 2 {
        "D"@
    } else if value == 3 {
        "D#"@
    } else if value == 4 {
        "E"@
    } else if value == 5 {
        "F"@
    } else if value == 6 {
        "F#"@
    } else if value == 7 {
        "G"@
    } else if value == 8 {
        "G#"@
    } else if value == 9 {
        "A"@
    } else if value == 10 {
        "A#"@
    } else if value == 11 {
        "B"@
    } else {
        "C"@
    }
}

impl PitchClass {
    /// The number of pitch classes in the chromatic scale.
    pub const COUNT: u8 = 12;

    /// Creates a new `PitchClass`; the value is taken modulo 12, so every
    /// `u8` wraps into the valid range.
    pub fn new(value: u8) -> (r: Self)
        ensures
            r.0 == value % 12,
    {
        Self(value % Self::COUNT)
    }

    /// Returns the raw value of this pitch class (0-11 when built through
    /// the constructors of this crate).
    pub fn value(self) -> (r: u8)
        ensures
            r == self.0,
    {
        self.0
    }

    /// Returns the note name of this pitch class using sharp notation.
    pub fn name(self) -> (r: &'static str)
        ensures
            r@ == spec_pitch_name(self.0),
    {
        match self.0 {
            0 => "C",
            1 => "C#",
            2 => "D",
            3 => "D#",
            4 => "E",
            5 => "F",
            6 => "F#",
            7 => "G",
            8 => "G#",
            9 => "A",
            10 => "A#",
            11 => "B",
            _ => "C",
        }
    }

    /// Returns all 12 pitch classes, ascending from C to B.
    pub fn all() -> (r: Vec<PitchClass>)
        ensures
            r@.len() == 12,
            forall|i: int| 0 <= i < 12 ==> r@[i].0 == i,
    {
        let mut result: Vec<PitchClass> = Vec::new();
        for value in 0u8..12u8
            invariant
                result@.len() == value,
                forall|i: int| 0 <= i < value ==> result@[i].0 == i,
        {
            result.push(PitchClass::new(value));
        }
        result
    }
}

impl From<u8> for PitchClass {
    /// Converts a `u8` to a `PitchClass`, wrapping around the 12 pitch
    /// classes.
    fn from(value: u8) -> Self {
        Self::new(value)
    }
}

impl vstd::std_specs::convert::FromSpecImpl<u8> for PitchClass {
    open spec fn obeys_from_spec() -> bool {
        true
    }

    open spec fn from_spec(t: u8) -> Self {
        PitchClass((t % 12) as u8)
    }
}

impl From<PitchClass> for u8 {
    /// Converts a `PitchClass` to its underlying `u8` value.
    fn from(pitch_class: PitchClass) -> Self {
        pitch_class.0
    }
}

impl vstd::std_specs::convert::FromSpecImpl<PitchClass> for u8 {
    open spec fn obeys_from_spec() -> bool {
        true
    }

    open spec fn from_spec(t: PitchClass) -> Self {
        t.0
    }
}

} // verus!
