//! Semitone implementation for musical intervals.
//!
//! A [`Semitone`] is the smallest interval of Western music, carried as a
//! plain `u8`.  Addition and subtraction wrap around the `u8` range; the
//! shift operators transpose by whole octaves and saturate at the ends of
//! the range.

use crate::note::Note;
use crate::octave::Octave;
use crate::pitch_class::PitchClass;
use vstd::prelude::*;

verus! {

/// The number of semitones in an octave.
pub const SEMITONES_IN_OCTAVE: u8 = 12;

/// A count of half-steps; twelve of them make an octave.
#[derive(Debug, Clone, Copy, PartialEq, Eq, Structural, PartialOrd, Ord, Hash)]
pub struct Semitone(pub u8);

/// The semitone `rhs` octaves above `s`, stopping at the top of the `u8`
/// range: both the octave count in semitones and the sum saturate.
pub open spec fn spec_octaves_up(s: u8, rhs: u8) -> u8 {
    let octaves = if rhs * 12 > 255 {
        255int
    } else {
        rhs * 12
    };
    if s + octaves > 255 {
        255u8
    } else {
        (s + octaves) as u8
    }
}

/// The semitone `rhs` octaves below `s`, stopping at zero.
pub open spec fn spec_octaves_down(s: u8, rhs: u8) -> u8 {
    let octaves = if rhs * 12 > 255 {
        255int
    } else {
        rhs * 12
    };
    if s - octaves < 0 {
        0u8
    } else {
        (s - octaves) as u8
    }
}

impl Semitone {
    /// Creates a new `Semitone` from a `u8` value.
    pub fn new(value: u8) -> (r: Self)
        ensures
            r.0 == value,
    {
        Self(value)
    }

    /// Returns the octave number of this semitone by MIDI convention:
    /// semitone 0 is C-1, semitone 12 is C0, semitone 60 is C4.
    pub fn octave(self) -> (r: Octave)
        ensures
            r.0 as int == self.0 as int / 12 - 1,
    {
        let octave_number: i16 = (self.0 as i16) / (SEMITONES_IN_OCTAVE as i16) - 1;
        Octave::new(octave_number as i8)
    }

    /// Returns the pitch class of this semitone: its chroma with the octave
    /// information dropped.
    pub fn pitch_class(self) -> (r: PitchClass)
        ensures
            r.0 == self.0 % 12,
    {
        PitchClass::new(self.0 % SEMITONES_IN_OCTAVE)
    }
}

impl From<u8> for Semitone {
    /// Creates a `Semitone` from a `u8` value.
    fn from(value: u8) -> Self {
        Self::new(value)
    }
}

impl vstd::std_specs::convert::FromSpecImpl<u8> for Semitone {
    open spec fn obeys_from_spec() -> bool {
        true
    }

    open spec fn from_spec(t: u8) -> Self {
        Semitone(t)
    }
}

impl From<Semitone> for u8 {
    /// Converts a `Semitone` into its `u8` value.
    fn from(val: Semitone) -> Self {
        val.0
    }
}

impl vstd::std_specs::convert::FromSpecImpl<Semitone> for u8 {
    open spec fn obeys_from_spec() -> bool {
        true
    }

    open spec fn from_spec(t: Semitone) -> Self {
        t.0
    }
}

impl core::ops::Add<u8> for Semitone {
    type Output = Semitone;

    /// Adds a number of semitones, wrapping at the `u8` boundary.
    fn add(self, rhs: u8) -> Semitone {
        Semitone(self.0.wrapping_add(rhs))
    }
}

impl vstd::std_specs::ops::AddSpecImpl<u8> for Semitone {
    open spec fn obeys_add_spec() -> bool {
        true
    }

    open spec fn add_req(self, rhs: u8) -> bool {
        true
    }

    open spec fn add_spec(self, rhs: u8) -> Semitone {
        Semitone(((self.0 + rhs) % 256) as u8)
    }
}

impl core::ops::Add<bool> for Semitone {
    type Output = Semitone;

    /// Adds one semitone for `true`, none for `false`, wrapping at the
    /// `u8` boundary.
    fn add(self, rhs: bool) -> Semitone {
        let step: u8 = if rhs {
            1
        } else {
            0
        };
        Semitone(self.0.wrapping_add(step))
    }
}

impl vstd::std_specs::ops::AddSpecImpl<bool> for Semitone {
    open spec fn obeys_add_spec() -> bool {
        true
    }

    open spec fn add_req(self, rhs: bool) -> bool {
        true
    }

    open spec fn add_spec(self, rhs: bool) -> Semitone {
        Semitone(((self.0 + if rhs {
            1int
        } else {
            0int
        }) % 256) as u8)
    }
}

impl core::ops::Add<Semitone> for Semitone {
    type Output = Semitone;

    /// Adds another semitone count, wrapping at the `u8` boundary.
    fn add(self, rhs: Semitone) -> Semitone {
        Semitone(self.0.wrapping_add(rhs.0))
    }
}

impl vstd::std_specs::ops::AddSpecImpl<Semitone> for Semitone {
    open spec fn obeys_add_spec() -> bool {
        true
    }

    open spec fn add_req(self, rhs: Semitone) -> bool {
        true
    }

    open spec fn add_spec(self, rhs: Semitone) -> Semitone {
        Semitone(((self.0 + rhs.0) % 256) as u8)
    }
}

impl core::ops::Add<Note> for Semitone {
    type Output = Semitone;

    /// Adds a note's semitone value, wrapping at the `u8` boundary.
    fn add(self, rhs: Note) -> Semitone {
        Semitone(self.0.wrapping_add(rhs.0))
    }
}

impl vstd::std_specs::ops::AddSpecImpl<Note> for Semitone {
    open spec fn obeys_add_spec() -> bool {
        true
    }

    open spec fn add_req(self, rhs: Note) -> bool {
        true
    }

    open spec fn add_spec(self, rhs: Note) -> Semitone {
        Semitone(((self.0 + rhs.0) % 256) as u8)
    }
}

impl core::ops::Sub<u8> for Semitone {
    type Output = Semitone;

    /// Subtracts a number of semitones, wrapping at the `u8` boundary.
    fn sub(self, rhs: u8) -> Semitone {
        Semitone(self.0.wrapping_sub(rhs))
    }
}

impl vstd::std_specs::ops::SubSpecImpl<u8> for Semitone {
    open spec fn obeys_sub_spec() -> bool {
        true
    }

    open spec fn sub_req(self, rhs: u8) -> bool {
        true
    }

    open spec fn sub_spec(self, rhs: u8) -> Semitone {
        Semitone(((self.0 - rhs) % 256) as u8)
    }
}

impl core::ops::Sub<bool> for Semitone {
    type Output = Semitone;

    /// Subtracts one semitone for `true`, none for `false`, wrapping at the
    /// `u8` boundary.
    fn sub(self, rhs: bool) -> Semitone {
        let step: u8 = if rhs {
            1
        } else {
            0
        };
        Semitone(self.0.wrapping_sub(step))
    }
}

impl vstd::std_specs::ops::SubSpecImpl<bool> for Semitone {
    open spec fn obeys_sub_spec() -> bool {
        true
    }

    open spec fn sub_req(self, rhs: bool) -> bool {
        true
    }

    open spec fn sub_spec(self, rhs: bool) -> Semitone {
        Semitone(((self.0 - if rhs {
            1int
        } else {
            0int
        }) % 256) as u8)
    }
}

impl core::ops::Sub<Semitone> for Semitone {
    type Output = Semitone;

    /// Subtracts another semitone count, wrapping at the `u8` boundary.
    fn sub(self, rhs: Semitone) -> Semitone {
        Semitone(self.0.wrapping_sub(rhs.0))
    }
}

impl vstd::std_specs::ops::SubSpecImpl<Semitone> for Semitone {
    open spec fn obeys_sub_spec() -> bool {
        true
    }

    open spec fn sub_req(self, rhs: Semitone) -> bool {
        true
    }

    open spec fn sub_spec(self, rhs: Semitone) -> Semitone {
        Semitone(((self.0 - rhs.0) % 256) as u8)
    }
}

impl core::ops::Sub<Note> for Semitone {
    type Output = Semitone;

    /// Subtracts a note's semitone value, wrapping at the `u8` boundary.
    fn sub(self, rhs: Note) -> Semitone {
        Semitone(self.0.wrapping_sub(rhs.0))
    }
}

impl vstd::std_specs::ops::SubSpecImpl<Note> for Semitone {
    open spec fn obeys_sub_spec() -> bool {
        true
    }

    open spec fn sub_req(self, rhs: Note) -> bool {
        true
    }

    open spec fn sub_spec(self, rhs: Note) -> Semitone {
        Semitone(((self.0 - rhs.0) % 256) as u8)
    }
}

impl core::ops::Shr<u8> for Semitone {
    type Output = Semitone;

    /// Shifts the semitone up by `rhs` octaves, saturating at the top of
    /// the `u8` range.
    fn shr(self, rhs: u8) -> Semitone {
        let octaves_in_semitones: u8 = if rhs <= 21 {
            rhs * SEMITONES_IN_OCTAVE
        } else {
            255
        };
        Semitone(self.0.saturating_add(octaves_in_semitones))
    }
}

impl vstd::std_specs::ops::ShrSpecImpl<u8> for Semitone {
    open spec fn obeys_shr_spec() -> bool {
        true
    }

    open spec fn shr_req(self, rhs: u8) -> bool {
        true
    }

    open spec fn shr_spec(self, rhs: u8) -> Semitone {
        Semitone(spec_octaves_up(self.0, rhs))
    }
}

impl core::ops::Shl<u8> for Semitone {
    type Output = Semitone;

    /// Shifts the semitone down by `rhs` octaves, saturating at zero.
    fn shl(self, rhs: u8) -> Semitone {
        let octaves_in_semitones: u8 = if rhs <= 21 {
            rhs * SEMITONES_IN_OCTAVE
        } else {
            255
        };
        Semitone(self.0.saturating_sub(octaves_in_semitones))
    }
}

impl vstd::std_specs::ops::ShlSpecImpl<u8> for Semitone {
    open spec fn obeys_shl_spec() -> bool {
        true
    }

    open spec fn shl_req(self, rhs: u8) -> bool {
        true
    }

    open spec fn shl_spec(self, rhs: u8) -> Semitone {
        Semitone(spec_octaves_down(self.0, rhs))
    }
}

} // verus!
