//! Note implementation for musical notes.
//!
//! A [`Note`] is a pitch carried as its semitone offset from C: C is 0,
//! C# is 1, D is 2, and so on up the whole `u8` range.  Transposition by
//! semitones and by octaves saturates at the ends of the range.

use crate::octave::Octave;
use crate::pitch_class::{spec_pitch_name, PitchClass};
use crate::semitone::{spec_octaves_down, spec_octaves_up, Semitone, SEMITONES_IN_OCTAVE};
use crate::text::{signed_decimal_string, spec_signed_decimal};
use vstd::prelude::*;
use vstd::string::StringExecFns;

verus! {

/// A musical note, as its semitone offset from C.
#[derive(Debug, Clone, Copy, PartialEq, Eq, Structural, PartialOrd, Ord, Hash)]
pub struct Note(pub u8);

/// The note `s` semitones above `n`, stopping at the top of the `u8` range.
pub open spec fn spec_note_up(n: u8, s: u8) -> u8 {
    if n + s > 255 {
        255u8
    } else {
        (n + s) as u8
    }
}

/// The note `s` semitones below `n`, stopping at zero.
pub open spec fn spec_note_down(n: u8, s: u8) -> u8 {
    if n - s < 0 {
        0u8
    } else {
        (n - s) as u8
    }
}

impl Note {
    /// Creates a new `Note` from a semitone value.
    pub fn new(semitone: u8) -> (r: Self)
        ensures
            r.0 == semitone,
    {
        Self(semitone)
    }

    /// Returns the semitone offset of this note.
    pub fn semitone(self) -> (r: u8)
        ensures
            r == self.0,
    {
        self.0
    }

    /// Returns the semitone offset of this note as a `Semitone`.
    pub fn as_semitone(self) -> (r: Semitone)
        ensures
            r.0 == self.0,
    {
        Semitone::new(self.0)
    }

    /// Returns the octave of this note using MIDI octave numbering:
    /// middle C (60) is in octave 4.
    pub fn octave(self) -> (r: Octave)
        ensures
            r.0 as int == self.0 as int / 12 - 1,
    {
        self.as_semitone().octave()
    }

    /// Returns the pitch class of this note: its chroma with the octave
    /// information dropped.
    pub fn pitch_class(self) -> (r: PitchClass)
        ensures
            r.0 == self.0 % 12,
    {
        self.as_semitone().pitch_class()
    }

    /// Renders the note as its pitch-class name followed by its octave
    /// number, such as "C4" or "C#-1".
    pub fn display_string(self) -> (r: String)
        ensures
            r@ == spec_pitch_name(self.0 % 12) + spec_signed_decimal(self.0 as int / 12 - 1),
    {
        let mut s = self.pitch_class().name().to_owned();
        let octave_digits = signed_decimal_string(self.octave().value() as i16);
        s.append(octave_digits.as_str());
        s
    }
}

impl From<u8> for Note {
    /// Creates a `Note` from a `u8` semitone value.
    fn from(semitone: u8) -> Self {
        Self::new(semitone)
    }
}

impl vstd::std_specs::convert::FromSpecImpl<u8> for Note {
    open spec fn obeys_from_spec() -> bool {
        true
    }

    open spec fn from_spec(t: u8) -> Self {
        Note(t)
    }
}

impl From<Semitone> for Note {
    /// Creates a `Note` from a `Semitone`.
    fn from(semitone: Semitone) -> Self {
        Self(semitone.0)
    }
}

impl vstd::std_specs::convert::FromSpecImpl<Semitone> for Note {
    open spec fn obeys_from_spec() -> bool {
        true
    }

    open spec fn from_spec(t: Semitone) -> Self {
        Note(t.0)
    }
}

impl From<Note> for u8 {
    /// Converts a `Note` into its semitone `u8` value.
    fn from(note: Note) -> Self {
        note.0
    }
}

impl vstd::std_specs::convert::FromSpecImpl<Note> for u8 {
    open spec fn obeys_from_spec() -> bool {
        true
    }

    open spec fn from_spec(t: Note) -> Self {
        t.0
    }
}

impl From<Note> for Semitone {
    /// Converts a `Note` into its `Semitone`.
    fn from(note: Note) -> Self {
        Semitone::new(note.0)
    }
}

impl vstd::std_specs::convert::FromSpecImpl<Note> for Semitone {
    open spec fn obeys_from_spec() -> bool {
        true
    }

    open spec fn from_spec(t: Note) -> Self {
        Semitone(t.0)
    }
}

impl core::ops::Add<Semitone> for Note {
    type Output = Note;

    /// Transposes the note upward by the given number of semitones,
    /// saturating at the top of the `u8` range.
    fn add(self, rhs: Semitone) -> Note {
        Note(self.0.saturating_add(rhs.0))
    }
}

impl vstd::std_specs::ops::AddSpecImpl<Semitone> for Note {
    open spec fn obeys_add_spec() -> bool {
        true
    }

    open spec fn add_req(self, rhs: Semitone) -> bool {
        true
    }

    open spec fn add_spec(self, rhs: Semitone) -> Note {
        Note(spec_note_up(self.0, rhs.0))
    }
}

impl core::ops::Sub<Semitone> for Note {
    type Output = Note;

    /// Transposes the note downward by the given number of semitones,
    /// saturating at zero.
    fn sub(self, rhs: Semitone) -> Note {
        Note(self.0.saturating_sub(rhs.0))
    }
}

impl vstd::std_specs::ops::SubSpecImpl<Semitone> for Note {
    open spec fn obeys_sub_spec() -> bool {
        true
    }

    open spec fn sub_req(self, rhs: Semitone) -> bool {
        true
    }

    open spec fn sub_spec(self, rhs: Semitone) -> Note {
        Note(spec_note_down(self.0, rhs.0))
    }
}

impl core::ops::Shr<u8> for Note {
    type Output = Note;

    /// Shifts the note up by `rhs` octaves, saturating at the top of the
    /// `u8` range.
    fn shr(self, rhs: u8) -> Note {
        let octave_shift: u8 = if rhs <= 21 {
            rhs * SEMITONES_IN_OCTAVE
        } else {
            255
        };
        Note(self.0.saturating_add(octave_shift))
    }
}

impl vstd::std_specs::ops::ShrSpecImpl<u8> for Note {
    open spec fn obeys_shr_spec() -> bool {
        true
    }

    open spec fn shr_req(self, rhs: u8) -> bool {
        true
    }

    open spec fn shr_spec(self, rhs: u8) -> Note {
        Note(spec_octaves_up(self.0, rhs))
    }
}

impl core::ops::Shl<u8> for Note {
    type Output = Note;

    /// Shifts the note down by `rhs` octaves, saturating at zero.
    fn shl(self, rhs: u8) -> Note {
        let octave_shift: u8 = if rhs <= 21 {
            rhs * SEMITONES_IN_OCTAVE
        } else {
            255
        };
        Note(self.0.saturating_sub(octave_shift))
    }
}

impl vstd::std_specs::ops::ShlSpecImpl<u8> for Note {
    open spec fn obeys_shl_spec() -> bool {
        true
    }

    open spec fn shl_req(self, rhs: u8) -> bool {
        true
    }

    open spec fn shl_spec(self, rhs: u8) -> Note {
        Note(spec_octaves_down(self.0, rhs))
    }
}

} // verus!
