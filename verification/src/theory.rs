//! Music theory primitives and concepts.
//!
//! This module carries the enum-and-trait based scale builder: a chromatic
//! [`Note`] enum, interval and degree values, named [`ScaleType`] patterns,
//! and a generic [`Scale`] over any [`ChromaticNote`] implementation.

use crate::text::{decimal_string, spec_decimal};
use vstd::prelude::*;
use vstd::string::StringExecFns;

verus! {

/// The semitone distance from pitch class `a` up to pitch class `b`,
/// wrapped into one octave.
pub open spec fn spec_interval_between(a: u8, b: u8) -> int {
    (b + 12 - a) % 12
}

/// The 1-based major-scale degree that sits at the given interval from the
/// tonic, if any: the major scale covers intervals 0, 2, 4, 5, 7, 9, 11.
pub open spec fn spec_major_degree(interval: int) -> Option<u8> {
    if interval == 0 {
        Some(1u8)
    } else if interval == 2 {
        Some(2u8)
    } else if interval == 4 {
        Some(3u8)
    } else if interval == 5 {
        Some(4u8)
    } else if interval == 7 {
        Some(5u8)
    } else if interval == 9 {
        Some(6u8)
    } else if interval == 11 {
        Some(7u8)
    } else {
        None
    }
}

/// The 1-based natural-minor degree that sits at the given interval from
/// the tonic, if any: the natural minor scale covers intervals 0, 2, 3, 5,
/// 7, 8, 10.
pub open spec fn spec_minor_degree(interval: int) -> Option<u8> {
    if interval == 0 {
        Some(1u8)
    } else if interval == 2 {
        Some(2u8)
    } else if interval == 3 {
        Some(3u8)
    } else if interval == 5 {
        Some(4u8)
    } else if interval == 7 {
        Some(5u8)
    } else if interval == 8 {
        Some(6u8)
    } else if interval == 10 {
        Some(7u8)
    } else {
        None
    }
}

/// Core functionality for chromatic notes.
pub trait ChromaticNote: Sized + Copy {
    /// The semitone value of this note.
    spec fn spec_semitone(&self) -> u8;

    /// The note a semitone value creates, if any.
    spec fn spec_from_semitone(semitone: u8) -> Option<Self>;

    /// The name of this note.
    spec fn spec_name(&self) -> Seq<char>;

    /// Whether this note is an accidental.
    spec fn spec_is_accidental(&self) -> bool;

    /// Get the semitone value (0-11) within an octave.
    fn semitone(&self) -> (r: u8)
        ensures
            r == self.spec_semitone(),
            r < 12,
    ;

    /// Create from a semitone value.
    fn from_semitone(semitone: u8) -> (r: Option<Self>)
        ensures
            r == Self::spec_from_semitone(semitone),
    ;

    /// Get the note name as a string.
    fn name(&self) -> (r: &'static str)
        ensures
            r@ == self.spec_name(),
    ;

    /// Check if this is a sharp/flat note (accidental).
    fn is_accidental(&self) -> (r: bool)
        ensures
            r == self.spec_is_accidental(),
    ;
}

/// Musical operations for transposing notes.
pub trait TransposableNote: ChromaticNote {
    /// Transpose by a number of semitones, in either direction, wrapping
    /// around the octave.
    fn transpose(self, semitones: i8) -> (r: Self)
        ensures
            r.spec_semitone() as int == (self.spec_semitone() + semitones) % 12,
    ;

    /// Get the interval from this note up to another note, in semitones.
    fn interval_to(&self, other: &Self) -> (r: u8)
        ensures
            r as int == spec_interval_between(self.spec_semitone(), other.spec_semitone()),
    ;

    /// Apply an interval upward to get a new note.
    fn add_interval(&self, interval: Interval) -> (r: Self)
        ensures
            r.spec_semitone() as int == (self.spec_semitone() + spec_interval_semitones(interval))
                % 12,
    ;
}

/// Enharmonic equivalent handling.
pub trait EnharmonicNote: ChromaticNote {
    /// The spellings this note can carry.
    spec fn spec_enharmonic_equivalents(&self) -> Seq<Seq<char>>;

    /// The flat spelling of this note, if it is an accidental.
    spec fn spec_flat_name(&self) -> Option<Seq<char>>;

    /// The sharp spelling of this note, if it is an accidental.
    spec fn spec_sharp_name(&self) -> Option<Seq<char>>;

    /// The preferred spelling in a key with the given number of sharps
    /// (negative for flat keys).
    spec fn spec_spelling_in_key(&self, key_signature_sharps: i8) -> Seq<char>;

    /// Get all enharmonic equivalents (e.g., C# and Db).
    fn enharmonic_equivalents(&self) -> (r: Vec<String>)
        ensures
            r@.map_values(|s: String| s@) == self.spec_enharmonic_equivalents(),
    ;

    /// Get the flat equivalent name if applicable.
    fn flat_name(&self) -> (r: Option<&'static str>)
        ensures
            (match r {
                Some(s) => self.spec_flat_name() == Some(s@),
                None => self.spec_flat_name() is None,
            }),
    ;

    /// Get the sharp equivalent name if applicable.
    fn sharp_name(&self) -> (r: Option<&'static str>)
        ensures
            (match r {
                Some(s) => self.spec_sharp_name() == Some(s@),
                None => self.spec_sharp_name() is None,
            }),
    ;

    /// Get the most common spelling in a given key context.
    fn spelling_in_key(&self, key_signature_sharps: i8) -> (r: String)
        ensures
            r@ == self.spec_spelling_in_key(key_signature_sharps),
    ;
}

/// Scale degree relationships.
pub trait ScaleDegree: ChromaticNote {
    /// Get the scale degree in a major scale (1-7, or None if not in
    /// scale).
    fn degree_in_major(&self, tonic: &Self) -> (r: Option<u8>)
        ensures
            r == spec_major_degree(
                spec_interval_between(tonic.spec_semitone(), self.spec_semitone()),
            ),
    ;

    /// Get the scale degree in a natural minor scale.
    fn degree_in_minor(&self, tonic: &Self) -> (r: Option<u8>)
        ensures
            r == spec_minor_degree(
                spec_interval_between(tonic.spec_semitone(), self.spec_semitone()),
            ),
    ;

    /// Check if this note is in a major scale.
    fn is_in_major_scale(&self, tonic: &Self) -> (r: bool)
        ensures
            r == (spec_major_degree(
                spec_interval_between(tonic.spec_semitone(), self.spec_semitone()),
            ) is Some),
    ;

    /// Check if this note is in a natural minor scale.
    fn is_in_minor_scale(&self, tonic: &Self) -> (r: bool)
        ensures
            r == (spec_minor_degree(
                spec_interval_between(tonic.spec_semitone(), self.spec_semitone()),
            ) is Some),
    ;
}

/// Circle of fifths relationships.  Walking the circle adds a perfect
/// fifth (7 semitones); position `p` on the circle holds the pitch class
/// `7 * p` modulo 12, so the position of a note is `7 * semitone` modulo
/// 12 (7 is its own inverse modulo 12).
pub trait CircleOfFifths: ChromaticNote {
    /// Get the next note in the circle of fifths.
    fn next_fifth(&self) -> (r: Self)
        ensures
            r.spec_semitone() as int == (self.spec_semitone() + 7) % 12,
    ;

    /// Get the previous note in the circle of fifths.
    fn prev_fifth(&self) -> (r: Self)
        ensures
            r.spec_semitone() as int == (self.spec_semitone() + 5) % 12,
    ;

    /// Get position in circle of fifths (0-11, C=0).
    fn circle_position(&self) -> (r: u8)
        ensures
            r as int == (self.spec_semitone() * 7) % 12,
    ;

    /// Get the relative minor/major: a minor third down.
    fn relative_key(&self) -> (r: Self)
        ensures
            r.spec_semitone() as int == (self.spec_semitone() + 9) % 12,
    ;
}

/// The notes a scale spells out: for each interval in order, the note at
/// that distance above the root, keeping only the semitone values the note
/// type can represent.
pub open spec fn spec_scale_notes<T: ChromaticNote>(root: u8, intervals: Seq<u8>) -> Seq<T>
    decreases intervals.len(),
{
    if intervals.len() == 0 {
        Seq::empty()
    } else {
        spec_scale_notes(root, intervals.drop_last()) + match T::spec_from_semitone(
            (((root + intervals.last()) % 12) as u8),
        ) {
            Some(n) => seq![n],
            None => Seq::empty(),
        }
    }
}

/// Option values with the absent entries dropped, in order.
pub open spec fn spec_present<T>(entries: Seq<Option<T>>) -> Seq<T>
    decreases entries.len(),
{
    if entries.len() == 0 {
        Seq::empty()
    } else {
        spec_present(entries.drop_last()) + match entries.last() {
            Some(v) => seq![v],
            None => Seq::empty(),
        }
    }
}

/// Musical scale operations and note enumeration.
pub trait MusicalScale<T> where T: ChromaticNote + Copy, Self: Sized {
    /// The root note of the scale.
    spec fn spec_root(&self) -> T;

    /// The interval pattern of the scale.
    spec fn spec_intervals(&self) -> Seq<u8>;

    /// The scale that starts over at the given 1-based degree, if any.
    spec fn spec_mode(&self, degree: u8) -> Option<Self>;

    /// Get the root note of the scale.
    fn root(&self) -> (r: T)
        ensures
            r == self.spec_root(),
    ;

    /// Get all notes in the scale as a vector.
    fn notes(&self) -> (r: Vec<T>)
        ensures
            r@ == spec_scale_notes::<T>(self.spec_root().spec_semitone(), self.spec_intervals()),
    ;

    /// Get the degree (1-based) of a note in this scale: the position of
    /// its interval above the root in the interval pattern, or None when
    /// the note is not in the scale.
    fn degree_of(&self, note: &T) -> (r: Option<u8>)
        ensures
            (match r {
                Some(k) => {
                    &&& 1 <= k
                    &&& k as int <= self.spec_intervals().len()
                    &&& self.spec_intervals()[k - 1] as int == spec_interval_between(
                        self.spec_root().spec_semitone(),
                        note.spec_semitone(),
                    )
                    &&& forall|j: int|
                        0 <= j < k - 1 ==> self.spec_intervals()[j] as int != spec_interval_between(
                            self.spec_root().spec_semitone(),
                            note.spec_semitone(),
                        )
                },
                None => forall|j: int|
                    0 <= j < self.spec_intervals().len() ==> self.spec_intervals()[j] as int
                        != spec_interval_between(
                        self.spec_root().spec_semitone(),
                        note.spec_semitone(),
                    ),
            }),
    ;

    /// Get the note at a specific degree (1-based); None when the degree
    /// is out of range.
    fn note_at_degree(&self, degree: u8) -> (r: Option<T>)
        ensures
            r == (if 1 <= degree && degree as int <= self.spec_intervals().len() {
                T::spec_from_semitone(
                    (((self.spec_root().spec_semitone() + self.spec_intervals()[degree - 1]) % 12)
                        as u8),
                )
            } else {
                None
            }),
    ;

    /// Check if a note belongs to this scale.
    fn contains(&self, note: &T) -> (r: bool)
        ensures
            r == exists|j: int|
                0 <= j < self.spec_intervals().len() && self.spec_intervals()[j] as int
                    == spec_interval_between(
                    self.spec_root().spec_semitone(),
                    note.spec_semitone(),
                ),
    ;

    /// Get the number of notes in the scale.
    fn len(&self) -> (r: usize)
        ensures
            r == spec_scale_notes::<T>(
                self.spec_root().spec_semitone(),
                self.spec_intervals(),
            ).len(),
    ;

    /// Check if the scale is empty (false for every valid scale).
    fn is_empty(&self) -> (r: bool)
        ensures
            r == (spec_scale_notes::<T>(
                self.spec_root().spec_semitone(),
                self.spec_intervals(),
            ).len() == 0),
    ;

    /// Get the scale pattern as semitone intervals from the root.
    fn intervals(&self) -> (r: Vec<u8>)
        ensures
            r@ == self.spec_intervals(),
    ;

    /// Create a scale mode starting from a different degree: a new scale
    /// rooted at that degree's note.
    fn mode(&self, degree: u8) -> (r: Option<Self>)
        ensures
            r == self.spec_mode(degree),
    ;
}

/// Common scale types with predefined interval patterns.
#[derive(Debug, Clone, Copy, PartialEq, Eq, Structural)]
pub enum ScaleType {
    Major,
    NaturalMinor,
    HarmonicMinor,
    MelodicMinor,
    Dorian,
    Phrygian,
    Lydian,
    Mixolydian,
    Locrian,
    ChromaticScale,
    PentatonicMajor,
    PentatonicMinor,
    BluesScale,
    WholeTone,
}

/// The interval pattern (semitones from the root) of each scale type.
pub open spec fn spec_scale_type_intervals(t: ScaleType) -> Seq<u8> {
    match t {
        ScaleType::Major => seq![0u8, 2, 4, 5, 7, 9, 11],
        ScaleType::NaturalMinor => seq![0u8, 2, 3, 5, 7, 8, 10],
        ScaleType::HarmonicMinor => seq![0u8, 2, 3, 5, 7, 8, 11],
        ScaleType::MelodicMinor => seq![0u8, 2, 3, 5, 7, 9, 11],
        ScaleType::Dorian => seq![0u8, 2, 3, 5, 7, 9, 10],
        ScaleType::Phrygian => seq![0u8, 1, 3, 5, 7, 8, 10],
        ScaleType::Lydian => seq![0u8, 2, 4, 6, 7, 9, 11],
        ScaleType::Mixolydian => seq![0u8, 2, 4, 5, 7, 9, 10],
        ScaleType::Locrian => seq![0u8, 1, 3, 5, 6, 8, 10],
        ScaleType::ChromaticScale => seq![0u8, 1, 2, 3, 4, 5, 6, 7, 8, 9, 10, 11],
        ScaleType::PentatonicMajor => seq![0u8, 2, 4, 7, 9],
        ScaleType::PentatonicMinor => seq![0u8, 3, 5, 7, 10],
        ScaleType::BluesScale => seq![0u8, 3, 5, 6, 7, 10],
        ScaleType::WholeTone => seq![0u8, 2, 4, 6, 8, 10],
    }
}

/// The display name of each scale type.
pub open spec fn spec_scale_type_name(t: ScaleType) -> Seq<char> {
    match t {
        ScaleType::Major => "Major"@,
        ScaleType::NaturalMinor => "Natural Minor"@,
        ScaleType::HarmonicMinor => "Harmonic Minor"@,
        ScaleType::MelodicMinor => "Melodic Minor"@,
        ScaleType::Dorian => "Dorian"@,
        ScaleType::Phrygian => "Phrygian"@,
        ScaleType::Lydian => "Lydian"@,
        ScaleType::Mixolydian => "Mixolydian"@,
        ScaleType::Locrian => "Locrian"@,
        ScaleType::ChromaticScale => "Chromatic"@,
        ScaleType::PentatonicMajor => "Pentatonic Major"@,
        ScaleType::PentatonicMinor => "Pentatonic Minor"@,
        ScaleType::BluesScale => "Blues"@,
        ScaleType::WholeTone => "Whole Tone"@,
    }
}

impl ScaleType {
    /// Get the interval pattern (semitones from root) for this scale type.
    pub fn intervals(&self) -> (r: Vec<u8>)
        ensures
            r@ == spec_scale_type_intervals(*self),
            r@.len() <= 12,
            forall|j: int| 0 <= j < r@.len() ==> r@[j] < 12,
    {
        let r: Vec<u8> = match self {
            ScaleType::Major => vec![0, 2, 4, 5, 7, 9, 11],
            ScaleType::NaturalMinor => vec![0, 2, 3, 5, 7, 8, 10],
            ScaleType::HarmonicMinor => vec![0, 2, 3, 5, 7, 8, 11],
            ScaleType::MelodicMinor => vec![0, 2, 3, 5, 7, 9, 11],
            ScaleType::Dorian => vec![0, 2, 3, 5, 7, 9, 10],
            ScaleType::Phrygian => vec![0, 1, 3, 5, 7, 8, 10],
            ScaleType::Lydian => vec![0, 2, 4, 6, 7, 9, 11],
            ScaleType::Mixolydian => vec![0, 2, 4, 5, 7, 9, 10],
            ScaleType::Locrian => vec![0, 1, 3, 5, 6, 8, 10],
            ScaleType::ChromaticScale => vec![0, 1, 2, 3, 4, 5, 6, 7, 8, 9, 10, 11],
            ScaleType::PentatonicMajor => vec![0, 2, 4, 7, 9],
            ScaleType::PentatonicMinor => vec![0, 3, 5, 7, 10],
            ScaleType::BluesScale => vec![0, 3, 5, 6, 7, 10],
            ScaleType::WholeTone => vec![0, 2, 4, 6, 8, 10],
        };
        proof {
            assert(r@ =~= spec_scale_type_intervals(*self));
        }
        r
    }

    /// Get the name of the scale type.
    pub fn name(&self) -> (r: &'static str)
        ensures
            r@ == spec_scale_type_name(*self),
    {
        match self {
            ScaleType::Major => "Major",
            ScaleType::NaturalMinor => "Natural Minor",
            ScaleType::HarmonicMinor => "Harmonic Minor",
            ScaleType::MelodicMinor => "Melodic Minor",
            ScaleType::Dorian => "Dorian",
            ScaleType::Phrygian => "Phrygian",
            ScaleType::Lydian => "Lydian",
            ScaleType::Mixolydian => "Mixolydian",
            ScaleType::Locrian => "Locrian",
            ScaleType::ChromaticScale => "Chromatic",
            ScaleType::PentatonicMajor => "Pentatonic Major",
            ScaleType::PentatonicMinor => "Pentatonic Minor",
            ScaleType::BluesScale => "Blues",
            ScaleType::WholeTone => "Whole Tone",
        }
    }
}

/// A scale degree with a possible alteration (flat/sharp).
#[derive(Debug, Clone, Copy, PartialEq, Eq, Structural, Hash)]
pub enum Degree {
    /// Natural degree (1, 2, 3, 4, 5, 6, 7)
    Natural(u8),
    /// Flat degree (♭2, ♭3, ♭5, ♭6, ♭7)
    Flat(u8),
    /// Sharp degree (♯1, ♯2, ♯4, ♯5, ♯6)
    Sharp(u8),
}

/// The degree number under the tag.
pub open spec fn spec_degree_base(d: Degree) -> u8 {
    match d {
        Degree::Natural(n) => n,
        Degree::Flat(n) => n,
        Degree::Sharp(n) => n,
    }
}

/// The alteration of the tag: 0 natural, -1 flat, +1 sharp.
pub open spec fn spec_degree_alteration(d: Degree) -> int {
    match d {
        Degree::Natural(_) => 0,
        Degree::Flat(_) => -1,
        Degree::Sharp(_) => 1,
    }
}

/// The major-scale semitone of a basic degree 1 to 7, if in range.
pub open spec fn spec_degree_major_semitone(base: u8) -> Option<u8> {
    if base == 1 {
        Some(0u8)
    } else if base == 2 {
        Some(2u8)
    } else if base == 3 {
        Some(4u8)
    } else if base == 4 {
        Some(5u8)
    } else if base == 5 {
        Some(7u8)
    } else if base == 6 {
        Some(9u8)
    } else if base == 7 {
        Some(11u8)
    } else {
        None
    }
}

/// The semitone offset of a degree: its major-scale semitone plus the
/// alteration, wrapped as an unsigned byte and then reduced modulo 12 (so
/// a flattened root comes out as 3, via the byte 255).
pub open spec fn spec_degree_offset(d: Degree) -> Option<u8> {
    match spec_degree_major_semitone(spec_degree_base(d)) {
        Some(base) => Some(
            ((((base + spec_degree_alteration(d)) % 256) % 12) as u8),
        ),
        None => None,
    }
}

impl Degree {
    /// Create a natural degree.
    pub fn natural(degree: u8) -> (r: Self)
        ensures
            r == Degree::Natural(degree),
    {
        Degree::Natural(degree)
    }

    /// Create a flat degree.
    pub fn flat(degree: u8) -> (r: Self)
        ensures
            r == Degree::Flat(degree),
    {
        Degree::Flat(degree)
    }

    /// Create a sharp degree.
    pub fn sharp(degree: u8) -> (r: Self)
        ensures
            r == Degree::Sharp(degree),
    {
        Degree::Sharp(degree)
    }

    /// Get the base degree number (1-7).
    pub fn base_degree(&self) -> (r: u8)
        ensures
            r == spec_degree_base(*self),
    {
        match self {
            Degree::Natural(d) => *d,
            Degree::Flat(d) => *d,
            Degree::Sharp(d) => *d,
        }
    }

    /// Get the alteration (-1 for flat, 0 for natural, +1 for sharp).
    pub fn alteration(&self) -> (r: i8)
        ensures
            r as int == spec_degree_alteration(*self),
    {
        match self {
            Degree::Natural(_) => 0,
            Degree::Flat(_) => -1,
            Degree::Sharp(_) => 1,
        }
    }

    /// Convert the degree to its semitone offset from the root in a
    /// major-scale context; degrees outside 1 to 7 yield no result.
    pub fn to_semitone_offset(&self) -> (r: Option<u8>)
        ensures
            r == spec_degree_offset(*self),
    {
        let base_semitones: u8 = match self.base_degree() {
            1 => 0,
            2 => 2,
            3 => 4,
            4 => 5,
            5 => 7,
            6 => 9,
            7 => 11,
            _ => {
                return None;
            },
        };
        let signed: i16 = base_semitones as i16 + self.alteration() as i16;
        let adjusted: u8 = ((signed + 256) % 256) as u8;
        Some(adjusted % 12)
    }

    /// Get the symbol representation of the degree, such as "1", "♭3" or
    /// "♯5".
    pub fn symbol(&self) -> (r: String)
        ensures
            r@ == (match *self {
                Degree::Natural(d) => spec_decimal(d as int),
                Degree::Flat(d) => "♭"@ + spec_decimal(d as int),
                Degree::Sharp(d) => "♯"@ + spec_decimal(d as int),
            }),
    {
        match self {
            Degree::Natural(d) => decimal_string(*d as u16),
            Degree::Flat(d) => {
                let mut s = "♭".to_owned();
                let digits = decimal_string(*d as u16);
                s.append(digits.as_str());
                s
            },
            Degree::Sharp(d) => {
                let mut s = "♯".to_owned();
                let digits = decimal_string(*d as u16);
                s.append(digits.as_str());
                s
            },
        }
    }

    /// Get the name representation of the degree, such as "7", "flat 7"
    /// or "sharp 4".
    pub fn name(&self) -> (r: String)
        ensures
            r@ == (match *self {
                Degree::Natural(d) => spec_decimal(d as int),
                Degree::Flat(d) => "flat "@ + spec_decimal(d as int),
                Degree::Sharp(d) => "sharp "@ + spec_decimal(d as int),
            }),
    {
        match self {
            Degree::Natural(d) => decimal_string(*d as u16),
            Degree::Flat(d) => {
                let mut s = "flat ".to_owned();
                let digits = decimal_string(*d as u16);
                s.append(digits.as_str());
                s
            },
            Degree::Sharp(d) => {
                let mut s = "sharp ".to_owned();
                let digits = decimal_string(*d as u16);
                s.append(digits.as_str());
                s
            },
        }
    }
}

/// Trait for working with collections of degrees.
pub trait DegreeCollection<T> where T: ChromaticNote + Copy {
    /// The note a degree picks out of this scale, if any.
    spec fn spec_note_for_degree(&self, degree: Degree) -> Option<T>;

    /// Get notes for a collection of degrees, one entry per degree.
    fn notes_for_degrees(&self, degrees: &[Degree]) -> (r: Vec<Option<T>>)
        ensures
            r@ == degrees@.map_values(|d: Degree| self.spec_note_for_degree(d)),
    ;

    /// Get notes for degrees, filtering out invalid degrees.
    fn valid_notes_for_degrees(&self, degrees: &[Degree]) -> (r: Vec<T>)
        ensures
            r@ == spec_present(degrees@.map_values(|d: Degree| self.spec_note_for_degree(d))),
    ;

    /// Check if a degree is valid for this scale.
    fn is_valid_degree(&self, degree: &Degree) -> (r: bool)
        ensures
            r == (self.spec_note_for_degree(*degree) is Some),
    ;

    /// Get the note for a specific degree.
    fn note_for_degree(&self, degree: &Degree) -> (r: Option<T>)
        ensures
            r == self.spec_note_for_degree(*degree),
    ;
}

/// A concrete musical scale: a root note and a scale type.
#[derive(Debug, Clone, PartialEq, Eq)]
pub struct Scale<T> where T: ChromaticNote + Copy {
    root: T,
    scale_type: ScaleType,
}

impl<T> Scale<T> where T: ChromaticNote + Copy {
    /// The scale type, as an abstract value.
    pub closed spec fn spec_scale_type(&self) -> ScaleType {
        self.scale_type
    }

    /// Create a new scale with the given root note and scale type.
    pub fn new(root: T, scale_type: ScaleType) -> (r: Self)
        ensures
            r.spec_root() == root,
            r.spec_scale_type() == scale_type,
    {
        Self { root, scale_type }
    }

    /// Get the scale type.
    pub fn scale_type(&self) -> (r: ScaleType)
        ensures
            r == self.spec_scale_type(),
    {
        self.scale_type
    }

    /// Get the name of the scale (e.g., "C Major", "A Natural Minor").
    pub fn name(&self) -> (r: String)
        ensures
            r@ == self.spec_root().spec_name() + " "@ + spec_scale_type_name(
                self.spec_scale_type(),
            ),
    {
        let mut s = self.root.name().to_owned();
        s.append(" ");
        s.append(self.scale_type.name());
        s
    }
}

impl<T> MusicalScale<T> for Scale<T> where T: ChromaticNote + Copy {
    closed spec fn spec_root(&self) -> T {
        self.root
    }

    open spec fn spec_intervals(&self) -> Seq<u8> {
        spec_scale_type_intervals(self.spec_scale_type())
    }

    closed spec fn spec_mode(&self, degree: u8) -> Option<Scale<T>> {
        if 1 <= degree && degree as int <= self.spec_intervals().len() {
            match T::spec_from_semitone(
                (((self.spec_root().spec_semitone() + self.spec_intervals()[degree - 1]) % 12)
                    as u8),
            ) {
                Some(new_root) => Some(Scale { root: new_root, scale_type: self.spec_scale_type() }),
                None => None,
            }
        } else {
            None
        }
    }

    fn root(&self) -> (r: T) {
        self.root
    }

    fn notes(&self) -> (r: Vec<T>) {
        let intervals = self.scale_type.intervals();
        let root_semitone = self.root.semitone();
        let ghost all = intervals@;
        let mut result: Vec<T> = Vec::new();
        for i in 0..intervals.len()
            invariant
                all == intervals@,
                all == self.spec_intervals(),
                root_semitone == self.spec_root().spec_semitone(),
                root_semitone < 12,
                result@ == spec_scale_notes::<T>(root_semitone, all.take(i as int)),
        {
            let semitone: u8 = (root_semitone + intervals[i]) % 12;
            if let Some(note) = T::from_semitone(semitone) {
                result.push(note);
            }
            proof {
                assert(all.take(i + 1).drop_last() =~= all.take(i as int));
                assert(all.take(i + 1).last() == all[i as int]);
                assert(result@ =~= spec_scale_notes::<T>(root_semitone, all.take(i + 1)));
            }
        }
        proof {
            assert(all.take(all.len() as int) =~= all);
        }
        result
    }

    fn degree_of(&self, note: &T) -> (r: Option<u8>) {
        let note_semitone = note.semitone();
        let root_semitone = self.root.semitone();
        let interval: u8 = (note_semitone + 12 - root_semitone) % 12;
        let intervals = self.scale_type.intervals();
        for i in 0..intervals.len()
            invariant
                intervals@ == self.spec_intervals(),
                interval as int == spec_interval_between(
                    self.spec_root().spec_semitone(),
                    note.spec_semitone(),
                ),
                forall|j: int| 0 <= j < i ==> intervals@[j] != interval,
        {
            if intervals[i] == interval {
                return Some((i + 1) as u8);
            }
        }
        None
    }

    fn note_at_degree(&self, degree: u8) -> (r: Option<T>) {
        let intervals = self.scale_type.intervals();
        if degree == 0 || degree as usize > intervals.len() {
            return None;
        }
        let interval = intervals[(degree - 1) as usize];
        let semitone: u8 = (self.root.semitone() + interval) % 12;
        T::from_semitone(semitone)
    }

    fn contains(&self, note: &T) -> (r: bool) {
        self.degree_of(note).is_some()
    }

    fn len(&self) -> (r: usize) {
        self.notes().len()
    }

    fn is_empty(&self) -> (r: bool) {
        self.len() == 0
    }

    fn intervals(&self) -> (r: Vec<u8>) {
        self.scale_type.intervals()
    }

    fn mode(&self, degree: u8) -> (r: Option<Self>) {
        if let Some(new_root) = self.note_at_degree(degree) {
            Some(Scale::new(new_root, self.scale_type))
        } else {
            None
        }
    }
}

impl<T> DegreeCollection<T> for Scale<T> where T: ChromaticNote + Copy {
    open spec fn spec_note_for_degree(&self, degree: Degree) -> Option<T> {
        match spec_degree_offset(degree) {
            Some(offset) => T::spec_from_semitone(
                (((self.spec_root().spec_semitone() + offset) % 12) as u8),
            ),
            None => None,
        }
    }

    fn notes_for_degrees(&self, degrees: &[Degree]) -> (r: Vec<Option<T>>) {
        let ghost all = degrees@;
        let mut result: Vec<Option<T>> = Vec::new();
        for i in 0..degrees.len()
            invariant
                all == degrees@,
                result@.len() == i,
                forall|j: int| 0 <= j < i ==> result@[j] == self.spec_note_for_degree(all[j]),
        {
            result.push(self.note_for_degree(&degrees[i]));
        }
        proof {
            assert(result@ =~= all.map_values(|d: Degree| self.spec_note_for_degree(d)));
        }
        result
    }

    fn valid_notes_for_degrees(&self, degrees: &[Degree]) -> (r: Vec<T>) {
        let ghost all = degrees@;
        let ghost mapped = all.map_values(|d: Degree| self.spec_note_for_degree(d));
        let mut result: Vec<T> = Vec::new();
        for i in 0..degrees.len()
            invariant
                all == degrees@,
                mapped == all.map_values(|d: Degree| self.spec_note_for_degree(d)),
                result@ == spec_present(mapped.take(i as int)),
        {
            if let Some(note) = self.note_for_degree(&degrees[i]) {
                result.push(note);
            }
            proof {
                assert(mapped.take(i + 1).drop_last() =~= mapped.take(i as int));
                assert(mapped.take(i + 1).last() == mapped[i as int]);
                assert(result@ =~= spec_present(mapped.take(i + 1)));
            }
        }
        proof {
            assert(mapped.take(mapped.len() as int) =~= mapped);
        }
        result
    }

    fn is_valid_degree(&self, degree: &Degree) -> (r: bool) {
        self.note_for_degree(degree).is_some()
    }

    fn note_for_degree(&self, degree: &Degree) -> (r: Option<T>) {
        let offset = match degree.to_semitone_offset() {
            Some(offset) => offset,
            None => {
                return None;
            },
        };
        let target_semitone: u8 = (self.root.semitone() + offset) % 12;
        T::from_semitone(target_semitone)
    }
}

/// What the mode of a concrete scale is: it exists exactly when the
/// degree picks a note out of the scale, and it is the scale of the same
/// type rooted at that note.
pub proof fn lemma_scale_mode<T: ChromaticNote + Copy>(s: Scale<T>, degree: u8)
    ensures
        (s.spec_mode(degree) is Some) == (1 <= degree && degree as int
            <= s.spec_intervals().len() && T::spec_from_semitone(
            (((s.spec_root().spec_semitone() + s.spec_intervals()[degree - 1]) % 12) as u8),
        ) is Some),
        s.spec_mode(degree) matches Some(m) ==> m.spec_scale_type() == s.spec_scale_type()
            && Some(m.spec_root()) == T::spec_from_semitone(
            (((s.spec_root().spec_semitone() + s.spec_intervals()[degree - 1]) % 12) as u8),
        ),
{
}

/// Musical notes in the chromatic scale.
#[derive(Debug, Clone, Copy, PartialEq, Eq, Structural, Hash)]
pub enum Note {
    C,
    CSharp,
    D,
    DSharp,
    E,
    F,
    FSharp,
    G,
    GSharp,
    A,
    ASharp,
    B,
}

/// The semitone value of a chromatic note: C is 0, B is 11.
pub open spec fn spec_note_semitone(n: Note) -> u8 {
    match n {
        Note::C => 0,
        Note::CSharp => 1,
        Note::D => 2,
        Note::DSharp => 3,
        Note::E => 4,
        Note::F => 5,
        Note::FSharp => 6,
        Note::G => 7,
        Note::GSharp => 8,
        Note::A => 9,
        Note::ASharp => 10,
        Note::B => 11,
    }
}

/// The chromatic note of a semitone value, modulo the octave.
pub open spec fn spec_note_of_semitone(s: u8) -> Option<Note> {
    let slot = s % 12;
    if slot == 0 {
        Some(Note::C)
    } else if slot == 1 {
        Some(Note::CSharp)
    } else if slot == 2 {
        Some(Note::D)
    } else if slot == 3 {
        Some(Note::DSharp)
    } else if slot == 4 {
        Some(Note::E)
    } else if slot == 5 {
        Some(Note::F)
    } else if slot == 6 {
        Some(Note::FSharp)
    } else if slot == 7 {
        Some(Note::G)
    } else if slot == 8 {
        Some(Note::GSharp)
    } else if slot == 9 {
        Some(Note::A)
    } else if slot == 10 {
        Some(Note::ASharp)
    } else {
        Some(Note::B)
    }
}

/// The name of a chromatic note, in sharp notation.
pub open spec fn spec_note_name(n: Note) -> Seq<char> {
    match n {
        Note::C => "C"@,
        Note::CSharp => "C#"@,
        Note::D => "D"@,
        Note::DSharp => "D#"@,
        Note::E => "E"@,
        Note::F => "F"@,
        Note::FSharp => "F#"@,
        Note::G => "G"@,
        Note::GSharp => "G#"@,
        Note::A => "A"@,
        Note::ASharp => "A#"@,
        Note::B => "B"@,
    }
}

impl Note {
    /// Get the semitone value (0-11) of the note.
    pub fn semitone(&self) -> (r: u8)
        ensures
            r == spec_note_semitone(*self),
            r < 12,
    {
        match self {
            Note::C => 0,
            Note::CSharp => 1,
            Note::D => 2,
            Note::DSharp => 3,
            Note::E => 4,
            Note::F => 5,
            Note::FSharp => 6,
            Note::G => 7,
            Note::GSharp => 8,
            Note::A => 9,
            Note::ASharp => 10,
            Note::B => 11,
        }
    }

    /// Get the MIDI note number of this note in a specific octave: octave
    /// -1 starts at 0, so the number is `(octave + 1) * 12` plus the
    /// semitone; values outside 0 to 127 have no MIDI number.
    pub fn midi_number(&self, octave: i8) -> (r: Option<u8>)
        ensures
            r == (if 0 <= (octave + 1) * 12 + spec_note_semitone(*self) <= 127 {
                Some((((octave + 1) * 12 + spec_note_semitone(*self)) as u8))
            } else {
                None::<u8>
            }),
    {
        let midi_note: i16 = (octave as i16 + 1) * 12 + Note::semitone(self) as i16;
        if 0 <= midi_note && midi_note <= 127 {
            Some(midi_note as u8)
        } else {
            None
        }
    }

    /// Create a note from a semitone value, wrapping modulo the octave.
    pub fn from_semitone(semitone: u8) -> (r: Option<Self>)
        ensures
            r == spec_note_of_semitone(semitone),
    {
        match semitone % 12 {
            0 => Some(Note::C),
            1 => Some(Note::CSharp),
            2 => Some(Note::D),
            3 => Some(Note::DSharp),
            4 => Some(Note::E),
            5 => Some(Note::F),
            6 => Some(Note::FSharp),
            7 => Some(Note::G),
            8 => Some(Note::GSharp),
            9 => Some(Note::A),
            10 => Some(Note::ASharp),
            11 => Some(Note::B),
            _ => None,
        }
    }
}

impl ChromaticNote for Note {
    open spec fn spec_semitone(&self) -> u8 {
        spec_note_semitone(*self)
    }

    open spec fn spec_from_semitone(semitone: u8) -> Option<Note> {
        spec_note_of_semitone(semitone)
    }

    open spec fn spec_name(&self) -> Seq<char> {
        spec_note_name(*self)
    }

    open spec fn spec_is_accidental(&self) -> bool {
        *self == Note::CSharp || *self == Note::DSharp || *self == Note::FSharp || *self
            == Note::GSharp || *self == Note::ASharp
    }

    fn semitone(&self) -> (r: u8) {
        Note::semitone(self)
    }

    fn from_semitone(semitone: u8) -> (r: Option<Note>) {
        Note::from_semitone(semitone)
    }

    fn name(&self) -> (r: &'static str) {
        match self {
            Note::C => "C",
            Note::CSharp => "C#",
            Note::D => "D",
            Note::DSharp => "D#",
            Note::E => "E",
            Note::F => "F",
            Note::FSharp => "F#",
            Note::G => "G",
            Note::GSharp => "G#",
            Note::A => "A",
            Note::ASharp => "A#",
            Note::B => "B",
        }
    }

    fn is_accidental(&self) -> (r: bool) {
        matches!(
            self,
            Note::CSharp | Note::DSharp | Note::FSharp | Note::GSharp | Note::ASharp
        )
    }
}

impl TransposableNote for Note {
    fn transpose(self, semitones: i8) -> (r: Self) {
        let shifted: i16 = ChromaticNote::semitone(&self) as i16 + semitones as i16 + 144;
        let new_semitone: u8 = (shifted % 12) as u8;
        match Note::from_semitone(new_semitone) {
            Some(n) => n,
            None => Note::C,
        }
    }

    fn interval_to(&self, other: &Self) -> (r: u8) {
        (ChromaticNote::semitone(other) + 12 - ChromaticNote::semitone(self)) % 12
    }

    fn add_interval(&self, interval: Interval) -> (r: Self) {
        self.transpose(interval.semitones() as i8)
    }
}

impl EnharmonicNote for Note {
    open spec fn spec_enharmonic_equivalents(&self) -> Seq<Seq<char>> {
        match *self {
            Note::CSharp => seq!["C#"@, "Db"@],
            Note::DSharp => seq!["D#"@, "Eb"@],
            Note::FSharp => seq!["F#"@, "Gb"@],
            Note::GSharp => seq!["G#"@, "Ab"@],
            Note::ASharp => seq!["A#"@, "Bb"@],
            _ => seq![spec_note_name(*self)],
        }
    }

    open spec fn spec_flat_name(&self) -> Option<Seq<char>> {
        match *self {
            Note::CSharp => Some("Db"@),
            Note::DSharp => Some("Eb"@),
            Note::FSharp => Some("Gb"@),
            Note::GSharp => Some("Ab"@),
            Note::ASharp => Some("Bb"@),
            _ => None,
        }
    }

    open spec fn spec_sharp_name(&self) -> Option<Seq<char>> {
        match *self {
            Note::CSharp => Some("C#"@),
            Note::DSharp => Some("D#"@),
            Note::FSharp => Some("F#"@),
            Note::GSharp => Some("G#"@),
            Note::ASharp => Some("A#"@),
            _ => None,
        }
    }

    open spec fn spec_spelling_in_key(&self, key_signature_sharps: i8) -> Seq<char> {
        if !self.spec_is_accidental() {
            spec_note_name(*self)
        } else if key_signature_sharps >= 0 {
            match self.spec_sharp_name() {
                Some(s) => s,
                None => spec_note_name(*self),
            }
        } else {
            match self.spec_flat_name() {
                Some(s) => s,
                None => spec_note_name(*self),
            }
        }
    }

    fn enharmonic_equivalents(&self) -> (r: Vec<String>) {
        let names: Vec<String> = match self {
            Note::CSharp => {
                let mut v: Vec<String> = Vec::new();
                v.push("C#".to_owned());
                v.push("Db".to_owned());
                v
            },
            Note::DSharp => {
                let mut v: Vec<String> = Vec::new();
                v.push("D#".to_owned());
                v.push("Eb".to_owned());
                v
            },
            Note::FSharp => {
                let mut v: Vec<String> = Vec::new();
                v.push("F#".to_owned());
                v.push("Gb".to_owned());
                v
            },
            Note::GSharp => {
                let mut v: Vec<String> = Vec::new();
                v.push("G#".to_owned());
                v.push("Ab".to_owned());
                v
            },
            Note::ASharp => {
                let mut v: Vec<String> = Vec::new();
                v.push("A#".to_owned());
                v.push("Bb".to_owned());
                v
            },
            _ => {
                let mut v: Vec<String> = Vec::new();
                v.push(ChromaticNote::name(self).to_owned());
                v
            },
        };
        proof {
            assert(names@.map_values(|s: String| s@) =~= self.spec_enharmonic_equivalents());
        }
        names
    }

    fn flat_name(&self) -> (r: Option<&'static str>) {
        match self {
            Note::CSharp => Some("Db"),
            Note::DSharp => Some("Eb"),
            Note::FSharp => Some("Gb"),
            Note::GSharp => Some("Ab"),
            Note::ASharp => Some("Bb"),
            _ => None,
        }
    }

    fn sharp_name(&self) -> (r: Option<&'static str>) {
        match self {
            Note::CSharp => Some("C#"),
            Note::DSharp => Some("D#"),
            Note::FSharp => Some("F#"),
            Note::GSharp => Some("G#"),
            Note::ASharp => Some("A#"),
            _ => None,
        }
    }

    fn spelling_in_key(&self, key_signature_sharps: i8) -> (r: String) {
        if !ChromaticNote::is_accidental(self) {
            return ChromaticNote::name(self).to_owned();
        }
        if key_signature_sharps >= 0 {
            match self.sharp_name() {
                Some(s) => s.to_owned(),
                None => ChromaticNote::name(self).to_owned(),
            }
        } else {
            match self.flat_name() {
                Some(s) => s.to_owned(),
                None => ChromaticNote::name(self).to_owned(),
            }
        }
    }
}

impl ScaleDegree for Note {
    fn degree_in_major(&self, tonic: &Self) -> (r: Option<u8>) {
        let interval = tonic.interval_to(self);
        match interval {
            0 => Some(1),
            2 => Some(2),
            4 => Some(3),
            5 => Some(4),
            7 => Some(5),
            9 => Some(6),
            11 => Some(7),
            _ => None,
        }
    }

    fn degree_in_minor(&self, tonic: &Self) -> (r: Option<u8>) {
        let interval = tonic.interval_to(self);
        match interval {
            0 => Some(1),
            2 => Some(2),
            3 => Some(3),
            5 => Some(4),
            7 => Some(5),
            8 => Some(6),
            10 => Some(7),
            _ => None,
        }
    }

    fn is_in_major_scale(&self, tonic: &Self) -> (r: bool) {
        self.degree_in_major(tonic).is_some()
    }

    fn is_in_minor_scale(&self, tonic: &Self) -> (r: bool) {
        self.degree_in_minor(tonic).is_some()
    }
}

impl CircleOfFifths for Note {
    fn next_fifth(&self) -> (r: Self) {
        self.transpose(7)
    }

    fn prev_fifth(&self) -> (r: Self) {
        self.transpose(5)
    }

    fn circle_position(&self) -> (r: u8) {
        (ChromaticNote::semitone(self) * 7) % 12
    }

    fn relative_key(&self) -> (r: Self) {
        self.transpose(-3)
    }
}

/// Musical intervals in semitones.
#[derive(Debug, Clone, Copy, PartialEq, Eq, Structural)]
pub enum Interval {
    Unison,
    MinorSecond,
    MajorSecond,
    MinorThird,
    MajorThird,
    PerfectFourth,
    Tritone,
    PerfectFifth,
    MinorSixth,
    MajorSixth,
    MinorSeventh,
    MajorSeventh,
    Octave,
}

/// The semitone size of each interval, from 0 (unison) to 12 (octave).
pub open spec fn spec_interval_semitones(iv: Interval) -> u8 {
    match iv {
        Interval::Unison => 0,
        Interval::MinorSecond => 1,
        Interval::MajorSecond => 2,
        Interval::MinorThird => 3,
        Interval::MajorThird => 4,
        Interval::PerfectFourth => 5,
        Interval::Tritone => 6,
        Interval::PerfectFifth => 7,
        Interval::MinorSixth => 8,
        Interval::MajorSixth => 9,
        Interval::MinorSeventh => 10,
        Interval::MajorSeventh => 11,
        Interval::Octave => 12,
    }
}

impl Interval {
    /// Get the semitone value of the interval.
    pub fn semitones(&self) -> (r: u8)
        ensures
            r == spec_interval_semitones(*self),
    {
        match self {
            Interval::Unison => 0,
            Interval::MinorSecond => 1,
            Interval::MajorSecond => 2,
            Interval::MinorThird => 3,
            Interval::MajorThird => 4,
            Interval::PerfectFourth => 5,
            Interval::Tritone => 6,
            Interval::PerfectFifth => 7,
            Interval::MinorSixth => 8,
            Interval::MajorSixth => 9,
            Interval::MinorSeventh => 10,
            Interval::MajorSeventh => 11,
            Interval::Octave => 12,
        }
    }
}

} // verus!
