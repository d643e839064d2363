//! Degree alterations for representing sharp and flat modifications.
//!
//! A [`DegreeAlteration`] says whether a musical degree is left natural,
//! lowered by a semitone (flat) or raised by a semitone (sharp).  Besides the
//! symbolic operations it carries a lossless two-bit numeric codec: the codes
//! 1, 2 and 3 stand for natural, flat and sharp, while code 0 is reserved as
//! the chord packer's "absent" sentinel and is never a legal alteration.

use vstd::prelude::*;

verus! {

/// A musical alteration that modifies a degree: natural, flat (♭) or sharp (♯).
#[derive(Debug, Clone, Copy, PartialEq, Eq, Structural, Hash, PartialOrd, Ord)]
pub enum DegreeAlteration {
    /// No alteration - natural degree
    Natural,
    /// Flat alteration (♭) - lowers the degree by a semitone
    Flat,
    /// Sharp alteration (♯) - raises the degree by a semitone
    Sharp,
}

/// The symbol that renders an alteration: nothing, ♭ or ♯.
pub open spec fn spec_alteration_symbol(a: DegreeAlteration) -> Seq<char> {
    match a {
        DegreeAlteration::Natural => ""@,
        DegreeAlteration::Flat => "♭"@,
        DegreeAlteration::Sharp => "♯"@,
    }
}

/// The semitone offset of an alteration: 0, -1 or +1.
pub open spec fn spec_alteration_offset(a: DegreeAlteration) -> int {
    match a {
        DegreeAlteration::Natural => 0,
        DegreeAlteration::Flat => -1,
        DegreeAlteration::Sharp => 1,
    }
}

/// The two-bit code of an alteration: natural is 1, flat is 2, sharp is 3.
/// Code 0 never stands for an alteration; it is the "absent" slot value.
pub open spec fn spec_alteration_code(a: DegreeAlteration) -> u8 {
    match a {
        DegreeAlteration::Natural => 1,
        DegreeAlteration::Flat => 2,
        DegreeAlteration::Sharp => 3,
    }
}

/// The alteration a two-bit code stands for; meaningful only for codes 1 to 3.
pub open spec fn spec_alteration_decode(code: u8) -> DegreeAlteration {
    if code == 1 {
        DegreeAlteration::Natural
    } else if code == 2 {
        DegreeAlteration::Flat
    } else {
        DegreeAlteration::Sharp
    }
}

/// The mirror image of an alteration: flat and sharp swap, natural stays.
pub open spec fn spec_alteration_opposite(a: DegreeAlteration) -> DegreeAlteration {
    match a {
        DegreeAlteration::Natural => DegreeAlteration::Natural,
        DegreeAlteration::Flat => DegreeAlteration::Sharp,
        DegreeAlteration::Sharp => DegreeAlteration::Flat,
    }
}

impl DegreeAlteration {
    /// Get the symbol representation of the alteration.
    pub fn symbol(&self) -> (r: &'static str)
        ensures
            r@ == spec_alteration_symbol(*self),
    {
        match self {
            DegreeAlteration::Natural => "",
            DegreeAlteration::Sharp => "♯",
            DegreeAlteration::Flat => "♭",
        }
    }

    /// Get the semitone offset applied by this alteration: sharp adds one
    /// semitone, flat removes one, natural adds nothing.
    pub fn semitone_offset(&self) -> (r: i8)
        ensures
            r as int == spec_alteration_offset(*self),
    {
        match self {
            DegreeAlteration::Natural => 0,
            DegreeAlteration::Sharp => 1,
            DegreeAlteration::Flat => -1,
        }
    }

    /// Check if this is a sharp alteration.
    pub fn is_sharp(&self) -> (r: bool)
        ensures
            r == (*self == DegreeAlteration::Sharp),
    {
        matches!(self, DegreeAlteration::Sharp)
    }

    /// Check if this is a flat alteration.
    pub fn is_flat(&self) -> (r: bool)
        ensures
            r == (*self == DegreeAlteration::Flat),
    {
        matches!(self, DegreeAlteration::Flat)
    }

    /// Check if this is no alteration (natural).
    pub fn is_none(&self) -> (r: bool)
        ensures
            r == (*self == DegreeAlteration::Natural),
    {
        matches!(self, DegreeAlteration::Natural)
    }

    /// Get the opposite alteration: sharp becomes flat, flat becomes sharp,
    /// natural stays natural.
    pub fn opposite(&self) -> (r: DegreeAlteration)
        ensures
            r == spec_alteration_opposite(*self),
    {
        match self {
            DegreeAlteration::Natural => DegreeAlteration::Natural,
            DegreeAlteration::Sharp => DegreeAlteration::Flat,
            DegreeAlteration::Flat => DegreeAlteration::Sharp,
        }
    }

    /// Decode a two-bit numeric code: 1 is natural, 2 is flat, 3 is sharp.
    ///
    /// Any other code - 0 included - is a corrupted or hand-built
    /// representation, never a value this library writes, so it is ruled out
    /// up front rather than mapped to anything.
    pub fn decode(code: u8) -> (r: DegreeAlteration)
        requires
            1 <= code <= 3,
        ensures
            r == spec_alteration_decode(code),
    {
        if code == 1 {
            DegreeAlteration::Natural
        } else if code == 2 {
            DegreeAlteration::Flat
        } else {
            DegreeAlteration::Sharp
        }
    }

    /// Encode the alteration as its two-bit numeric code; the total inverse
    /// of [`DegreeAlteration::decode`].
    pub fn encode(&self) -> (r: u8)
        ensures
            r == spec_alteration_code(*self),
    {
        match self {
            DegreeAlteration::Natural => 1,
            DegreeAlteration::Flat => 2,
            DegreeAlteration::Sharp => 3,
        }
    }
}

impl Default for DegreeAlteration {
    /// Returns `DegreeAlteration::Natural` as the default (natural/unaltered).
    fn default() -> (r: Self)
        ensures
            r == DegreeAlteration::Natural,
    {
        DegreeAlteration::Natural
    }
}

impl From<DegreeAlteration> for u8 {
    /// Converts an alteration to its two-bit numeric code: natural is 1,
    /// flat is 2, sharp is 3.
    fn from(alteration: DegreeAlteration) -> Self {
        alteration.encode()
    }
}

impl vstd::std_specs::convert::FromSpecImpl<DegreeAlteration> for u8 {
    open spec fn obeys_from_spec() -> bool {
        true
    }

    open spec fn from_spec(t: DegreeAlteration) -> Self {
        spec_alteration_code(t)
    }
}

/// Decoding undoes encoding for every alteration, and encoding undoes
/// decoding exactly on the three legal codes 1, 2 and 3.
pub proof fn lemma_alteration_codec_round_trip(a: DegreeAlteration, code: u8)
    requires
        1 <= code <= 3,
    ensures
        spec_alteration_decode(spec_alteration_code(a)) == a,
        spec_alteration_code(spec_alteration_decode(code)) == code,
{
}

} // verus!
