//! Degree accidentals for representing sharp and flat alterations.
//!
//! A [`DegreeAccident`] is the two-valued cousin of
//! [`DegreeAlteration`](crate::DegreeAlteration): it is always either sharp
//! or flat, with no natural case, and carries the same symbol and semitone
//! offset operations.

use vstd::prelude::*;

verus! {

/// A musical accidental that modifies a degree: sharp (♯) or flat (♭).
#[derive(Debug, Clone, Copy, PartialEq, Eq, Structural, Hash, PartialOrd, Ord)]
pub enum DegreeAccident {
    /// Sharp accidental (♯) - raises the degree by a semitone
    Sharp,
    /// Flat accidental (♭) - lowers the degree by a semitone
    Flat,
}

/// The symbol that renders an accidental: ♯ or ♭.
pub open spec fn spec_accident_symbol(a: DegreeAccident) -> Seq<char> {
    match a {
        DegreeAccident::Sharp => "♯"@,
        DegreeAccident::Flat => "♭"@,
    }
}

/// The semitone offset of an accidental: +1 for sharp, -1 for flat.
pub open spec fn spec_accident_offset(a: DegreeAccident) -> int {
    match a {
        DegreeAccident::Sharp => 1,
        DegreeAccident::Flat => -1,
    }
}

impl DegreeAccident {
    /// Get the symbol representation of the accidental.
    pub fn symbol(&self) -> (r: &'static str)
        ensures
            r@ == spec_accident_symbol(*self),
    {
        match self {
            DegreeAccident::Sharp => "♯",
            DegreeAccident::Flat => "♭",
        }
    }

    /// Get the semitone offset applied by this accidental: sharp adds one
    /// semitone, flat removes one.
    pub fn semitone_offset(&self) -> (r: i8)
        ensures
            r as int == spec_accident_offset(*self),
    {
        match self {
            DegreeAccident::Sharp => 1,
            DegreeAccident::Flat => -1,
        }
    }

    /// Check if this is a sharp accidental.
    pub fn is_sharp(&self) -> (r: bool)
        ensures
            r == (*self == DegreeAccident::Sharp),
    {
        matches!(self, DegreeAccident::Sharp)
    }

    /// Check if this is a flat accidental.
    pub fn is_flat(&self) -> (r: bool)
        ensures
            r == (*self == DegreeAccident::Flat),
    {
        matches!(self, DegreeAccident::Flat)
    }

    /// Get the opposite accidental: sharp becomes flat, flat becomes sharp.
    pub fn opposite(&self) -> (r: DegreeAccident)
        ensures
            r == (match *self {
                DegreeAccident::Sharp => DegreeAccident::Flat,
                DegreeAccident::Flat => DegreeAccident::Sharp,
            }),
    {
        match self {
            DegreeAccident::Sharp => DegreeAccident::Flat,
            DegreeAccident::Flat => DegreeAccident::Sharp,
        }
    }
}

impl Default for DegreeAccident {
    /// Returns `DegreeAccident::Sharp` as the default.
    fn default() -> (r: Self)
        ensures
            r == DegreeAccident::Sharp,
    {
        DegreeAccident::Sharp
    }
}

} // verus!
