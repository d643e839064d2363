//! Formula degrees for chord construction and harmonic analysis.
//!
//! A [`FormulaDegree`] is a tagged chord-formula degree: a degree number
//! with a natural, flat or sharp tag.  Degree numbers past 7 (the 9th,
//! 11th, 13th and so on) are extended harmony; the key algorithm,
//! [`FormulaDegree::to_semitone_offset`], reduces them to their in-octave
//! equivalents and yields a semitone offset between 0 and 11.

use crate::text::{decimal_string, spec_decimal};
use vstd::prelude::*;
use vstd::string::StringExecFns;

verus! {

/// A degree in a chord formula: a degree number tagged natural, flat or
/// sharp.
#[derive(Debug, Clone, Copy, PartialEq, Eq, Structural, Hash)]
pub enum FormulaDegree {
    /// Natural degree (1, 2, 3, 4, 5, 6, 7, 9, 11, 13, etc.)
    Natural(u8),
    /// Flat degree (♭2, ♭3, ♭5, ♭6, ♭7, ♭9, ♭11, ♭13, etc.)
    Flat(u8),
    /// Sharp degree (♯1, ♯2, ♯4, ♯5, ♯6, ♯9, ♯11, etc.)
    Sharp(u8),
}

/// The degree number under the tag.
pub open spec fn spec_base_degree(fd: FormulaDegree) -> u8 {
    match fd {
        FormulaDegree::Natural(d) => d,
        FormulaDegree::Flat(d) => d,
        FormulaDegree::Sharp(d) => d,
    }
}

/// The alteration of the tag: 0 natural, -1 flat, +1 sharp.
pub open spec fn spec_fd_alteration(fd: FormulaDegree) -> int {
    match fd {
        FormulaDegree::Natural(_) => 0,
        FormulaDegree::Flat(_) => -1,
        FormulaDegree::Sharp(_) => 1,
    }
}

/// The diatonic slot (1 to 7) that a degree number reduces to: 1 to 7 stay
/// as they are, 8 to 15 wrap into the octave with 8 and 15 landing on 1,
/// and anything else is unsupported.  Not plain modulo: degree 8 must
/// reduce to 1, not 0.
pub open spec fn spec_reduced_degree(d: u8) -> Option<u8> {
    if d <= 7 {
        Some(d)
    } else if d <= 14 {
        Some((d - 7) as u8)
    } else if d == 15 {
        Some(1u8)
    } else {
        None
    }
}

/// The major-scale semitone of a diatonic slot: 1:0, 2:2, 3:4, 4:5, 5:7,
/// 6:9, 7:11; slot 0 (from degree 0) has no semitone.
pub open spec fn spec_major_semitone(slot: u8) -> Option<u8> {
    if slot == 1 {
        Some(0u8)
    } else if slot == 2 {
        Some(2u8)
    } else if slot == 3 {
        Some(4u8)
    } else if slot == 4 {
        Some(5u8)
    } else if slot == 5 {
        Some(7u8)
    } else if slot == 6 {
        Some(9u8)
    } else if slot == 7 {
        Some(11u8)
    } else {
        None
    }
}

/// The semitone offset of a formula degree: reduce the degree number to a
/// diatonic slot, look up the slot's major-scale semitone, add the tag's
/// alteration and normalize into 0 to 11.
pub open spec fn spec_to_semitone_offset(fd: FormulaDegree) -> Option<u8> {
    match spec_reduced_degree(spec_base_degree(fd)) {
        Some(slot) => match spec_major_semitone(slot) {
            Some(base) => Some((((base + spec_fd_alteration(fd)) % 12) as u8)),
            None => None,
        },
        None => None,
    }
}

/// The symbol of a formula degree: the tag's symbol, then the degree
/// number in decimal.
pub open spec fn spec_fd_symbol(fd: FormulaDegree) -> Seq<char> {
    match fd {
        FormulaDegree::Natural(d) => spec_decimal(d as int),
        FormulaDegree::Flat(d) => "♭"@ + spec_decimal(d as int),
        FormulaDegree::Sharp(d) => "♯"@ + spec_decimal(d as int),
    }
}

/// The name of a formula degree: the tag spelled out, then the degree
/// number in decimal.
pub open spec fn spec_fd_name(fd: FormulaDegree) -> Seq<char> {
    match fd {
        FormulaDegree::Natural(d) => spec_decimal(d as int),
        FormulaDegree::Flat(d) => "flat "@ + spec_decimal(d as int),
        FormulaDegree::Sharp(d) => "sharp "@ + spec_decimal(d as int),
    }
}

impl FormulaDegree {
    /// Create a natural formula degree.
    pub fn natural(degree: u8) -> (r: Self)
        ensures
            r == FormulaDegree::Natural(degree),
    {
        FormulaDegree::Natural(degree)
    }

    /// Create a flat formula degree.
    pub fn flat(degree: u8) -> (r: Self)
        ensures
            r == FormulaDegree::Flat(degree),
    {
        FormulaDegree::Flat(degree)
    }

    /// Create a sharp formula degree.
    pub fn sharp(degree: u8) -> (r: Self)
        ensures
            r == FormulaDegree::Sharp(degree),
    {
        FormulaDegree::Sharp(degree)
    }

    /// Get the base degree number (1, 2, 3, ..., 9, 11, 13, etc.).
    pub fn base_degree(&self) -> (r: u8)
        ensures
            r == spec_base_degree(*self),
    {
        match self {
            FormulaDegree::Natural(d) => *d,
            FormulaDegree::Flat(d) => *d,
            FormulaDegree::Sharp(d) => *d,
        }
    }

    /// Get the alteration: -1 for flat, 0 for natural, +1 for sharp.
    pub fn alteration(&self) -> (r: i8)
        ensures
            r as int == spec_fd_alteration(*self),
    {
        match self {
            FormulaDegree::Natural(_) => 0,
            FormulaDegree::Flat(_) => -1,
            FormulaDegree::Sharp(_) => 1,
        }
    }

    /// Convert the formula degree to its semitone offset from the root in
    /// a major-scale context, reducing extended degrees (9, 11, 13) to
    /// their octave equivalents (2, 4, 6); degrees beyond 15 yield no
    /// result.
    pub fn to_semitone_offset(&self) -> (r: Option<u8>)
        ensures
            r == spec_to_semitone_offset(*self),
    {
        let reduced_degree: u8 = match self.base_degree() {
            d if d <= 7 => d,
            8 => 1,
            9 => 2,
            10 => 3,
            11 => 4,
            12 => 5,
            13 => 6,
            14 => 7,
            15 => 1,
            _ => {
                return None;
            },
        };
        let base_semitones: u8 = match reduced_degree {
            1 => 0,
            2 => 2,
            3 => 4,
            4 => 5,
            5 => 7,
            6 => 9,
            7 => 11,
            _ => {
                return None;
            },
        };
        let adjusted: i8 = base_semitones as i8 + self.alteration();
        let result: u8 = if adjusted < 0 {
            (12 + adjusted) as u8
        } else {
            (adjusted as u8) % 12
        };
        Some(result)
    }

    /// Get the symbol representation of the formula degree, such as "9",
    /// "♭9" or "♯11".
    pub fn symbol(&self) -> (r: String)
        ensures
            r@ == spec_fd_symbol(*self),
    {
        match self {
            FormulaDegree::Natural(d) => decimal_string(*d as u16),
            FormulaDegree::Flat(d) => {
                let mut s = "♭".to_owned();
                let digits = decimal_string(*d as u16);
                s.append(digits.as_str());
                s
            },
            FormulaDegree::Sharp(d) => {
                let mut s = "♯".to_owned();
                let digits = decimal_string(*d as u16);
                s.append(digits.as_str());
                s
            },
        }
    }

    /// Get the name representation of the formula degree, such as "9",
    /// "flat 9" or "sharp 11".
    pub fn name(&self) -> (r: String)
        ensures
            r@ == spec_fd_name(*self),
    {
        match self {
            FormulaDegree::Natural(d) => decimal_string(*d as u16),
            FormulaDegree::Flat(d) => {
                let mut s = "flat ".to_owned();
                let digits = decimal_string(*d as u16);
                s.append(digits.as_str());
                s
            },
            FormulaDegree::Sharp(d) => {
                let mut s = "sharp ".to_owned();
                let digits = decimal_string(*d as u16);
                s.append(digits.as_str());
                s
            },
        }
    }

    /// Check if this is an extended degree (beyond the basic 1-7).
    pub fn is_extended(&self) -> (r: bool)
        ensures
            r == (spec_base_degree(*self) > 7),
    {
        self.base_degree() > 7
    }

    /// Check if this is a basic chord tone (degree 1, 3, 5 or 7).
    pub fn is_chord_tone(&self) -> (r: bool)
        ensures
            r == {
                let d = spec_base_degree(*self);
                d == 1 || d == 3 || d == 5 || d == 7
            },
    {
        let d = self.base_degree();
        d == 1 || d == 3 || d == 5 || d == 7
    }

    /// Check if this is a tension or extension (degree 2, 4, 6, 9, 11 or
    /// 13).
    pub fn is_tension(&self) -> (r: bool)
        ensures
            r == {
                let d = spec_base_degree(*self);
                d == 2 || d == 4 || d == 6 || d == 9 || d == 11 || d == 13
            },
    {
        let d = self.base_degree();
        d == 2 || d == 4 || d == 6 || d == 9 || d == 11 || d == 13
    }
}

} // verus!
