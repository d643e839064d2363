//! Octave implementation for musical octave representation.
//!
//! An [`Octave`] is a signed octave number; middle C sits in octave 4 and
//! negative numbers reach the sub-bass range.

use crate::text::{signed_decimal_string, spec_signed_decimal};
use vstd::prelude::*;
use vstd::string::StringExecFns;

verus! {

/// A musical octave position, numbered so that middle C is in octave 4.
#[derive(Debug, Clone, Copy, PartialEq, Eq, Structural, PartialOrd, Ord, Hash)]
pub struct Octave(pub i8);

impl Octave {
    /// Creates a new `Octave` from an `i8` value.
    pub fn new(value: i8) -> (r: Self)
        ensures
            r.0 == value,
    {
        Self(value)
    }

    /// Returns the octave number as an `i8`.
    pub fn value(self) -> (r: i8)
        ensures
            r == self.0,
    {
        self.0
    }

    /// Renders the octave number in decimal, such as "4" or "-1".
    pub fn display_string(self) -> (r: String)
        ensures
            r@ == spec_signed_decimal(self.0 as int),
    {
        signed_decimal_string(self.0 as i16)
    }
}

impl From<i8> for Octave {
    /// Creates an `Octave` from an `i8` value.
    fn from(value: i8) -> Self {
        Self(value)
    }
}

impl vstd::std_specs::convert::FromSpecImpl<i8> for Octave {
    open spec fn obeys_from_spec() -> bool {
        true
    }

    open spec fn from_spec(t: i8) -> Self {
        Octave(t)
    }
}

impl From<Octave> for i8 {
    /// Converts an `Octave` to an `i8` value.
    fn from(octave: Octave) -> Self {
        octave.0
    }
}

impl vstd::std_specs::convert::FromSpecImpl<Octave> for i8 {
    open spec fn obeys_from_spec() -> bool {
        true
    }

    open spec fn from_spec(t: Octave) -> Self {
        t.0
    }
}

} // verus!
