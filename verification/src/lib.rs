//! Music-theory value library built around bit-packed harmonic formulas.
//!
//! The core of the crate is the harmonic formula encoding engine:
//!
//! - [`DegreeAlteration`]: a three-valued alteration (natural, flat, sharp)
//!   with a lossless two-bit numeric codec,
//! - [`FormulaDegree`]: a degree algebra that reduces extended-harmony
//!   degrees (9ths, 11ths, 13ths, ...) to in-octave semitone offsets,
//! - [`ChordFormula`]: up to fifteen two-bit degree slots packed into one
//!   32-bit word,
//! - [`ScaleFormula`]: one presence bit per semitone across two octaves,
//!   with set algebra over the bitfield.
//!
//! Around that core stand small value wrappers ([`Semitone`], [`Note`],
//! [`Octave`], [`PitchClass`]), an enum-and-trait based scale builder (the
//! [`theory`] module), and MIDI note-number conversions (the [`midi`]
//! module).  A chord or scale is one `u32` on the wire: `new` and `bits`
//! round-trip that word bit for bit.

pub mod chord_formula;
pub mod degree_accident;
pub mod degree_alteration;
pub mod formula_degree;
pub mod midi;
pub mod note;
pub mod octave;
pub mod pitch_class;
pub mod scale_formula;
pub mod semitone;
pub mod text;
pub mod theory;

pub use chord_formula::ChordFormula;
pub use degree_accident::DegreeAccident;
pub use degree_alteration::DegreeAlteration;
pub use formula_degree::FormulaDegree;
pub use note::Note;
pub use octave::Octave;
pub use pitch_class::PitchClass;
pub use scale_formula::ScaleFormula;
pub use semitone::Semitone;
pub use semitone::SEMITONES_IN_OCTAVE;

use vstd::prelude::*;

verus! {

/// The library's version.
pub const VERSION: &'static str = "0.1.0";

} // verus!
