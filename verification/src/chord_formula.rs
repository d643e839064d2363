//! Chord formulas using bit-packed degree representations.
//!
//! A [`ChordFormula`] stores a chord as one `u32`: fifteen two-bit slots,
//! one per scale degree 1 to 15, at bit offset `(degree - 1) * 2`.  A slot
//! holds 0 when the degree is absent, or the numeric code of its
//! [`DegreeAlteration`] (1 natural, 2 flat, 3 sharp).  Bits 30 and 31 are
//! reserved.  The raw word is the wire format: [`ChordFormula::new`] and
//! [`ChordFormula::bits`] round-trip it bit for bit.

use crate::degree_alteration::{
    spec_alteration_code, spec_alteration_decode, spec_alteration_symbol, DegreeAlteration,
};
use crate::text::{decimal_string, spec_decimal};
use vstd::prelude::*;
use vstd::string::StringExecFns;

verus! {

/// A chord formula: fifteen two-bit degree slots packed into a `u32`.
///
/// Out-of-range degree arguments (0 or above 15) are silently ignored on
/// write and read as absent; no operation fails.
#[derive(Debug, Clone, Copy, PartialEq, Eq, Structural, Hash)]
pub struct ChordFormula(pub u32);

/// The bit offset of a degree's two-bit slot.
pub open spec fn slot_shift(degree: u8) -> u32
    recommends
        1 <= degree <= 15,
{
    (2 * ((degree - 1) as u32)) as u32
}

/// The two-bit slot value a degree holds in a packed word.
pub open spec fn spec_slot(bits: u32, degree: u8) -> u32
    recommends
        1 <= degree <= 15,
{
    (bits >> slot_shift(degree)) & 3
}

/// Whether a formula holds the given degree with exactly the given alteration.
pub open spec fn spec_has_degree(c: ChordFormula, degree: u8, alteration: DegreeAlteration) -> bool {
    1 <= degree <= 15 && spec_slot(c.0, degree) == spec_alteration_code(alteration) as u32
}

/// The packed word after writing an alteration code into a degree's slot;
/// out-of-range degrees leave the word unchanged.
pub open spec fn spec_with_degree(c: ChordFormula, degree: u8, alteration: DegreeAlteration) -> ChordFormula {
    if degree == 0 || degree > 15 {
        c
    } else {
        ChordFormula(
            (c.0 & !(3u32 << slot_shift(degree)))
                | ((spec_alteration_code(alteration) as u32) << slot_shift(degree)),
        )
    }
}

/// The degrees present in `bits` among 1..=upto, ascending, each with its
/// decoded alteration.
pub open spec fn spec_degrees(bits: u32, upto: u8) -> Seq<(u8, DegreeAlteration)>
    decreases upto,
{
    if upto == 0 {
        Seq::empty()
    } else {
        spec_degrees(bits, (upto - 1) as u8) + if spec_slot(bits, upto) != 0 {
            seq![(upto, spec_alteration_decode(spec_slot(bits, upto) as u8))]
        } else {
            Seq::empty()
        }
    }
}

/// A two-bit slot value is below 4, and the zero word has every slot and
/// both reserved bits clear.
proof fn lemma_slot_basics()
    by (bit_vector)
    ensures
        forall|x: u32, s: u32| #[trigger] ((x >> s) & 3) < 4,
        forall|s: u32| #[trigger] ((0u32 >> s) & 3) == 0,
        0u32 >> 30 == 0,
{
}

/// Writing value `v` at even bit offset `s` fills that slot with `v`, leaves
/// every other even slot alone, and leaves the top two bits alone.
proof fn lemma_set_slot(bits: u32, s: u32, s2: u32, v: u32)
    by (bit_vector)
    requires
        s <= 28,
        s2 <= 28,
        s % 2 == 0,
        s2 % 2 == 0,
        v <= 3,
    ensures
        (((bits & !(3u32 << s)) | (v << s)) >> s) & 3 == v,
        s2 != s ==> ((((bits & !(3u32 << s)) | (v << s)) >> s2) & 3) == ((bits >> s2) & 3),
        ((bits & !(3u32 << s)) | (v << s)) >> 30 == bits >> 30,
{
}

impl ChordFormula {
    /// Creates an empty chord formula with no degrees.
    pub fn empty() -> (r: Self)
        ensures
            r.0 == 0,
            forall|d: u8| 1 <= d <= 15 ==> spec_slot(r.0, d) == 0,
            r.0 >> 30 == 0,
    {
        proof {
            lemma_slot_basics();
        }
        ChordFormula(0)
    }

    /// Creates a chord formula from a raw `u32` value, as-is.
    ///
    /// No validation happens here: the caller may wrap a word whose slots
    /// never arise from [`ChordFormula::with_degree`], for instance one made
    /// by [`ChordFormula::union`].
    pub fn new(bits: u32) -> (r: Self)
        ensures
            r.0 == bits,
    {
        ChordFormula(bits)
    }

    /// Returns the raw `u32` value of the chord formula, exactly.
    pub fn bits(&self) -> (r: u32)
        ensures
            r == self.0,
    {
        self.0
    }

    /// Checks if the chord formula is empty (no degrees).
    pub fn is_empty(&self) -> (r: bool)
        ensures
            r == (self.0 == 0),
    {
        self.0 == 0
    }

    /// Returns a new formula whose slot for `degree` holds the code of
    /// `alteration`, every other slot unchanged.  Degree 0 or above 15 is a
    /// silent no-op returning `self` unchanged.
    pub fn with_degree(self, degree: u8, alteration: DegreeAlteration) -> (r: Self)
        ensures
            r == spec_with_degree(self, degree, alteration),
            1 <= degree <= 15 ==> spec_has_degree(r, degree, alteration),
            1 <= degree <= 15 ==> forall|d2: u8|
                1 <= d2 <= 15 && d2 != degree ==> spec_slot(r.0, d2) == spec_slot(self.0, d2),
            1 <= degree <= 15 ==> r.0 >> 30 == self.0 >> 30,
            (degree == 0 || degree > 15) ==> r == self,
    {
        if degree == 0 || degree > 15 {
            return self;
        }
        let value: u32 = match alteration {
            DegreeAlteration::Natural => 1,
            DegreeAlteration::Flat => 2,
            DegreeAlteration::Sharp => 3,
        };
        let shift: u32 = ((degree - 1) as u32) * 2;
        let mask: u32 = !(0b11u32 << shift);
        let new_bits: u32 = (self.0 & mask) | (value << shift);
        proof {
            lemma_set_slot(self.0, shift, shift, value);
            assert forall|d2: u8| 1 <= d2 <= 15 && d2 != degree implies spec_slot(
                new_bits,
                d2,
            ) == spec_slot(self.0, d2) by {
                lemma_set_slot(self.0, shift, slot_shift(d2), value);
            }
        }
        ChordFormula(new_bits)
    }

    /// Checks if `degree` is present with exactly the given alteration.
    /// Out-of-range degrees answer `false`.
    pub fn has_degree(self, degree: u8, alteration: DegreeAlteration) -> (r: bool)
        ensures
            r == spec_has_degree(self, degree, alteration),
    {
        if degree == 0 || degree > 15 {
            return false;
        }
        let expected: u32 = match alteration {
            DegreeAlteration::Natural => 1,
            DegreeAlteration::Flat => 2,
            DegreeAlteration::Sharp => 3,
        };
        let shift: u32 = ((degree - 1) as u32) * 2;
        let actual_value: u32 = (self.0 >> shift) & 0b11;
        actual_value == expected
    }

    /// Checks if any form of a degree (natural, flat or sharp) is present.
    /// Out-of-range degrees answer `false`.
    pub fn has_any_degree(&self, degree: u8) -> (r: bool)
        ensures
            r == (1 <= degree <= 15 && spec_slot(self.0, degree) != 0),
    {
        if degree == 0 || degree > 15 {
            return false;
        }
        let shift: u32 = ((degree - 1) as u32) * 2;
        let value: u32 = (self.0 >> shift) & 0b11;
        value != 0
    }

    /// Gets the alteration of a degree: `None` when the degree is absent or
    /// out of range, else the decoded slot value.
    pub fn get_degree_alteration(&self, degree: u8) -> (r: Option<DegreeAlteration>)
        ensures
            r == (if 1 <= degree <= 15 && spec_slot(self.0, degree) != 0 {
                Some(spec_alteration_decode(spec_slot(self.0, degree) as u8))
            } else {
                None::<DegreeAlteration>
            }),
    {
        if degree == 0 || degree > 15 {
            return None;
        }
        let shift: u32 = ((degree - 1) as u32) * 2;
        let value: u32 = (self.0 >> shift) & 0b11;
        proof {
            lemma_slot_basics();
        }
        match value {
            0 => None,
            1 => Some(DegreeAlteration::Natural),
            2 => Some(DegreeAlteration::Flat),
            3 => Some(DegreeAlteration::Sharp),
            _ => None,
        }
    }

    /// Returns all present degrees with their alterations, ascending by
    /// degree number.
    pub fn degrees(&self) -> (r: Vec<(u8, DegreeAlteration)>)
        ensures
            r@ == spec_degrees(self.0, 15),
    {
        let mut result: Vec<(u8, DegreeAlteration)> = Vec::new();
        for degree in 1u8..16u8
            invariant
                result@ == spec_degrees(self.0, (degree - 1) as u8),
        {
            if let Some(alteration) = self.get_degree_alteration(degree) {
                result.push((degree, alteration));
            }
            proof {
                assert(result@ =~= spec_degrees(self.0, degree));
            }
        }
        result
    }

    /// Combines two chord formulas by bitwise OR of the raw words.
    ///
    /// This is not a slot-aware merge: when the operands put different
    /// non-zero codes into the same slot, the OR of the codes can be a code
    /// present in neither operand (flat `10` OR sharp `11` is sharp `11`).
    /// That raw behaviour is deliberate and kept as-is.
    pub fn union(self, other: ChordFormula) -> (r: Self)
        ensures
            r.0 == self.0 | other.0,
    {
        ChordFormula(self.0 | other.0)
    }
}

/// Every entry of a degree list names a degree between 1 and `upto`.
proof fn lemma_degrees_bounded(bits: u32, upto: u8)
    ensures
        forall|i: int|
            0 <= i < spec_degrees(bits, upto).len() ==> 1 <= (#[trigger] spec_degrees(
                bits,
                upto,
            )[i]).0 <= upto,
    decreases upto,
{
    if upto > 0 {
        lemma_degrees_bounded(bits, (upto - 1) as u8);
        let prefix = spec_degrees(bits, (upto - 1) as u8);
        let whole = spec_degrees(bits, upto);
        assert forall|i: int| 0 <= i < whole.len() implies 1 <= (#[trigger] whole[i]).0 <= upto by {
            if i < prefix.len() {
                assert(whole[i] == prefix[i]);
            } else {
                assert(whole[i].0 == upto);
            }
        }
    }
}

/// Up to bound `upto`, the degree list holds an entry for a degree exactly
/// when that degree's slot is occupied, and the entry carries the decoded
/// slot value.
proof fn lemma_degrees_members_upto(bits: u32, upto: u8, degree: u8, alteration: DegreeAlteration)
    ensures
        spec_degrees(bits, upto).contains((degree, alteration)) == (1 <= degree <= upto
            && spec_slot(bits, degree) != 0 && spec_alteration_decode(
            spec_slot(bits, degree) as u8,
        ) == alteration),
    decreases upto,
{
    if upto > 0 {
        lemma_degrees_members_upto(bits, (upto - 1) as u8, degree, alteration);
        let prefix = spec_degrees(bits, (upto - 1) as u8);
        let whole = spec_degrees(bits, upto);
        if prefix.contains((degree, alteration)) {
            let i = choose|i: int| 0 <= i < prefix.len() && prefix[i] == (degree, alteration);
            assert(whole[i] == (degree, alteration));
        }
        if whole.contains((degree, alteration)) && !prefix.contains((degree, alteration)) {
            let i = choose|i: int| 0 <= i < whole.len() && whole[i] == (degree, alteration);
            if i < prefix.len() {
                assert(prefix[i] == (degree, alteration));
            }
        }
        if degree == upto && spec_slot(bits, degree) != 0 && spec_alteration_decode(
            spec_slot(bits, degree) as u8,
        ) == alteration {
            assert(whole[whole.len() - 1] == (degree, alteration));
        }
    }
}

/// The degree list holds exactly the present degrees with their
/// alterations: an entry for a degree and alteration stands in the list
/// just when the formula has that degree with that alteration.
pub proof fn lemma_degrees_members(bits: u32, degree: u8, alteration: DegreeAlteration)
    ensures
        spec_degrees(bits, 15).contains((degree, alteration)) == spec_has_degree(
            ChordFormula(bits),
            degree,
            alteration,
        ),
{
    lemma_slot_basics();
    lemma_degrees_members_upto(bits, 15, degree, alteration);
}

/// The degree list is strictly ascending by degree number.
pub proof fn lemma_degrees_ascending(bits: u32)
    ensures
        forall|i: int, j: int|
            0 <= i < j < spec_degrees(bits, 15).len() ==> (#[trigger] spec_degrees(bits, 15)[i]).0
                < (#[trigger] spec_degrees(bits, 15)[j]).0,
{
    lemma_degrees_ascending_upto(bits, 15);
}

/// Up to bound `upto`, the degree list is strictly ascending by degree
/// number.
proof fn lemma_degrees_ascending_upto(bits: u32, upto: u8)
    ensures
        forall|i: int, j: int|
            0 <= i < j < spec_degrees(bits, upto).len() ==> (#[trigger] spec_degrees(
                bits,
                upto,
            )[i]).0 < (#[trigger] spec_degrees(bits, upto)[j]).0,
    decreases upto,
{
    if upto > 0 {
        lemma_degrees_ascending_upto(bits, (upto - 1) as u8);
        lemma_degrees_bounded(bits, (upto - 1) as u8);
        let prefix = spec_degrees(bits, (upto - 1) as u8);
        let whole = spec_degrees(bits, upto);
        assert forall|i: int, j: int| 0 <= i < j < whole.len() implies (#[trigger] whole[i]).0 < (
            #[trigger] whole[j]).0 by {
            assert(whole[i] == prefix[i]);
            if j < prefix.len() {
                assert(whole[j] == prefix[j]);
            } else {
                assert(whole[j].0 == upto);
            }
        }
    }
}

/// Wrapping a raw word and reading it back returns the same word, for every
/// `u32`: the pair `new`/`bits` is the identity on the wire format.
pub proof fn lemma_chord_formula_round_trip(x: u32)
    ensures
        ChordFormula(x).0 == x,
{
}

/// Writing a degree into the empty formula reads back: the written
/// alteration is present, and no other alteration of that degree is.
pub proof fn lemma_with_degree_read_back(degree: u8, written: DegreeAlteration, other: DegreeAlteration)
    requires
        1 <= degree <= 15,
    ensures
        spec_has_degree(spec_with_degree(ChordFormula(0), degree, written), degree, written),
        other != written ==> !spec_has_degree(
            spec_with_degree(ChordFormula(0), degree, written),
            degree,
            other,
        ),
{
    lemma_set_slot(0, slot_shift(degree), slot_shift(degree), spec_alteration_code(written) as u32);
}

/// Union of chord formulas is commutative, associative and idempotent: it
/// is a plain bitwise OR of the raw words.
pub proof fn lemma_chord_union_laws(x: ChordFormula, y: ChordFormula, z: ChordFormula)
    ensures
        x.0 | y.0 == y.0 | x.0,
        (x.0 | y.0) | z.0 == x.0 | (y.0 | z.0),
        x.0 | x.0 == x.0,
{
    let (a, b, c) = (x.0, y.0, z.0);
    assert((a | b) == (b | a) && (((a | b) | c) == (a | (b | c))) && ((a | a) == a))
        by (bit_vector);
}

impl ChordFormula {
    /// Major triad: 1 - 3 - 5
    pub fn major_triad() -> (r: Self)
        ensures
            spec_has_degree(r, 1, DegreeAlteration::Natural),
            spec_has_degree(r, 3, DegreeAlteration::Natural),
            spec_has_degree(r, 5, DegreeAlteration::Natural),
            forall|d: u8| 1 <= d <= 15 && d != 1 && d != 3 && d != 5 ==> spec_slot(r.0, d) == 0,
            r.0 >> 30 == 0,
    {
        proof {
            lemma_slot_basics();
        }
        ChordFormula(0)
            .with_degree(1, DegreeAlteration::Natural)
            .with_degree(3, DegreeAlteration::Natural)
            .with_degree(5, DegreeAlteration::Natural)
    }

    /// Minor triad: 1 - ♭3 - 5
    pub fn minor_triad() -> (r: Self)
        ensures
            spec_has_degree(r, 1, DegreeAlteration::Natural),
            spec_has_degree(r, 3, DegreeAlteration::Flat),
            spec_has_degree(r, 5, DegreeAlteration::Natural),
            forall|d: u8| 1 <= d <= 15 && d != 1 && d != 3 && d != 5 ==> spec_slot(r.0, d) == 0,
            r.0 >> 30 == 0,
    {
        proof {
            lemma_slot_basics();
        }
        ChordFormula(0)
            .with_degree(1, DegreeAlteration::Natural)
            .with_degree(3, DegreeAlteration::Flat)
            .with_degree(5, DegreeAlteration::Natural)
    }

    /// Diminished triad: 1 - ♭3 - ♭5
    pub fn diminished_triad() -> (r: Self)
        ensures
            spec_has_degree(r, 1, DegreeAlteration::Natural),
            spec_has_degree(r, 3, DegreeAlteration::Flat),
            spec_has_degree(r, 5, DegreeAlteration::Flat),
            forall|d: u8| 1 <= d <= 15 && d != 1 && d != 3 && d != 5 ==> spec_slot(r.0, d) == 0,
            r.0 >> 30 == 0,
    {
        proof {
            lemma_slot_basics();
        }
        ChordFormula(0)
            .with_degree(1, DegreeAlteration::Natural)
            .with_degree(3, DegreeAlteration::Flat)
            .with_degree(5, DegreeAlteration::Flat)
    }

    /// Augmented triad: 1 - 3 - ♯5
    pub fn augmented_triad() -> (r: Self)
        ensures
            spec_has_degree(r, 1, DegreeAlteration::Natural),
            spec_has_degree(r, 3, DegreeAlteration::Natural),
            spec_has_degree(r, 5, DegreeAlteration::Sharp),
            forall|d: u8| 1 <= d <= 15 && d != 1 && d != 3 && d != 5 ==> spec_slot(r.0, d) == 0,
            r.0 >> 30 == 0,
    {
        proof {
            lemma_slot_basics();
        }
        ChordFormula(0)
            .with_degree(1, DegreeAlteration::Natural)
            .with_degree(3, DegreeAlteration::Natural)
            .with_degree(5, DegreeAlteration::Sharp)
    }

    /// Suspended 2nd: 1 - 2 - 5
    pub fn sus2() -> (r: Self)
        ensures
            spec_has_degree(r, 1, DegreeAlteration::Natural),
            spec_has_degree(r, 2, DegreeAlteration::Natural),
            spec_has_degree(r, 5, DegreeAlteration::Natural),
            forall|d: u8| 1 <= d <= 15 && d != 1 && d != 2 && d != 5 ==> spec_slot(r.0, d) == 0,
            r.0 >> 30 == 0,
    {
        proof {
            lemma_slot_basics();
        }
        ChordFormula(0)
            .with_degree(1, DegreeAlteration::Natural)
            .with_degree(2, DegreeAlteration::Natural)
            .with_degree(5, DegreeAlteration::Natural)
    }

    /// Suspended 4th: 1 - 4 - 5
    pub fn sus4() -> (r: Self)
        ensures
            spec_has_degree(r, 1, DegreeAlteration::Natural),
            spec_has_degree(r, 4, DegreeAlteration::Natural),
            spec_has_degree(r, 5, DegreeAlteration::Natural),
            forall|d: u8| 1 <= d <= 15 && d != 1 && d != 4 && d != 5 ==> spec_slot(r.0, d) == 0,
            r.0 >> 30 == 0,
    {
        proof {
            lemma_slot_basics();
        }
        ChordFormula(0)
            .with_degree(1, DegreeAlteration::Natural)
            .with_degree(4, DegreeAlteration::Natural)
            .with_degree(5, DegreeAlteration::Natural)
    }

    /// Major 7th: 1 - 3 - 5 - 7
    pub fn major_seventh() -> (r: Self)
        ensures
            spec_has_degree(r, 1, DegreeAlteration::Natural),
            spec_has_degree(r, 3, DegreeAlteration::Natural),
            spec_has_degree(r, 5, DegreeAlteration::Natural),
            spec_has_degree(r, 7, DegreeAlteration::Natural),
            forall|d: u8| 1 <= d <= 15 && d != 1 && d != 3 && d != 5 && d != 7 ==> spec_slot(r.0, d) == 0,
            r.0 >> 30 == 0,
    {
        proof {
            lemma_slot_basics();
        }
        ChordFormula(0)
            .with_degree(1, DegreeAlteration::Natural)
            .with_degree(3, DegreeAlteration::Natural)
            .with_degree(5, DegreeAlteration::Natural)
            .with_degree(7, DegreeAlteration::Natural)
    }

    /// Minor 7th: 1 - ♭3 - 5 - ♭7
    pub fn minor_seventh() -> (r: Self)
        ensures
            spec_has_degree(r, 1, DegreeAlteration::Natural),
            spec_has_degree(r, 3, DegreeAlteration::Flat),
            spec_has_degree(r, 5, DegreeAlteration::Natural),
            spec_has_degree(r, 7, DegreeAlteration::Flat),
            forall|d: u8| 1 <= d <= 15 && d != 1 && d != 3 && d != 5 && d != 7 ==> spec_slot(r.0, d) == 0,
            r.0 >> 30 == 0,
    {
        proof {
            lemma_slot_basics();
        }
        ChordFormula(0)
            .with_degree(1, DegreeAlteration::Natural)
            .with_degree(3, DegreeAlteration::Flat)
            .with_degree(5, DegreeAlteration::Natural)
            .with_degree(7, DegreeAlteration::Flat)
    }

    /// Dominant 7th: 1 - 3 - 5 - ♭7
    pub fn dominant_seventh() -> (r: Self)
        ensures
            spec_has_degree(r, 1, DegreeAlteration::Natural),
            spec_has_degree(r, 3, DegreeAlteration::Natural),
            spec_has_degree(r, 5, DegreeAlteration::Natural),
            spec_has_degree(r, 7, DegreeAlteration::Flat),
            forall|d: u8| 1 <= d <= 15 && d != 1 && d != 3 && d != 5 && d != 7 ==> spec_slot(r.0, d) == 0,
            r.0 >> 30 == 0,
    {
        proof {
            lemma_slot_basics();
        }
        ChordFormula(0)
            .with_degree(1, DegreeAlteration::Natural)
            .with_degree(3, DegreeAlteration::Natural)
            .with_degree(5, DegreeAlteration::Natural)
            .with_degree(7, DegreeAlteration::Flat)
    }

    /// Minor major 7th: 1 - ♭3 - 5 - 7
    pub fn minor_major_seventh() -> (r: Self)
        ensures
            spec_has_degree(r, 1, DegreeAlteration::Natural),
            spec_has_degree(r, 3, DegreeAlteration::Flat),
            spec_has_degree(r, 5, DegreeAlteration::Natural),
            spec_has_degree(r, 7, DegreeAlteration::Natural),
            forall|d: u8| 1 <= d <= 15 && d != 1 && d != 3 && d != 5 && d != 7 ==> spec_slot(r.0, d) == 0,
            r.0 >> 30 == 0,
    {
        proof {
            lemma_slot_basics();
        }
        ChordFormula(0)
            .with_degree(1, DegreeAlteration::Natural)
            .with_degree(3, DegreeAlteration::Flat)
            .with_degree(5, DegreeAlteration::Natural)
            .with_degree(7, DegreeAlteration::Natural)
    }

    /// Half-diminished 7th: 1 - ♭3 - ♭5 - ♭7
    pub fn half_diminished_seventh() -> (r: Self)
        ensures
            spec_has_degree(r, 1, DegreeAlteration::Natural),
            spec_has_degree(r, 3, DegreeAlteration::Flat),
            spec_has_degree(r, 5, DegreeAlteration::Flat),
            spec_has_degree(r, 7, DegreeAlteration::Flat),
            forall|d: u8| 1 <= d <= 15 && d != 1 && d != 3 && d != 5 && d != 7 ==> spec_slot(r.0, d) == 0,
            r.0 >> 30 == 0,
    {
        proof {
            lemma_slot_basics();
        }
        ChordFormula(0)
            .with_degree(1, DegreeAlteration::Natural)
            .with_degree(3, DegreeAlteration::Flat)
            .with_degree(5, DegreeAlteration::Flat)
            .with_degree(7, DegreeAlteration::Flat)
    }

    /// Fully diminished 7th: 1 - ♭3 - ♭5 - ♭♭7 (double flat 7th, written as the enharmonic major 6th)
    pub fn fully_diminished_seventh() -> (r: Self)
        ensures
            spec_has_degree(r, 1, DegreeAlteration::Natural),
            spec_has_degree(r, 3, DegreeAlteration::Flat),
            spec_has_degree(r, 5, DegreeAlteration::Flat),
            spec_has_degree(r, 6, DegreeAlteration::Natural),
            forall|d: u8| 1 <= d <= 15 && d != 1 && d != 3 && d != 5 && d != 6 ==> spec_slot(r.0, d) == 0,
            r.0 >> 30 == 0,
    {
        proof {
            lemma_slot_basics();
        }
        ChordFormula(0)
            .with_degree(1, DegreeAlteration::Natural)
            .with_degree(3, DegreeAlteration::Flat)
            .with_degree(5, DegreeAlteration::Flat)
            .with_degree(6, DegreeAlteration::Natural)
    }

    /// Augmented major 7th: 1 - 3 - ♯5 - 7
    pub fn augmented_major_seventh() -> (r: Self)
        ensures
            spec_has_degree(r, 1, DegreeAlteration::Natural),
            spec_has_degree(r, 3, DegreeAlteration::Natural),
            spec_has_degree(r, 5, DegreeAlteration::Sharp),
            spec_has_degree(r, 7, DegreeAlteration::Natural),
            forall|d: u8| 1 <= d <= 15 && d != 1 && d != 3 && d != 5 && d != 7 ==> spec_slot(r.0, d) == 0,
            r.0 >> 30 == 0,
    {
        proof {
            lemma_slot_basics();
        }
        ChordFormula(0)
            .with_degree(1, DegreeAlteration::Natural)
            .with_degree(3, DegreeAlteration::Natural)
            .with_degree(5, DegreeAlteration::Sharp)
            .with_degree(7, DegreeAlteration::Natural)
    }

    /// Augmented 7th: 1 - 3 - ♯5 - ♭7
    pub fn augmented_seventh() -> (r: Self)
        ensures
            spec_has_degree(r, 1, DegreeAlteration::Natural),
            spec_has_degree(r, 3, DegreeAlteration::Natural),
            spec_has_degree(r, 5, DegreeAlteration::Sharp),
            spec_has_degree(r, 7, DegreeAlteration::Flat),
            forall|d: u8| 1 <= d <= 15 && d != 1 && d != 3 && d != 5 && d != 7 ==> spec_slot(r.0, d) == 0,
            r.0 >> 30 == 0,
    {
        proof {
            lemma_slot_basics();
        }
        ChordFormula(0)
            .with_degree(1, DegreeAlteration::Natural)
            .with_degree(3, DegreeAlteration::Natural)
            .with_degree(5, DegreeAlteration::Sharp)
            .with_degree(7, DegreeAlteration::Flat)
    }

    /// Major 9th: 1 - 3 - 5 - 7 - 9
    pub fn major_ninth() -> (r: Self)
        ensures
            spec_has_degree(r, 1, DegreeAlteration::Natural),
            spec_has_degree(r, 3, DegreeAlteration::Natural),
            spec_has_degree(r, 5, DegreeAlteration::Natural),
            spec_has_degree(r, 7, DegreeAlteration::Natural),
            spec_has_degree(r, 9, DegreeAlteration::Natural),
            forall|d: u8| 1 <= d <= 15 && d != 1 && d != 3 && d != 5 && d != 7 && d != 9 ==> spec_slot(r.0, d) == 0,
            r.0 >> 30 == 0,
    {
        proof {
            lemma_slot_basics();
        }
        ChordFormula(0)
            .with_degree(1, DegreeAlteration::Natural)
            .with_degree(3, DegreeAlteration::Natural)
            .with_degree(5, DegreeAlteration::Natural)
            .with_degree(7, DegreeAlteration::Natural)
            .with_degree(9, DegreeAlteration::Natural)
    }

    /// Minor 9th: 1 - ♭3 - 5 - ♭7 - 9
    pub fn minor_ninth() -> (r: Self)
        ensures
            spec_has_degree(r, 1, DegreeAlteration::Natural),
            spec_has_degree(r, 3, DegreeAlteration::Flat),
            spec_has_degree(r, 5, DegreeAlteration::Natural),
            spec_has_degree(r, 7, DegreeAlteration::Flat),
            spec_has_degree(r, 9, DegreeAlteration::Natural),
            forall|d: u8| 1 <= d <= 15 && d != 1 && d != 3 && d != 5 && d != 7 && d != 9 ==> spec_slot(r.0, d) == 0,
            r.0 >> 30 == 0,
    {
        proof {
            lemma_slot_basics();
        }
        ChordFormula(0)
            .with_degree(1, DegreeAlteration::Natural)
            .with_degree(3, DegreeAlteration::Flat)
            .with_degree(5, DegreeAlteration::Natural)
            .with_degree(7, DegreeAlteration::Flat)
            .with_degree(9, DegreeAlteration::Natural)
    }

    /// Dominant 9th: 1 - 3 - 5 - ♭7 - 9
    pub fn dominant_ninth() -> (r: Self)
        ensures
            spec_has_degree(r, 1, DegreeAlteration::Natural),
            spec_has_degree(r, 3, DegreeAlteration::Natural),
            spec_has_degree(r, 5, DegreeAlteration::Natural),
            spec_has_degree(r, 7, DegreeAlteration::Flat),
            spec_has_degree(r, 9, DegreeAlteration::Natural),
            forall|d: u8| 1 <= d <= 15 && d != 1 && d != 3 && d != 5 && d != 7 && d != 9 ==> spec_slot(r.0, d) == 0,
            r.0 >> 30 == 0,
    {
        proof {
            lemma_slot_basics();
        }
        ChordFormula(0)
            .with_degree(1, DegreeAlteration::Natural)
            .with_degree(3, DegreeAlteration::Natural)
            .with_degree(5, DegreeAlteration::Natural)
            .with_degree(7, DegreeAlteration::Flat)
            .with_degree(9, DegreeAlteration::Natural)
    }

    /// Dominant 7♭9: 1 - 3 - 5 - ♭7 - ♭9
    pub fn dominant_seventh_flat_ninth() -> (r: Self)
        ensures
            spec_has_degree(r, 1, DegreeAlteration::Natural),
            spec_has_degree(r, 3, DegreeAlteration::Natural),
            spec_has_degree(r, 5, DegreeAlteration::Natural),
            spec_has_degree(r, 7, DegreeAlteration::Flat),
            spec_has_degree(r, 9, DegreeAlteration::Flat),
            forall|d: u8| 1 <= d <= 15 && d != 1 && d != 3 && d != 5 && d != 7 && d != 9 ==> spec_slot(r.0, d) == 0,
            r.0 >> 30 == 0,
    {
        proof {
            lemma_slot_basics();
        }
        ChordFormula(0)
            .with_degree(1, DegreeAlteration::Natural)
            .with_degree(3, DegreeAlteration::Natural)
            .with_degree(5, DegreeAlteration::Natural)
            .with_degree(7, DegreeAlteration::Flat)
            .with_degree(9, DegreeAlteration::Flat)
    }

    /// Dominant 7♯9: 1 - 3 - 5 - ♭7 - ♯9
    pub fn dominant_seventh_sharp_ninth() -> (r: Self)
        ensures
            spec_has_degree(r, 1, DegreeAlteration::Natural),
            spec_has_degree(r, 3, DegreeAlteration::Natural),
            spec_has_degree(r, 5, DegreeAlteration::Natural),
            spec_has_degree(r, 7, DegreeAlteration::Flat),
            spec_has_degree(r, 9, DegreeAlteration::Sharp),
            forall|d: u8| 1 <= d <= 15 && d != 1 && d != 3 && d != 5 && d != 7 && d != 9 ==> spec_slot(r.0, d) == 0,
            r.0 >> 30 == 0,
    {
        proof {
            lemma_slot_basics();
        }
        ChordFormula(0)
            .with_degree(1, DegreeAlteration::Natural)
            .with_degree(3, DegreeAlteration::Natural)
            .with_degree(5, DegreeAlteration::Natural)
            .with_degree(7, DegreeAlteration::Flat)
            .with_degree(9, DegreeAlteration::Sharp)
    }

    /// Major 11th: 1 - 3 - 5 - 7 - 9 - 11
    pub fn major_eleventh() -> (r: Self)
        ensures
            spec_has_degree(r, 1, DegreeAlteration::Natural),
            spec_has_degree(r, 3, DegreeAlteration::Natural),
            spec_has_degree(r, 5, DegreeAlteration::Natural),
            spec_has_degree(r, 7, DegreeAlteration::Natural),
            spec_has_degree(r, 9, DegreeAlteration::Natural),
            spec_has_degree(r, 11, DegreeAlteration::Natural),
            forall|d: u8| 1 <= d <= 15 && d != 1 && d != 3 && d != 5 && d != 7 && d != 9 && d != 11 ==> spec_slot(r.0, d) == 0,
            r.0 >> 30 == 0,
    {
        proof {
            lemma_slot_basics();
        }
        ChordFormula(0)
            .with_degree(1, DegreeAlteration::Natural)
            .with_degree(3, DegreeAlteration::Natural)
            .with_degree(5, DegreeAlteration::Natural)
            .with_degree(7, DegreeAlteration::Natural)
            .with_degree(9, DegreeAlteration::Natural)
            .with_degree(11, DegreeAlteration::Natural)
    }

    /// Minor 11th: 1 - ♭3 - 5 - ♭7 - 9 - 11
    pub fn minor_eleventh() -> (r: Self)
        ensures
            spec_has_degree(r, 1, DegreeAlteration::Natural),
            spec_has_degree(r, 3, DegreeAlteration::Flat),
            spec_has_degree(r, 5, DegreeAlteration::Natural),
            spec_has_degree(r, 7, DegreeAlteration::Flat),
            spec_has_degree(r, 9, DegreeAlteration::Natural),
            spec_has_degree(r, 11, DegreeAlteration::Natural),
            forall|d: u8| 1 <= d <= 15 && d != 1 && d != 3 && d != 5 && d != 7 && d != 9 && d != 11 ==> spec_slot(r.0, d) == 0,
            r.0 >> 30 == 0,
    {
        proof {
            lemma_slot_basics();
        }
        ChordFormula(0)
            .with_degree(1, DegreeAlteration::Natural)
            .with_degree(3, DegreeAlteration::Flat)
            .with_degree(5, DegreeAlteration::Natural)
            .with_degree(7, DegreeAlteration::Flat)
            .with_degree(9, DegreeAlteration::Natural)
            .with_degree(11, DegreeAlteration::Natural)
    }

    /// Dominant 11th: 1 - 3 - 5 - ♭7 - 9 - 11
    pub fn dominant_eleventh() -> (r: Self)
        ensures
            spec_has_degree(r, 1, DegreeAlteration::Natural),
            spec_has_degree(r, 3, DegreeAlteration::Natural),
            spec_has_degree(r, 5, DegreeAlteration::Natural),
            spec_has_degree(r, 7, DegreeAlteration::Flat),
            spec_has_degree(r, 9, DegreeAlteration::Natural),
            spec_has_degree(r, 11, DegreeAlteration::Natural),
            forall|d: u8| 1 <= d <= 15 && d != 1 && d != 3 && d != 5 && d != 7 && d != 9 && d != 11 ==> spec_slot(r.0, d) == 0,
            r.0 >> 30 == 0,
    {
        proof {
            lemma_slot_basics();
        }
        ChordFormula(0)
            .with_degree(1, DegreeAlteration::Natural)
            .with_degree(3, DegreeAlteration::Natural)
            .with_degree(5, DegreeAlteration::Natural)
            .with_degree(7, DegreeAlteration::Flat)
            .with_degree(9, DegreeAlteration::Natural)
            .with_degree(11, DegreeAlteration::Natural)
    }

    /// Dominant 7♯11: 1 - 3 - 5 - ♭7 - ♯11
    pub fn dominant_seventh_sharp_eleventh() -> (r: Self)
        ensures
            spec_has_degree(r, 1, DegreeAlteration::Natural),
            spec_has_degree(r, 3, DegreeAlteration::Natural),
            spec_has_degree(r, 5, DegreeAlteration::Natural),
            spec_has_degree(r, 7, DegreeAlteration::Flat),
            spec_has_degree(r, 11, DegreeAlteration::Sharp),
            forall|d: u8| 1 <= d <= 15 && d != 1 && d != 3 && d != 5 && d != 7 && d != 11 ==> spec_slot(r.0, d) == 0,
            r.0 >> 30 == 0,
    {
        proof {
            lemma_slot_basics();
        }
        ChordFormula(0)
            .with_degree(1, DegreeAlteration::Natural)
            .with_degree(3, DegreeAlteration::Natural)
            .with_degree(5, DegreeAlteration::Natural)
            .with_degree(7, DegreeAlteration::Flat)
            .with_degree(11, DegreeAlteration::Sharp)
    }

    /// Major 13th: 1 - 3 - 5 - 7 - 9 - 11 - 13
    pub fn major_thirteenth() -> (r: Self)
        ensures
            spec_has_degree(r, 1, DegreeAlteration::Natural),
            spec_has_degree(r, 3, DegreeAlteration::Natural),
            spec_has_degree(r, 5, DegreeAlteration::Natural),
            spec_has_degree(r, 7, DegreeAlteration::Natural),
            spec_has_degree(r, 9, DegreeAlteration::Natural),
            spec_has_degree(r, 11, DegreeAlteration::Natural),
            spec_has_degree(r, 13, DegreeAlteration::Natural),
            forall|d: u8| 1 <= d <= 15 && d != 1 && d != 3 && d != 5 && d != 7 && d != 9 && d != 11 && d != 13 ==> spec_slot(r.0, d) == 0,
            r.0 >> 30 == 0,
    {
        proof {
            lemma_slot_basics();
        }
        ChordFormula(0)
            .with_degree(1, DegreeAlteration::Natural)
            .with_degree(3, DegreeAlteration::Natural)
            .with_degree(5, DegreeAlteration::Natural)
            .with_degree(7, DegreeAlteration::Natural)
            .with_degree(9, DegreeAlteration::Natural)
            .with_degree(11, DegreeAlteration::Natural)
            .with_degree(13, DegreeAlteration::Natural)
    }

    /// Minor 13th: 1 - ♭3 - 5 - ♭7 - 9 - 11 - 13
    pub fn minor_thirteenth() -> (r: Self)
        ensures
            spec_has_degree(r, 1, DegreeAlteration::Natural),
            spec_has_degree(r, 3, DegreeAlteration::Flat),
            spec_has_degree(r, 5, DegreeAlteration::Natural),
            spec_has_degree(r, 7, DegreeAlteration::Flat),
            spec_has_degree(r, 9, DegreeAlteration::Natural),
            spec_has_degree(r, 11, DegreeAlteration::Natural),
            spec_has_degree(r, 13, DegreeAlteration::Natural),
            forall|d: u8| 1 <= d <= 15 && d != 1 && d != 3 && d != 5 && d != 7 && d != 9 && d != 11 && d != 13 ==> spec_slot(r.0, d) == 0,
            r.0 >> 30 == 0,
    {
        proof {
            lemma_slot_basics();
        }
        ChordFormula(0)
            .with_degree(1, DegreeAlteration::Natural)
            .with_degree(3, DegreeAlteration::Flat)
            .with_degree(5, DegreeAlteration::Natural)
            .with_degree(7, DegreeAlteration::Flat)
            .with_degree(9, DegreeAlteration::Natural)
            .with_degree(11, DegreeAlteration::Natural)
            .with_degree(13, DegreeAlteration::Natural)
    }

    /// Dominant 13th: 1 - 3 - 5 - ♭7 - 9 - 11 - 13
    pub fn dominant_thirteenth() -> (r: Self)
        ensures
            spec_has_degree(r, 1, DegreeAlteration::Natural),
            spec_has_degree(r, 3, DegreeAlteration::Natural),
            spec_has_degree(r, 5, DegreeAlteration::Natural),
            spec_has_degree(r, 7, DegreeAlteration::Flat),
            spec_has_degree(r, 9, DegreeAlteration::Natural),
            spec_has_degree(r, 11, DegreeAlteration::Natural),
            spec_has_degree(r, 13, DegreeAlteration::Natural),
            forall|d: u8| 1 <= d <= 15 && d != 1 && d != 3 && d != 5 && d != 7 && d != 9 && d != 11 && d != 13 ==> spec_slot(r.0, d) == 0,
            r.0 >> 30 == 0,
    {
        proof {
            lemma_slot_basics();
        }
        ChordFormula(0)
            .with_degree(1, DegreeAlteration::Natural)
            .with_degree(3, DegreeAlteration::Natural)
            .with_degree(5, DegreeAlteration::Natural)
            .with_degree(7, DegreeAlteration::Flat)
            .with_degree(9, DegreeAlteration::Natural)
            .with_degree(11, DegreeAlteration::Natural)
            .with_degree(13, DegreeAlteration::Natural)
    }

    /// Dominant 13♭9: 1 - 3 - 5 - ♭7 - ♭9 - 13
    pub fn dominant_thirteenth_flat_ninth() -> (r: Self)
        ensures
            spec_has_degree(r, 1, DegreeAlteration::Natural),
            spec_has_degree(r, 3, DegreeAlteration::Natural),
            spec_has_degree(r, 5, DegreeAlteration::Natural),
            spec_has_degree(r, 7, DegreeAlteration::Flat),
            spec_has_degree(r, 9, DegreeAlteration::Flat),
            spec_has_degree(r, 13, DegreeAlteration::Natural),
            forall|d: u8| 1 <= d <= 15 && d != 1 && d != 3 && d != 5 && d != 7 && d != 9 && d != 13 ==> spec_slot(r.0, d) == 0,
            r.0 >> 30 == 0,
    {
        proof {
            lemma_slot_basics();
        }
        ChordFormula(0)
            .with_degree(1, DegreeAlteration::Natural)
            .with_degree(3, DegreeAlteration::Natural)
            .with_degree(5, DegreeAlteration::Natural)
            .with_degree(7, DegreeAlteration::Flat)
            .with_degree(9, DegreeAlteration::Flat)
            .with_degree(13, DegreeAlteration::Natural)
    }

    /// Dominant 13♯11: 1 - 3 - 5 - ♭7 - 9 - ♯11 - 13
    pub fn dominant_thirteenth_sharp_eleventh() -> (r: Self)
        ensures
            spec_has_degree(r, 1, DegreeAlteration::Natural),
            spec_has_degree(r, 3, DegreeAlteration::Natural),
            spec_has_degree(r, 5, DegreeAlteration::Natural),
            spec_has_degree(r, 7, DegreeAlteration::Flat),
            spec_has_degree(r, 9, DegreeAlteration::Natural),
            spec_has_degree(r, 11, DegreeAlteration::Sharp),
            spec_has_degree(r, 13, DegreeAlteration::Natural),
            forall|d: u8| 1 <= d <= 15 && d != 1 && d != 3 && d != 5 && d != 7 && d != 9 && d != 11 && d != 13 ==> spec_slot(r.0, d) == 0,
            r.0 >> 30 == 0,
    {
        proof {
            lemma_slot_basics();
        }
        ChordFormula(0)
            .with_degree(1, DegreeAlteration::Natural)
            .with_degree(3, DegreeAlteration::Natural)
            .with_degree(5, DegreeAlteration::Natural)
            .with_degree(7, DegreeAlteration::Flat)
            .with_degree(9, DegreeAlteration::Natural)
            .with_degree(11, DegreeAlteration::Sharp)
            .with_degree(13, DegreeAlteration::Natural)
    }

    /// Add 9: 1 - 3 - 5 - 9 (no 7th)
    pub fn add_ninth() -> (r: Self)
        ensures
            spec_has_degree(r, 1, DegreeAlteration::Natural),
            spec_has_degree(r, 3, DegreeAlteration::Natural),
            spec_has_degree(r, 5, DegreeAlteration::Natural),
            spec_has_degree(r, 9, DegreeAlteration::Natural),
            forall|d: u8| 1 <= d <= 15 && d != 1 && d != 3 && d != 5 && d != 9 ==> spec_slot(r.0, d) == 0,
            r.0 >> 30 == 0,
    {
        proof {
            lemma_slot_basics();
        }
        ChordFormula(0)
            .with_degree(1, DegreeAlteration::Natural)
            .with_degree(3, DegreeAlteration::Natural)
            .with_degree(5, DegreeAlteration::Natural)
            .with_degree(9, DegreeAlteration::Natural)
    }

    /// Minor add 9: 1 - ♭3 - 5 - 9 (no 7th)
    pub fn minor_add_ninth() -> (r: Self)
        ensures
            spec_has_degree(r, 1, DegreeAlteration::Natural),
            spec_has_degree(r, 3, DegreeAlteration::Flat),
            spec_has_degree(r, 5, DegreeAlteration::Natural),
            spec_has_degree(r, 9, DegreeAlteration::Natural),
            forall|d: u8| 1 <= d <= 15 && d != 1 && d != 3 && d != 5 && d != 9 ==> spec_slot(r.0, d) == 0,
            r.0 >> 30 == 0,
    {
        proof {
            lemma_slot_basics();
        }
        ChordFormula(0)
            .with_degree(1, DegreeAlteration::Natural)
            .with_degree(3, DegreeAlteration::Flat)
            .with_degree(5, DegreeAlteration::Natural)
            .with_degree(9, DegreeAlteration::Natural)
    }

    /// 6th chord: 1 - 3 - 5 - 6
    pub fn sixth() -> (r: Self)
        ensures
            spec_has_degree(r, 1, DegreeAlteration::Natural),
            spec_has_degree(r, 3, DegreeAlteration::Natural),
            spec_has_degree(r, 5, DegreeAlteration::Natural),
            spec_has_degree(r, 6, DegreeAlteration::Natural),
            forall|d: u8| 1 <= d <= 15 && d != 1 && d != 3 && d != 5 && d != 6 ==> spec_slot(r.0, d) == 0,
            r.0 >> 30 == 0,
    {
        proof {
            lemma_slot_basics();
        }
        ChordFormula(0)
            .with_degree(1, DegreeAlteration::Natural)
            .with_degree(3, DegreeAlteration::Natural)
            .with_degree(5, DegreeAlteration::Natural)
            .with_degree(6, DegreeAlteration::Natural)
    }

    /// Minor 6th: 1 - ♭3 - 5 - 6
    pub fn minor_sixth() -> (r: Self)
        ensures
            spec_has_degree(r, 1, DegreeAlteration::Natural),
            spec_has_degree(r, 3, DegreeAlteration::Flat),
            spec_has_degree(r, 5, DegreeAlteration::Natural),
            spec_has_degree(r, 6, DegreeAlteration::Natural),
            forall|d: u8| 1 <= d <= 15 && d != 1 && d != 3 && d != 5 && d != 6 ==> spec_slot(r.0, d) == 0,
            r.0 >> 30 == 0,
    {
        proof {
            lemma_slot_basics();
        }
        ChordFormula(0)
            .with_degree(1, DegreeAlteration::Natural)
            .with_degree(3, DegreeAlteration::Flat)
            .with_degree(5, DegreeAlteration::Natural)
            .with_degree(6, DegreeAlteration::Natural)
    }

    /// 6/9 chord: 1 - 3 - 5 - 6 - 9
    pub fn six_nine() -> (r: Self)
        ensures
            spec_has_degree(r, 1, DegreeAlteration::Natural),
            spec_has_degree(r, 3, DegreeAlteration::Natural),
            spec_has_degree(r, 5, DegreeAlteration::Natural),
            spec_has_degree(r, 6, DegreeAlteration::Natural),
            spec_has_degree(r, 9, DegreeAlteration::Natural),
            forall|d: u8| 1 <= d <= 15 && d != 1 && d != 3 && d != 5 && d != 6 && d != 9 ==> spec_slot(r.0, d) == 0,
            r.0 >> 30 == 0,
    {
        proof {
            lemma_slot_basics();
        }
        ChordFormula(0)
            .with_degree(1, DegreeAlteration::Natural)
            .with_degree(3, DegreeAlteration::Natural)
            .with_degree(5, DegreeAlteration::Natural)
            .with_degree(6, DegreeAlteration::Natural)
            .with_degree(9, DegreeAlteration::Natural)
    }

    /// Minor 6/9: 1 - ♭3 - 5 - 6 - 9
    pub fn minor_six_nine() -> (r: Self)
        ensures
            spec_has_degree(r, 1, DegreeAlteration::Natural),
            spec_has_degree(r, 3, DegreeAlteration::Flat),
            spec_has_degree(r, 5, DegreeAlteration::Natural),
            spec_has_degree(r, 6, DegreeAlteration::Natural),
            spec_has_degree(r, 9, DegreeAlteration::Natural),
            forall|d: u8| 1 <= d <= 15 && d != 1 && d != 3 && d != 5 && d != 6 && d != 9 ==> spec_slot(r.0, d) == 0,
            r.0 >> 30 == 0,
    {
        proof {
            lemma_slot_basics();
        }
        ChordFormula(0)
            .with_degree(1, DegreeAlteration::Natural)
            .with_degree(3, DegreeAlteration::Flat)
            .with_degree(5, DegreeAlteration::Natural)
            .with_degree(6, DegreeAlteration::Natural)
            .with_degree(9, DegreeAlteration::Natural)
    }

    /// Altered dominant: 1 - 3 - ♭7 - ♭9 - ♯9 - ♯11 - ♭13 (the flat and sharp 9 share one slot; the later sharp 9 wins)
    pub fn altered_dominant() -> (r: Self)
        ensures
            spec_has_degree(r, 1, DegreeAlteration::Natural),
            spec_has_degree(r, 3, DegreeAlteration::Natural),
            spec_has_degree(r, 7, DegreeAlteration::Flat),
            spec_has_degree(r, 9, DegreeAlteration::Sharp),
            spec_has_degree(r, 11, DegreeAlteration::Sharp),
            spec_has_degree(r, 13, DegreeAlteration::Flat),
            forall|d: u8| 1 <= d <= 15 && d != 1 && d != 3 && d != 7 && d != 9 && d != 11 && d != 13 ==> spec_slot(r.0, d) == 0,
            r.0 >> 30 == 0,
    {
        proof {
            lemma_slot_basics();
        }
        ChordFormula(0)
            .with_degree(1, DegreeAlteration::Natural)
            .with_degree(3, DegreeAlteration::Natural)
            .with_degree(7, DegreeAlteration::Flat)
            .with_degree(9, DegreeAlteration::Flat)
            .with_degree(9, DegreeAlteration::Sharp)
            .with_degree(11, DegreeAlteration::Sharp)
            .with_degree(13, DegreeAlteration::Flat)
    }

    /// Dominant 7♯5: 1 - 3 - ♯5 - ♭7
    pub fn dominant_seventh_sharp_fifth() -> (r: Self)
        ensures
            spec_has_degree(r, 1, DegreeAlteration::Natural),
            spec_has_degree(r, 3, DegreeAlteration::Natural),
            spec_has_degree(r, 5, DegreeAlteration::Sharp),
            spec_has_degree(r, 7, DegreeAlteration::Flat),
            forall|d: u8| 1 <= d <= 15 && d != 1 && d != 3 && d != 5 && d != 7 ==> spec_slot(r.0, d) == 0,
            r.0 >> 30 == 0,
    {
        proof {
            lemma_slot_basics();
        }
        ChordFormula(0)
            .with_degree(1, DegreeAlteration::Natural)
            .with_degree(3, DegreeAlteration::Natural)
            .with_degree(5, DegreeAlteration::Sharp)
            .with_degree(7, DegreeAlteration::Flat)
    }

    /// Dominant 7♭5: 1 - 3 - ♭5 - ♭7
    pub fn dominant_seventh_flat_fifth() -> (r: Self)
        ensures
            spec_has_degree(r, 1, DegreeAlteration::Natural),
            spec_has_degree(r, 3, DegreeAlteration::Natural),
            spec_has_degree(r, 5, DegreeAlteration::Flat),
            spec_has_degree(r, 7, DegreeAlteration::Flat),
            forall|d: u8| 1 <= d <= 15 && d != 1 && d != 3 && d != 5 && d != 7 ==> spec_slot(r.0, d) == 0,
            r.0 >> 30 == 0,
    {
        proof {
            lemma_slot_basics();
        }
        ChordFormula(0)
            .with_degree(1, DegreeAlteration::Natural)
            .with_degree(3, DegreeAlteration::Natural)
            .with_degree(5, DegreeAlteration::Flat)
            .with_degree(7, DegreeAlteration::Flat)
    }
}



/// The text of one degree entry: the alteration's symbol, then the degree
/// number in decimal.
pub open spec fn spec_degree_text(degree: u8, alteration: DegreeAlteration) -> Seq<char> {
    spec_alteration_symbol(alteration) + spec_decimal(degree as int)
}

/// Degree entries joined with single spaces.
pub open spec fn spec_joined_degrees(degs: Seq<(u8, DegreeAlteration)>) -> Seq<char>
    decreases degs.len(),
{
    if degs.len() == 0 {
        Seq::empty()
    } else if degs.len() == 1 {
        spec_degree_text(degs[0].0, degs[0].1)
    } else {
        spec_joined_degrees(degs.drop_last()) + seq![' '] + spec_degree_text(
            degs.last().0,
            degs.last().1,
        )
    }
}

/// The text of one degree entry, such as "1", "♭7" or "♯11".
fn degree_text(degree: u8, alteration: DegreeAlteration) -> (r: String)
    ensures
        r@ == spec_degree_text(degree, alteration),
{
    let mut s = alteration.symbol().to_owned();
    let digits = decimal_string(degree as u16);
    s.append(digits.as_str());
    s
}

impl ChordFormula {
    /// Renders the formula as its present degrees in ascending order,
    /// space-separated, each as the alteration symbol and the degree
    /// number (for instance "1 3 5 ♭7"); an empty formula renders as "∅".
    pub fn display_string(&self) -> (r: String)
        ensures
            self.0 == 0 ==> r@ == "∅"@,
            self.0 != 0 ==> r@ == spec_joined_degrees(spec_degrees(self.0, 15)),
    {
        if self.is_empty() {
            return "∅".to_owned();
        }
        let degs = self.degrees();
        let ghost all = degs@;
        let mut s = String::new();
        for i in 0..degs.len()
            invariant
                all == degs@,
                s@ == spec_joined_degrees(all.take(i as int)),
        {
            if i > 0 {
                s.append(" ");
            }
            let entry = degree_text(degs[i].0, degs[i].1);
            s.append(entry.as_str());
            proof {
                reveal_strlit(" ");
                assert(all.take(i + 1).drop_last() =~= all.take(i as int));
                assert(all.take(i + 1).last() == all[i as int]);
                assert(s@ =~= spec_joined_degrees(all.take(i + 1)));
            }
        }
        proof {
            assert(all.take(all.len() as int) =~= all);
        }
        s
    }
}

} // verus!
