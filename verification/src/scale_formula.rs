//! Scale formulas for representing musical scales using bit flags.
//!
//! A [`ScaleFormula`] stores a scale as one `u32`: bit `i` (for `i` below
//! 24) says that the semitone offset `i` from the root is present.  Two
//! octaves are covered so that extended harmony (9ths, 11ths, 13ths) can be
//! written down directly; bits 24 to 31 are reserved.  Union and
//! intersection work over the whole 24-bit domain, while
//! [`ScaleFormula::complement`] is deliberately scoped to the first octave
//! only.  The raw word is the wire format: [`ScaleFormula::new`] and
//! [`ScaleFormula::bits`] round-trip it bit for bit.

use crate::note::{spec_note_up, Note};
use crate::semitone::{Semitone, SEMITONES_IN_OCTAVE};
use crate::text::{padded_binary_string, spec_binary, spec_zero_padded};
use vstd::prelude::*;
use vstd::string::StringExecFns;

verus! {

/// A scale formula: one presence bit per semitone offset, over two octaves.
#[derive(Debug, Clone, Copy, PartialEq, Eq, Structural, Hash)]
pub struct ScaleFormula(pub u32);

/// Whether semitone offset `s` is present in the packed word; offsets of 24
/// and above are never present.
pub open spec fn spec_contains(bits: u32, s: u8) -> bool {
    s < 24 && ((bits >> (s as u32)) & 1) == 1
}

/// The number of set bits among the `n` lowest bits of the word.
pub open spec fn spec_count_ones(bits: u32, n: u8) -> nat
    decreases n,
{
    if n == 0 {
        0
    } else {
        spec_count_ones(bits, (n - 1) as u8) + if ((bits >> ((n - 1) as u32)) & 1) == 1 {
            1nat
        } else {
            0nat
        }
    }
}

/// The present semitone offsets below `n`, ascending.
pub open spec fn spec_semitones(bits: u32, n: u8) -> Seq<u8>
    decreases n,
{
    if n == 0 {
        Seq::empty()
    } else {
        spec_semitones(bits, (n - 1) as u8) + if spec_contains(bits, (n - 1) as u8) {
            seq![(n - 1) as u8]
        } else {
            Seq::empty()
        }
    }
}

/// The packed word that a list of semitone offsets builds up: one bit per
/// offset below 24, offsets of 24 and above silently dropped.
pub open spec fn spec_from_semitones(offsets: Seq<u8>) -> u32
    decreases offsets.len(),
{
    if offsets.len() == 0 {
        0u32
    } else {
        spec_from_semitones(offsets.drop_last()) | if offsets.last() < 24 {
            1u32 << (offsets.last() as u32)
        } else {
            0u32
        }
    }
}

/// How the bitwise operators move single bits: OR keeps a bit set in
/// either word, AND one set in both, and the masked NOT one clear in the
/// input and below position 12.
proof fn lemma_bitwise_members(a: u32, b: u32, s: u32)
    by (bit_vector)
    requires
        s < 32,
    ensures
        (((a | b) >> s) & 1 == 1) == (((a >> s) & 1 == 1) || ((b >> s) & 1 == 1)),
        (((a & b) >> s) & 1 == 1) == (((a >> s) & 1 == 1) && ((b >> s) & 1 == 1)),
        ((((!a) & 0xFFFu32) >> s) & 1 == 1) == (s < 12 && ((a >> s) & 1) != 1),
{
}

/// Testing a bit with a mask and reading it with a shift agree.
proof fn lemma_bit_test(x: u32, s: u32)
    by (bit_vector)
    requires
        s < 32,
    ensures
        ((x & (1u32 << s)) != 0) == (((x >> s) & 1) == 1),
{
}

impl ScaleFormula {
    /// Create a scale formula from a raw bit pattern, as-is.
    pub fn new(bits: u32) -> (r: Self)
        ensures
            r.0 == bits,
    {
        ScaleFormula(bits)
    }

    /// Create an empty scale formula (no notes).
    pub fn empty() -> (r: Self)
        ensures
            r.0 == 0,
            forall|s: u8| !spec_contains(r.0, s),
    {
        proof {
            assert forall|s: u8| !spec_contains(0u32, s) by {
                if s < 24 {
                    assert((0u32 >> (s as u32)) & 1 == 0) by (bit_vector);
                }
            }
        }
        ScaleFormula(0)
    }

    /// Create a chromatic scale formula: all 12 semitones of the first
    /// octave.
    pub fn chromatic() -> (r: Self)
        ensures
            r.0 == 0b1111_1111_1111u32,
            forall|s: u8| spec_contains(r.0, s) == (s < 12),
    {
        let result = ScaleFormula(0b1111_1111_1111);
        proof {
            assert forall|s: u8| spec_contains(result.0, s) == (s < 12) by {
                if s < 24 {
                    assert(((0b1111_1111_1111u32 >> (s as u32)) & 1 == 1) == (s < 12)) by (bit_vector)
                        requires
                            s < 24,
                    ;
                }
            }
        }
        result
    }

    /// Create a full chromatic scale formula: all 24 semitones across both
    /// octaves.
    pub fn chromatic_extended() -> (r: Self)
        ensures
            r.0 == 0b1111_1111_1111_1111_1111_1111u32,
            forall|s: u8| spec_contains(r.0, s) == (s < 24),
    {
        let result = ScaleFormula(0b1111_1111_1111_1111_1111_1111);
        proof {
            assert forall|s: u8| spec_contains(result.0, s) == (s < 24) by {
                if s < 24 {
                    assert(((0b1111_1111_1111_1111_1111_1111u32 >> (s as u32)) & 1 == 1) == (s < 24)) by (bit_vector)
                        requires
                            s < 24,
                    ;
                }
            }
        }
        result
    }

    /// Create a major scale formula (Ionian mode): semitones 0, 2, 4, 5,
    /// 7, 9 and 11.
    pub fn major() -> (r: Self)
        ensures
            r.0 == 0b1010_1011_0101u32,
            forall|s: u8| spec_contains(r.0, s) == (s == 0 || s == 2 || s == 4 || s == 5 || s == 7 || s == 9 || s == 11),
    {
        let result = ScaleFormula(0b1010_1011_0101);
        proof {
            assert forall|s: u8| spec_contains(result.0, s) == (s == 0 || s == 2 || s == 4 || s == 5 || s == 7 || s == 9 || s == 11) by {
                if s < 24 {
                    assert(((0b1010_1011_0101u32 >> (s as u32)) & 1 == 1) == (s == 0 || s == 2 || s == 4 || s == 5 || s == 7 || s == 9 || s == 11)) by (bit_vector)
                        requires
                            s < 24,
                    ;
                }
            }
        }
        result
    }

    /// Create an extended major scale formula: the major pattern repeated
    /// in both octaves, so the natural 9th, 11th and 13th are present.
    pub fn major_extended() -> (r: Self)
        ensures
            r.0 == 0b1010_1011_0101_1010_1011_0101u32,
            forall|s: u8| spec_contains(r.0, s) == (s == 0 || s == 2 || s == 4 || s == 5 || s == 7 || s == 9 || s == 11 || s == 12 || s == 14 || s == 16 || s == 17 || s == 19 || s == 21 || s == 23),
    {
        let result = ScaleFormula(0b1010_1011_0101_1010_1011_0101);
        proof {
            assert forall|s: u8| spec_contains(result.0, s) == (s == 0 || s == 2 || s == 4 || s == 5 || s == 7 || s == 9 || s == 11 || s == 12 || s == 14 || s == 16 || s == 17 || s == 19 || s == 21 || s == 23) by {
                if s < 24 {
                    assert(((0b1010_1011_0101_1010_1011_0101u32 >> (s as u32)) & 1 == 1) == (s == 0 || s == 2 || s == 4 || s == 5 || s == 7 || s == 9 || s == 11 || s == 12 || s == 14 || s == 16 || s == 17 || s == 19 || s == 21 || s == 23)) by (bit_vector)
                        requires
                            s < 24,
                    ;
                }
            }
        }
        result
    }

    /// Create a natural minor scale formula (Aeolian mode): semitones 0,
    /// 2, 3, 5, 7, 8 and 10.
    pub fn minor() -> (r: Self)
        ensures
            r.0 == 0b0101_1010_1101u32,
            forall|s: u8| spec_contains(r.0, s) == (s == 0 || s == 2 || s == 3 || s == 5 || s == 7 || s == 8 || s == 10),
    {
        let result = ScaleFormula(0b0101_1010_1101);
        proof {
            assert forall|s: u8| spec_contains(result.0, s) == (s == 0 || s == 2 || s == 3 || s == 5 || s == 7 || s == 8 || s == 10) by {
                if s < 24 {
                    assert(((0b0101_1010_1101u32 >> (s as u32)) & 1 == 1) == (s == 0 || s == 2 || s == 3 || s == 5 || s == 7 || s == 8 || s == 10)) by (bit_vector)
                        requires
                            s < 24,
                    ;
                }
            }
        }
        result
    }

    /// Create a pentatonic major scale formula: semitones 0, 2, 4, 7 and 9.
    pub fn pentatonic_major() -> (r: Self)
        ensures
            r.0 == 0b0010_1001_0101u32,
            forall|s: u8| spec_contains(r.0, s) == (s == 0 || s == 2 || s == 4 || s == 7 || s == 9),
    {
        let result = ScaleFormula(0b0010_1001_0101);
        proof {
            assert forall|s: u8| spec_contains(result.0, s) == (s == 0 || s == 2 || s == 4 || s == 7 || s == 9) by {
                if s < 24 {
                    assert(((0b0010_1001_0101u32 >> (s as u32)) & 1 == 1) == (s == 0 || s == 2 || s == 4 || s == 7 || s == 9)) by (bit_vector)
                        requires
                            s < 24,
                    ;
                }
            }
        }
        result
    }

    /// Create a pentatonic minor scale formula: semitones 0, 3, 5, 7 and 10.
    pub fn pentatonic_minor() -> (r: Self)
        ensures
            r.0 == 0b0100_1010_1001u32,
            forall|s: u8| spec_contains(r.0, s) == (s == 0 || s == 3 || s == 5 || s == 7 || s == 10),
    {
        let result = ScaleFormula(0b0100_1010_1001);
        proof {
            assert forall|s: u8| spec_contains(result.0, s) == (s == 0 || s == 3 || s == 5 || s == 7 || s == 10) by {
                if s < 24 {
                    assert(((0b0100_1010_1001u32 >> (s as u32)) & 1 == 1) == (s == 0 || s == 3 || s == 5 || s == 7 || s == 10)) by (bit_vector)
                        requires
                            s < 24,
                    ;
                }
            }
        }
        result
    }

    /// Create a blues scale formula: semitones 0, 3, 5, 6, 7 and 10.
    pub fn blues() -> (r: Self)
        ensures
            r.0 == 0b0100_1110_1001u32,
            forall|s: u8| spec_contains(r.0, s) == (s == 0 || s == 3 || s == 5 || s == 6 || s == 7 || s == 10),
    {
        let result = ScaleFormula(0b0100_1110_1001);
        proof {
            assert forall|s: u8| spec_contains(result.0, s) == (s == 0 || s == 3 || s == 5 || s == 6 || s == 7 || s == 10) by {
                if s < 24 {
                    assert(((0b0100_1110_1001u32 >> (s as u32)) & 1 == 1) == (s == 0 || s == 3 || s == 5 || s == 6 || s == 7 || s == 10)) by (bit_vector)
                        requires
                            s < 24,
                    ;
                }
            }
        }
        result
    }

    /// Create a scale formula from a list of semitone offsets; offsets of
    /// 24 and above are silently dropped.
    pub fn from_semitones(semitones: &[u8]) -> (r: Self)
        ensures
            r.0 == spec_from_semitones(semitones@),
    {
        let mut bits: u32 = 0;
        let ghost all = semitones@;
        for i in 0..semitones.len()
            invariant
                bits == spec_from_semitones(all.take(i as int)),
                all == semitones@,
        {
            let semitone = semitones[i];
            if semitone < 2 * SEMITONES_IN_OCTAVE {
                bits = bits | (1u32 << (semitone as u32));
            }
            proof {
                assert(all.take(i + 1).drop_last() =~= all.take(i as int));
                assert(all.take(i + 1).last() == all[i as int]);
                assert(bits | 0u32 == bits) by (bit_vector);
            }
        }
        proof {
            assert(all.take(semitones@.len() as int) =~= semitones@);
        }
        ScaleFormula(bits)
    }

    /// Check if a semitone offset is present in the scale formula; offsets
    /// of 24 and above answer `false`.
    pub fn contains_semitone(&self, semitone: u8) -> (r: bool)
        ensures
            r == spec_contains(self.0, semitone),
    {
        if semitone >= 2 * SEMITONES_IN_OCTAVE {
            return false;
        }
        proof {
            lemma_bit_test(self.0, semitone as u32);
        }
        (self.0 & (1u32 << (semitone as u32))) != 0
    }

    /// Get the number of notes in the scale: the population count of the
    /// whole raw word.
    pub fn note_count(&self) -> (r: u8)
        ensures
            r as nat == spec_count_ones(self.0, 32),
    {
        let mut count: u8 = 0;
        for i in 0u8..32u8
            invariant
                count as nat == spec_count_ones(self.0, i),
                count <= i,
        {
            if ((self.0 >> (i as u32)) & 1) == 1 {
                count += 1;
            }
        }
        count
    }

    /// Get all present semitone offsets as a vector, ascending, each below
    /// 24.
    pub fn semitones(&self) -> (r: Vec<u8>)
        ensures
            r@ == spec_semitones(self.0, 24),
    {
        let mut result: Vec<u8> = Vec::new();
        for i in 0u8..24u8
            invariant
                result@ == spec_semitones(self.0, i),
        {
            if self.contains_semitone(i) {
                result.push(i);
            }
            proof {
                assert(result@ =~= spec_semitones(self.0, (i + 1) as u8));
            }
        }
        result
    }

    /// Generate all notes of the scale from the given root, in ascending
    /// semitone order: one note per present offset, each the root
    /// transposed up by that offset (saturating at the top of the `u8`
    /// range).  The result holds exactly `note_count()` notes whenever the
    /// formula keeps to its 24-bit domain.
    pub fn notes_from_root(&self, root: Note) -> (r: Vec<Note>)
        ensures
            r@.len() == spec_semitones(self.0, 24).len(),
            forall|i: int|
                0 <= i < r@.len() ==> r@[i].0 == spec_note_up(root.0, spec_semitones(self.0, 24)[i]),
    {
        let offsets = self.semitones();
        let mut result: Vec<Note> = Vec::new();
        for i in 0..offsets.len()
            invariant
                offsets@ == spec_semitones(self.0, 24),
                result@.len() == i,
                forall|j: int|
                    0 <= j < i ==> result@[j].0 == spec_note_up(root.0, offsets@[j]),
        {
            let note = root + Semitone::new(offsets[i]);
            result.push(note);
        }
        result
    }

    /// Get the internal bit representation, exactly.
    pub fn bits(&self) -> (r: u32)
        ensures
            r == self.0,
    {
        self.0
    }

    /// Check if the scale formula is empty (no notes).
    pub fn is_empty(&self) -> (r: bool)
        ensures
            r == (self.0 == 0),
    {
        self.0 == 0
    }

    /// Check if the scale contains the root note (semitone offset 0).
    pub fn has_root(&self) -> (r: bool)
        ensures
            r == spec_contains(self.0, 0),
    {
        self.contains_semitone(0)
    }

    /// Union of two scale formulas: bitwise OR over the full domain, a
    /// true set union of the present semitones.
    pub fn union(self, other: ScaleFormula) -> (r: ScaleFormula)
        ensures
            r.0 == self.0 | other.0,
            forall|s: u8|
                spec_contains(r.0, s) == (spec_contains(self.0, s) || spec_contains(other.0, s)),
    {
        let result = ScaleFormula(self.0 | other.0);
        proof {
            assert forall|s: u8|
                spec_contains(result.0, s) == (spec_contains(self.0, s) || spec_contains(
                    other.0,
                    s,
                )) by {
                if s < 24 {
                    lemma_bitwise_members(self.0, other.0, s as u32);
                }
            }
        }
        result
    }

    /// Intersection of two scale formulas: bitwise AND over the full
    /// domain, a true set intersection of the present semitones.
    pub fn intersection(self, other: ScaleFormula) -> (r: ScaleFormula)
        ensures
            r.0 == self.0 & other.0,
            forall|s: u8|
                spec_contains(r.0, s) == (spec_contains(self.0, s) && spec_contains(other.0, s)),
    {
        let result = ScaleFormula(self.0 & other.0);
        proof {
            assert forall|s: u8|
                spec_contains(result.0, s) == (spec_contains(self.0, s) && spec_contains(
                    other.0,
                    s,
                )) by {
                if s < 24 {
                    lemma_bitwise_members(self.0, other.0, s as u32);
                }
            }
        }
        result
    }

    /// Complement of the scale formula: bitwise NOT masked to the first 12
    /// bits only.
    ///
    /// Unlike every other operation of this type, the complement is scoped
    /// to a single octave; bits 12 to 23 of the result are always clear,
    /// whatever the input held there.  That asymmetry is deliberate and
    /// kept as-is.
    pub fn complement(self) -> (r: ScaleFormula)
        ensures
            r.0 == (!self.0) & 0xFFFu32,
            forall|s: u8| spec_contains(r.0, s) == (s < 12 && !spec_contains(self.0, s)),
    {
        let result = ScaleFormula((!self.0) & 0xFFF);
        proof {
            assert forall|s: u8|
                spec_contains(result.0, s) == (s < 12 && !spec_contains(self.0, s)) by {
                if s < 24 {
                    lemma_bitwise_members(self.0, self.0, s as u32);
                }
            }
        }
        result
    }
}

impl core::ops::BitOr<ScaleFormula> for ScaleFormula {
    type Output = ScaleFormula;

    /// The `|` operator is scale union.
    fn bitor(self, rhs: ScaleFormula) -> ScaleFormula {
        self.union(rhs)
    }
}

impl vstd::std_specs::ops::BitOrSpecImpl<ScaleFormula> for ScaleFormula {
    open spec fn obeys_bitor_spec() -> bool {
        true
    }

    open spec fn bitor_req(self, rhs: ScaleFormula) -> bool {
        true
    }

    open spec fn bitor_spec(self, rhs: ScaleFormula) -> ScaleFormula {
        ScaleFormula(self.0 | rhs.0)
    }
}

impl core::ops::BitAnd<ScaleFormula> for ScaleFormula {
    type Output = ScaleFormula;

    /// The `&` operator is scale intersection.
    fn bitand(self, rhs: ScaleFormula) -> ScaleFormula {
        self.intersection(rhs)
    }
}

impl vstd::std_specs::ops::BitAndSpecImpl<ScaleFormula> for ScaleFormula {
    open spec fn obeys_bitand_spec() -> bool {
        true
    }

    open spec fn bitand_req(self, rhs: ScaleFormula) -> bool {
        true
    }

    open spec fn bitand_spec(self, rhs: ScaleFormula) -> ScaleFormula {
        ScaleFormula(self.0 & rhs.0)
    }
}

impl core::ops::Not for ScaleFormula {
    type Output = ScaleFormula;

    /// The `!` operator is the single-octave complement.
    fn not(self) -> ScaleFormula {
        self.complement()
    }
}

impl vstd::std_specs::ops::NotSpecImpl for ScaleFormula {
    open spec fn obeys_not_spec() -> bool {
        true
    }

    open spec fn not_req(self) -> bool {
        true
    }

    open spec fn not_spec(self) -> ScaleFormula {
        ScaleFormula((!self.0) & 0xFFFu32)
    }
}

/// Wrapping a raw word and reading it back returns the same word, for every
/// `u32`: the pair `new`/`bits` is the identity on the wire format.
pub proof fn lemma_scale_formula_round_trip(x: u32)
    ensures
        ScaleFormula(x).0 == x,
{
}

/// Union of scale formulas is commutative, associative and idempotent: it
/// is a plain bitwise OR of the raw words.
pub proof fn lemma_scale_union_laws(x: ScaleFormula, y: ScaleFormula, z: ScaleFormula)
    ensures
        x.0 | y.0 == y.0 | x.0,
        (x.0 | y.0) | z.0 == x.0 | (y.0 | z.0),
        x.0 | x.0 == x.0,
{
    let (a, b, c) = (x.0, y.0, z.0);
    assert((a | b) == (b | a) && (((a | b) | c) == (a | (b | c))) && ((a | a) == a))
        by (bit_vector);
}

/// The complement always fits in the 12-bit first octave, whatever bits the
/// input held above position 11; taking it twice returns the input with
/// the bits at positions 12 and above cleared, not the input itself.
pub proof fn lemma_complement_first_octave(x: ScaleFormula)
    ensures
        (!x.0) & 0xFFFu32 <= 0xFFFu32,
        (!((!x.0) & 0xFFFu32)) & 0xFFFu32 == x.0 & 0xFFFu32,
{
    let a = x.0;
    assert(((!a) & 0xFFFu32 <= 0xFFFu32) && ((!((!a) & 0xFFFu32)) & 0xFFFu32 == a & 0xFFFu32))
        by (bit_vector);
}


/// The interval name of a semitone offset, from the fixed 12-entry table
/// indexed by the offset modulo 12: offsets in the second octave render
/// exactly like their first-octave counterparts.
pub open spec fn spec_interval_name(s: u8) -> Seq<char> {
    let slot = s % 12;
    if slot == 0 {
        "1"@
    } else if slot == 1 {
        "♭2"@
    } else if slot == 2 {
        "2"@
    } else if slot == 3 {
        "♭3"@
    } else if slot == 4 {
        "3"@
    } else if slot == 5 {
        "4"@
    } else if slot == 6 {
        "♭5"@
    } else if slot == 7 {
        "5"@
    } else if slot == 8 {
        "♭6"@
    } else if slot == 9 {
        "6"@
    } else if slot == 10 {
        "♭7"@
    } else {
        "7"@
    }
}

/// Interval names joined with ", ".
pub open spec fn spec_joined_intervals(semitones: Seq<u8>) -> Seq<char>
    decreases semitones.len(),
{
    if semitones.len() == 0 {
        Seq::empty()
    } else if semitones.len() == 1 {
        spec_interval_name(semitones[0])
    } else {
        spec_joined_intervals(semitones.drop_last()) + ", "@ + spec_interval_name(semitones.last())
    }
}

/// The interval name of one semitone offset, such as "1", "♭3" or "7".
fn interval_name(s: u8) -> (r: &'static str)
    ensures
        r@ == spec_interval_name(s),
{
    match s % 12 {
        0 => "1",
        1 => "♭2",
        2 => "2",
        3 => "♭3",
        4 => "3",
        5 => "4",
        6 => "♭5",
        7 => "5",
        8 => "♭6",
        9 => "6",
        10 => "♭7",
        _ => "7",
    }
}

impl ScaleFormula {
    /// Renders the scale as its present semitone offsets in ascending
    /// order, comma-separated, each under its first-octave interval name
    /// (for instance "1, 2, ♭3"): the name table has no distinct entries
    /// for the second octave, so offsets 12 to 23 render like 0 to 11.
    /// An empty scale renders as "Empty".
    pub fn display_string(&self) -> (r: String)
        ensures
            self.0 == 0 ==> r@ == "Empty"@,
            self.0 != 0 ==> r@ == spec_joined_intervals(spec_semitones(self.0, 24)),
    {
        if self.is_empty() {
            return "Empty".to_owned();
        }
        let offsets = self.semitones();
        let ghost all = offsets@;
        let mut s = String::new();
        for i in 0..offsets.len()
            invariant
                all == offsets@,
                s@ == spec_joined_intervals(all.take(i as int)),
        {
            if i > 0 {
                s.append(", ");
            }
            s.append(interval_name(offsets[i]));
            proof {
                assert(all.take(i + 1).drop_last() =~= all.take(i as int));
                assert(all.take(i + 1).last() == all[i as int]);
                assert(s@ =~= spec_joined_intervals(all.take(i + 1)));
            }
        }
        proof {
            assert(all.take(all.len() as int) =~= all);
        }
        s
    }

    /// Renders the raw word in binary, zero-padded to at least 12 digits,
    /// the way the one-octave bit pattern is usually written.
    pub fn binary_string(&self) -> (r: String)
        ensures
            r@ == spec_zero_padded(spec_binary(self.0 as int), 12),
    {
        padded_binary_string(self.0, 12)
    }
}


/// A single set bit tests positive at exactly its own position, and the
/// zero word tests negative everywhere.
proof fn lemma_single_bit(t: u32, s: u32)
    by (bit_vector)
    requires
        s < 32,
        t < 32,
    ensures
        (((1u32 << t) >> s) & 1 == 1) == (s == t),
        (0u32 >> s) & 1 == 0,
{
}

/// Every offset a semitone list holds is below `n`.
proof fn lemma_semitones_bounded(bits: u32, n: u8)
    ensures
        forall|i: int|
            0 <= i < spec_semitones(bits, n).len() ==> spec_semitones(bits, n)[i] < n,
    decreases n,
{
    if n > 0 {
        lemma_semitones_bounded(bits, (n - 1) as u8);
        let prefix = spec_semitones(bits, (n - 1) as u8);
        let whole = spec_semitones(bits, n);
        assert forall|i: int| 0 <= i < whole.len() implies whole[i] < n by {
            if i < prefix.len() {
                assert(whole[i] == prefix[i]);
            } else {
                assert(whole[i] == (n - 1) as u8);
            }
        }
    }
}

/// Up to bound `n`, the semitone list holds an offset exactly when its bit
/// is set.
proof fn lemma_semitones_members_upto(bits: u32, n: u8, s: u8)
    ensures
        spec_semitones(bits, n).contains(s) == (s < n && spec_contains(bits, s)),
    decreases n,
{
    if n > 0 {
        lemma_semitones_members_upto(bits, (n - 1) as u8, s);
        let prefix = spec_semitones(bits, (n - 1) as u8);
        let whole = spec_semitones(bits, n);
        if prefix.contains(s) {
            let i = choose|i: int| 0 <= i < prefix.len() && prefix[i] == s;
            assert(whole[i] == s);
        }
        if whole.contains(s) && !prefix.contains(s) {
            let i = choose|i: int| 0 <= i < whole.len() && whole[i] == s;
            if i < prefix.len() {
                assert(prefix[i] == s);
            }
        }
        if s == (n - 1) as u8 && spec_contains(bits, s) {
            assert(whole[whole.len() - 1] == s);
        }
    }
}

/// The semitone list holds exactly the present offsets: one entry per set
/// bit below 24, and nothing else.
pub proof fn lemma_semitones_members(bits: u32, s: u8)
    ensures
        spec_semitones(bits, 24).contains(s) == spec_contains(bits, s),
{
    lemma_semitones_members_upto(bits, 24, s);
}

/// The semitone list is strictly ascending.
pub proof fn lemma_semitones_ascending(bits: u32)
    ensures
        forall|i: int, j: int|
            0 <= i < j < spec_semitones(bits, 24).len() ==> spec_semitones(bits, 24)[i]
                < spec_semitones(bits, 24)[j],
{
    lemma_semitones_ascending_upto(bits, 24);
}

/// Up to bound `n`, the semitone list is strictly ascending.
proof fn lemma_semitones_ascending_upto(bits: u32, n: u8)
    ensures
        forall|i: int, j: int|
            0 <= i < j < spec_semitones(bits, n).len() ==> spec_semitones(bits, n)[i]
                < spec_semitones(bits, n)[j],
    decreases n,
{
    if n > 0 {
        lemma_semitones_ascending_upto(bits, (n - 1) as u8);
        lemma_semitones_bounded(bits, (n - 1) as u8);
        let prefix = spec_semitones(bits, (n - 1) as u8);
        let whole = spec_semitones(bits, n);
        assert forall|i: int, j: int| 0 <= i < j < whole.len() implies whole[i] < whole[j] by {
            assert(whole[i] == prefix[i]);
            if j < prefix.len() {
                assert(whole[j] == prefix[j]);
            } else {
                assert(whole[j] == (n - 1) as u8);
            }
        }
    }
}

/// Building a scale from offsets sets exactly the bits of the in-range
/// offsets: an offset is present afterwards when the list holds it and it
/// is below 24.
pub proof fn lemma_from_semitones_members(offsets: Seq<u8>, s: u8)
    ensures
        spec_contains(spec_from_semitones(offsets), s) == (s < 24 && offsets.contains(s)),
    decreases offsets.len(),
{
    if offsets.len() == 0 {
        if s < 24 {
            lemma_single_bit(0, s as u32);
        }
        assert(!offsets.contains(s));
    } else {
        lemma_from_semitones_members(offsets.drop_last(), s);
        let rest = spec_from_semitones(offsets.drop_last());
        let last = offsets.last();
        if s < 24 {
            let single = if last < 24 {
                1u32 << (last as u32)
            } else {
                0u32
            };
            lemma_bitwise_members(rest, single, s as u32);
            if last < 24 {
                lemma_single_bit(last as u32, s as u32);
            } else {
                lemma_single_bit(0, s as u32);
            }
        }
        if offsets.drop_last().contains(s) {
            let i = choose|i: int|
                0 <= i < offsets.drop_last().len() && offsets.drop_last()[i] == s;
            assert(offsets[i] == s);
        }
        if last == s {
            assert(offsets[offsets.len() - 1] == s);
        }
        if offsets.contains(s) && !offsets.drop_last().contains(s) && last != s {
            let i = choose|i: int| 0 <= i < offsets.len() && offsets[i] == s;
            if i < offsets.len() - 1 {
                assert(offsets.drop_last()[i] == s);
            }
        }
    }
}

/// Within the 24-bit domain the note count is the number of listed
/// semitone offsets: for a word with the reserved bits clear, counting
/// the set bits and listing the present offsets agree.
pub proof fn lemma_note_count_matches_semitones(bits: u32)
    requires
        bits >> 24 == 0,
    ensures
        spec_semitones(bits, 24).len() == spec_count_ones(bits, 32),
{
    lemma_semitones_count_agree(bits, 24);
    lemma_count_reserved_bits(bits, 32);
}

/// Below bit 24, the semitone list and the bit count grow in lockstep.
proof fn lemma_semitones_count_agree(bits: u32, n: u8)
    requires
        n <= 24,
    ensures
        spec_semitones(bits, n).len() == spec_count_ones(bits, n),
    decreases n,
{
    if n > 0 {
        lemma_semitones_count_agree(bits, (n - 1) as u8);
    }
}

/// Bits 24 and above add nothing to the count when the reserved byte is
/// clear.
proof fn lemma_count_reserved_bits(bits: u32, n: u8)
    requires
        bits >> 24 == 0,
        24 <= n <= 32,
    ensures
        spec_count_ones(bits, n) == spec_count_ones(bits, 24),
    decreases n,
{
    if n > 24 {
        lemma_count_reserved_bits(bits, (n - 1) as u8);
        let s = ((n - 1) as u8) as u32;
        assert((bits >> s) & 1 == 0) by (bit_vector)
            requires
                bits >> 24 == 0,
                24 <= s < 32,
        ;
    }
}

} // verus!
