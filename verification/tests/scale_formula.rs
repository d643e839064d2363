use musik_std::{Note, ScaleFormula, SEMITONES_IN_OCTAVE};
use std::collections::HashSet;

#[test]
fn test_scale_formula_creation() {
    let formula = ScaleFormula::new(0b101010110101);
    assert_eq!(formula.bits(), 0b101010110101);
    assert_eq!(formula.note_count(), 7);
}

#[test]
fn test_empty_scale() {
    let empty = ScaleFormula::empty();
    assert!(empty.is_empty());
    assert_eq!(empty.note_count(), 0);
    assert!(!empty.has_root());
}

#[test]
fn scale_formula_test_chromatic_scale() {
    let chromatic = ScaleFormula::chromatic();
    assert_eq!(chromatic.note_count(), 12);
    for i in 0..SEMITONES_IN_OCTAVE {
        assert!(chromatic.contains_semitone(i));
    }
    assert!(!chromatic.is_empty());
    assert!(chromatic.has_root());
}

#[test]
fn test_major_scale() {
    let major = ScaleFormula::major();
    let expected_semitones = vec![0, 2, 4, 5, 7, 9, 11];

    assert_eq!(major.note_count(), 7);
    assert_eq!(major.semitones(), expected_semitones);
    assert!(major.has_root());

    // Test specific intervals
    assert!(major.contains_semitone(0)); // Root
    assert!(major.contains_semitone(2)); // Major 2nd
    assert!(major.contains_semitone(4)); // Major 3rd
    assert!(major.contains_semitone(5)); // Perfect 4th
    assert!(major.contains_semitone(7)); // Perfect 5th
    assert!(major.contains_semitone(9)); // Major 6th
    assert!(major.contains_semitone(11)); // Major 7th

    // Test missing intervals
    assert!(!major.contains_semitone(1)); // Minor 2nd
    assert!(!major.contains_semitone(3)); // Minor 3rd
    assert!(!major.contains_semitone(6)); // Tritone
    assert!(!major.contains_semitone(8)); // Minor 6th
    assert!(!major.contains_semitone(10)); // Minor 7th
}

#[test]
fn test_minor_scale() {
    let minor = ScaleFormula::minor();
    let expected_semitones = vec![0, 2, 3, 5, 7, 8, 10];

    assert_eq!(minor.note_count(), 7);
    assert_eq!(minor.semitones(), expected_semitones);
    assert!(minor.has_root());

    // Test specific intervals
    assert!(minor.contains_semitone(0)); // Root
    assert!(minor.contains_semitone(2)); // Major 2nd
    assert!(minor.contains_semitone(3)); // Minor 3rd
    assert!(minor.contains_semitone(5)); // Perfect 4th
    assert!(minor.contains_semitone(7)); // Perfect 5th
    assert!(minor.contains_semitone(8)); // Minor 6th
    assert!(minor.contains_semitone(10)); // Minor 7th

    // Test missing intervals
    assert!(!minor.contains_semitone(4)); // Major 3rd
    assert!(!minor.contains_semitone(9)); // Major 6th
    assert!(!minor.contains_semitone(11)); // Major 7th
}

#[test]
fn scale_formula_test_pentatonic_scales() {
    let pent_major = ScaleFormula::pentatonic_major();
    assert_eq!(pent_major.semitones(), vec![0, 2, 4, 7, 9]);
    assert_eq!(pent_major.note_count(), 5);

    let pent_minor = ScaleFormula::pentatonic_minor();
    assert_eq!(pent_minor.semitones(), vec![0, 3, 5, 7, 10]);
    assert_eq!(pent_minor.note_count(), 5);
}

#[test]
fn scale_formula_test_blues_scale() {
    let blues = ScaleFormula::blues();
    assert_eq!(blues.semitones(), vec![0, 3, 5, 6, 7, 10]);
    assert_eq!(blues.note_count(), 6);
    assert!(blues.contains_semitone(6)); // ♭5 (tritone)
}

#[test]
fn test_from_semitones() {
    let custom = ScaleFormula::from_semitones(&[0, 2, 4, 7, 9]);
    assert_eq!(custom.semitones(), vec![0, 2, 4, 7, 9]);
    assert_eq!(custom, ScaleFormula::pentatonic_major());

    // Test with extended range semitones
    let with_extended = ScaleFormula::from_semitones(&[0, 2, 12, 15]);
    assert_eq!(with_extended.semitones(), vec![0, 2, 12, 15]);

    // Test with out-of-range semitones (should be ignored)
    let with_invalid = ScaleFormula::from_semitones(&[0, 2, 2 * SEMITONES_IN_OCTAVE, 30]);
    assert_eq!(with_invalid.semitones(), vec![0, 2]);
}

#[test]
fn test_bitwise_operations() {
    let major = ScaleFormula::major();
    let minor = ScaleFormula::minor();

    // Union
    let union = major | minor;
    assert!(union.contains_semitone(3)); // Minor 3rd from minor
    assert!(union.contains_semitone(4)); // Major 3rd from major
    assert!(union.contains_semitone(9)); // Major 6th from major
    assert!(union.contains_semitone(8)); // Minor 6th from minor

    // Intersection
    let intersection = major & minor;
    let common_notes = intersection.semitones();
    assert_eq!(common_notes, vec![0, 2, 5, 7]); // 1, 2, 4, 5

    // Complement
    let complement = !major;
    assert!(!complement.contains_semitone(0)); // Root not in complement
    assert!(complement.contains_semitone(1)); // Minor 2nd in complement
    assert!(complement.contains_semitone(3)); // Minor 3rd in complement
}

#[test]
fn scale_formula_test_display() {
    let major = ScaleFormula::major();
    assert_eq!(major.display_string(), "1, 2, 3, 4, 5, 6, 7");

    let minor = ScaleFormula::minor();
    assert_eq!(minor.display_string(), "1, 2, ♭3, 4, 5, ♭6, ♭7");

    let empty = ScaleFormula::empty();
    assert_eq!(empty.display_string(), "Empty");
}

#[test]
fn test_binary_display() {
    let major = ScaleFormula::major();
    assert_eq!(major.binary_string(), "101010110101");

    let empty = ScaleFormula::empty();
    assert_eq!(empty.binary_string(), "000000000000");
}

#[test]
fn test_equality_and_hash() {
    let major1 = ScaleFormula::major();
    let major2 = ScaleFormula::major();
    let minor = ScaleFormula::minor();

    assert_eq!(major1, major2);
    assert_ne!(major1, minor);

    // Test in hash collections
    let mut set = HashSet::new();
    set.insert(major1);
    set.insert(major2); // Should not increase size
    set.insert(minor); // Should increase size

    assert_eq!(set.len(), 2);
}

#[test]
fn test_contains_semitone_boundary() {
    let major = ScaleFormula::major();

    // Valid semitones in first octave
    assert!(major.contains_semitone(0));
    assert!(!major.contains_semitone(1));
    assert!(major.contains_semitone(11));

    // Valid semitones in extended range (but not in basic major scale)
    assert!(!major.contains_semitone(SEMITONES_IN_OCTAVE)); // Octave (12)
    assert!(!major.contains_semitone(SEMITONES_IN_OCTAVE + 3)); // Minor 3rd in second octave (15)

    // Invalid semitones (>= 24)
    assert!(!major.contains_semitone(2 * SEMITONES_IN_OCTAVE)); // 24
    assert!(!major.contains_semitone(255));
}

#[test]
fn scale_formula_test_const_functions() {
    let major = ScaleFormula::major();
    let empty = ScaleFormula::empty();
    let chromatic = ScaleFormula::chromatic();

    assert_eq!(major.note_count(), 7);
    assert!(major.has_root());
    assert!(!major.is_empty());

    assert_eq!(empty.note_count(), 0);
    assert!(!empty.has_root());
    assert!(empty.is_empty());

    assert_eq!(chromatic.note_count(), 12);
    assert!(chromatic.has_root());
    assert!(!chromatic.is_empty());
}

#[test]
fn test_notes_from_root() {
    let major = ScaleFormula::major();

    // Test C major scale
    let c_major_notes: Vec<Note> = major.notes_from_root(Note::new(0));
    let c_major_semitones: Vec<u8> = c_major_notes.iter().map(|note| u8::from(*note)).collect();
    assert_eq!(c_major_semitones, vec![0, 2, 4, 5, 7, 9, 11]);

    // Test F major scale
    let f_major_notes: Vec<Note> = major.notes_from_root(Note::new(5));
    let f_major_semitones: Vec<u8> = f_major_notes.iter().map(|note| u8::from(*note)).collect();
    assert_eq!(f_major_semitones, vec![5, 7, 9, 10, 12, 14, 16]);

    // Test extended harmony
    let major_extended = ScaleFormula::major_extended();
    let c_extended_count = major_extended.notes_from_root(Note::new(0)).len();
    assert_eq!(c_extended_count, 14);

    // Test pentatonic scale
    let pentatonic = ScaleFormula::pentatonic_major();
    let g_pentatonic_notes: Vec<Note> = pentatonic.notes_from_root(Note::new(7)); // G
    let g_pentatonic_semitones: Vec<u8> = g_pentatonic_notes
        .iter()
        .map(|note| u8::from(*note))
        .collect();
    assert_eq!(g_pentatonic_semitones, vec![7, 9, 11, 14, 16]); // G, A, B, D, E

    // Test empty scale
    let empty = ScaleFormula::empty();
    let empty_count = empty.notes_from_root(Note::new(0)).len();
    assert_eq!(empty_count, 0);
}

#[test]
fn test_scale_round_trip_and_union_laws() {
    // Wrapping any raw word and reading it back is the identity.
    for &x in &[0u32, 1, 0xFFF, 0xFF_FFFF, 0xFFFF_FFFF, 0x00F0_F0F0] {
        assert_eq!(ScaleFormula::new(x).bits(), x);
    }

    // Union is commutative, associative and idempotent.
    let a = ScaleFormula::major();
    let b = ScaleFormula::minor();
    let c = ScaleFormula::blues();
    assert_eq!(a.union(b), b.union(a));
    assert_eq!(a.union(b).union(c), a.union(b.union(c)));
    assert_eq!(a.union(a), a);
}

#[test]
fn test_complement_masking() {
    // The complement always fits the 12-bit first octave, whatever bits
    // the input held above position 11.
    for &x in &[0u32, 0xFFF, 0xFF_FFFF, 0xFFFF_FFFF, 0x00AB_CDEF] {
        let scale = ScaleFormula::new(x);
        assert!(scale.complement().bits() <= 0xFFF);
        // Double complement gives back the input with bits 12 and above
        // cleared, not the input itself.
        assert_eq!(scale.complement().complement().bits(), x & 0xFFF);
    }

    // The exact asymmetry: an extended scale loses its second octave.
    let extended = ScaleFormula::major_extended();
    assert_ne!(extended.complement().complement(), extended);
    assert_eq!(extended.complement().complement(), ScaleFormula::major());
}

#[test]
fn test_major_extended_note_count() {
    let extended = ScaleFormula::major_extended();
    assert_eq!(extended.note_count(), 14);
    assert!(extended.contains_semitone(14)); // 9th
    assert!(extended.contains_semitone(17)); // 11th
    assert!(extended.contains_semitone(21)); // 13th
}
