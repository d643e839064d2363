use musik_std::DegreeAccident;
use std::collections::HashSet;

#[test]
fn test_degree_accident_creation() {
    let sharp = DegreeAccident::Sharp;
    let flat = DegreeAccident::Flat;

    assert!(sharp.is_sharp());
    assert!(!sharp.is_flat());
    assert!(!flat.is_sharp());
    assert!(flat.is_flat());
}

#[test]
fn degree_accident_test_symbols() {
    assert_eq!(DegreeAccident::Sharp.symbol(), "♯");
    assert_eq!(DegreeAccident::Flat.symbol(), "♭");
}

#[test]
fn degree_accident_test_semitone_offsets() {
    assert_eq!(DegreeAccident::Sharp.semitone_offset(), 1);
    assert_eq!(DegreeAccident::Flat.semitone_offset(), -1);
}

#[test]
fn degree_accident_test_opposite() {
    assert_eq!(DegreeAccident::Sharp.opposite(), DegreeAccident::Flat);
    assert_eq!(DegreeAccident::Flat.opposite(), DegreeAccident::Sharp);
}

#[test]
fn degree_accident_test_display() {
    assert_eq!(format!("{}", DegreeAccident::Sharp.symbol()), "♯");
    assert_eq!(format!("{}", DegreeAccident::Flat.symbol()), "♭");
}

#[test]
fn degree_accident_test_equality_and_ordering() {
    let sharp1 = DegreeAccident::Sharp;
    let sharp2 = DegreeAccident::Sharp;
    let flat = DegreeAccident::Flat;

    assert_eq!(sharp1, sharp2);
    assert_ne!(sharp1, flat);

    // Test ordering (implementation dependent, but should be consistent)
    assert!(sharp1 <= sharp2);
    assert!(sharp1 >= sharp2);
}

#[test]
fn degree_accident_test_hash() {
    let mut set = HashSet::new();
    set.insert(DegreeAccident::Sharp);
    set.insert(DegreeAccident::Flat);
    set.insert(DegreeAccident::Sharp); // Duplicate

    assert_eq!(set.len(), 2); // Only two unique values
    assert!(set.contains(&DegreeAccident::Sharp));
    assert!(set.contains(&DegreeAccident::Flat));
}

#[test]
fn degree_accident_test_default() {
    assert_eq!(DegreeAccident::default(), DegreeAccident::Sharp);
}

#[test]
fn degree_accident_test_musical_calculations() {
    // Test practical usage in musical calculations
    let natural_third = 4; // E in C major
    let flat_third = natural_third + DegreeAccident::Flat.semitone_offset();
    let sharp_third = natural_third + DegreeAccident::Sharp.semitone_offset();

    assert_eq!(flat_third, 3); // Eb
    assert_eq!(sharp_third, 5); // E# (same as F)

    // Test with seventh
    let natural_seventh = 11; // B in C major
    let flat_seventh = natural_seventh + DegreeAccident::Flat.semitone_offset();

    assert_eq!(flat_seventh, 10); // Bb
}

#[test]
fn degree_accident_test_const_functions() {
    let sharp = DegreeAccident::Sharp;
    let flat = DegreeAccident::Flat;

    assert_eq!(sharp.symbol(), "♯");
    assert_eq!(flat.symbol(), "♭");
    assert_eq!(sharp.semitone_offset(), 1);
    assert_eq!(flat.semitone_offset(), -1);
    assert!(sharp.is_sharp());
    assert!(flat.is_flat());
    assert_eq!(sharp.opposite(), flat);
}
