use musik_std::theory::{
    ChromaticNote, CircleOfFifths, Degree, DegreeCollection, EnharmonicNote, Interval,
    MusicalScale, Note, Scale, ScaleDegree, ScaleType, TransposableNote,
};

#[test]
fn test_note_semitone() {
    assert_eq!(Note::C.semitone(), 0);
    assert_eq!(Note::CSharp.semitone(), 1);
    assert_eq!(Note::B.semitone(), 11);
}

#[test]
fn theory_test_note_from_semitone() {
    assert_eq!(Note::from_semitone(0), Some(Note::C));
    assert_eq!(Note::from_semitone(1), Some(Note::CSharp));
    assert_eq!(Note::from_semitone(12), Some(Note::C)); // Wraps around
}

#[test]
fn theory_test_note_display() {
    assert_eq!(Note::C.name(), "C");
    assert_eq!(Note::CSharp.name(), "C#");
    assert_eq!(Note::FSharp.name(), "F#");
}

#[test]
fn test_interval_semitones() {
    assert_eq!(Interval::Unison.semitones(), 0);
    assert_eq!(Interval::PerfectFifth.semitones(), 7);
    assert_eq!(Interval::Octave.semitones(), 12);
}

// ChromaticNote trait tests
#[test]
fn test_chromatic_note_name() {
    assert_eq!(Note::C.name(), "C");
    assert_eq!(Note::CSharp.name(), "C#");
    assert_eq!(Note::FSharp.name(), "F#");
}

#[test]
fn test_chromatic_note_is_accidental() {
    assert!(!Note::C.is_accidental());
    assert!(!Note::D.is_accidental());
    assert!(!Note::E.is_accidental());
    assert!(Note::CSharp.is_accidental());
    assert!(Note::FSharp.is_accidental());
    assert!(Note::ASharp.is_accidental());
}

// TransposableNote trait tests
#[test]
fn test_transpose() {
    assert_eq!(Note::C.transpose(0), Note::C);
    assert_eq!(Note::C.transpose(1), Note::CSharp);
    assert_eq!(Note::C.transpose(7), Note::G);
    assert_eq!(Note::C.transpose(12), Note::C); // Octave
    assert_eq!(Note::C.transpose(-1), Note::B);
    assert_eq!(Note::G.transpose(5), Note::C);
}

#[test]
fn test_interval_to() {
    assert_eq!(Note::C.interval_to(&Note::C), 0);
    assert_eq!(Note::C.interval_to(&Note::G), 7); // Perfect fifth
    assert_eq!(Note::C.interval_to(&Note::B), 11);
    assert_eq!(Note::G.interval_to(&Note::C), 5); // Perfect fourth
}

#[test]
fn test_add_interval() {
    assert_eq!(Note::C.add_interval(Interval::PerfectFifth), Note::G);
    assert_eq!(Note::C.add_interval(Interval::MajorThird), Note::E);
    assert_eq!(Note::A.add_interval(Interval::MinorThird), Note::C);
}

// EnharmonicNote trait tests
#[test]
fn test_enharmonic_equivalents() {
    let csharp_equiv = Note::CSharp.enharmonic_equivalents();
    assert!(csharp_equiv.contains(&"C#".to_string()));
    assert!(csharp_equiv.contains(&"Db".to_string()));

    let c_equiv = Note::C.enharmonic_equivalents();
    assert_eq!(c_equiv, vec!["C".to_string()]);
}

#[test]
fn test_flat_and_sharp_names() {
    assert_eq!(Note::CSharp.flat_name(), Some("Db"));
    assert_eq!(Note::CSharp.sharp_name(), Some("C#"));
    assert_eq!(Note::C.flat_name(), None);
    assert_eq!(Note::C.sharp_name(), None);
}

#[test]
fn test_spelling_in_key() {
    // Sharp key context (G major = 1 sharp)
    assert_eq!(Note::FSharp.spelling_in_key(1), "F#");

    // Flat key context (F major = 1 flat)
    assert_eq!(Note::ASharp.spelling_in_key(-1), "Bb");

    // Natural notes are unaffected
    assert_eq!(Note::C.spelling_in_key(1), "C");
    assert_eq!(Note::C.spelling_in_key(-1), "C");
}

// ScaleDegree trait tests
#[test]
fn test_degree_in_major() {
    // C major scale: C D E F G A B
    assert_eq!(Note::C.degree_in_major(&Note::C), Some(1));
    assert_eq!(Note::D.degree_in_major(&Note::C), Some(2));
    assert_eq!(Note::E.degree_in_major(&Note::C), Some(3));
    assert_eq!(Note::F.degree_in_major(&Note::C), Some(4));
    assert_eq!(Note::G.degree_in_major(&Note::C), Some(5));
    assert_eq!(Note::A.degree_in_major(&Note::C), Some(6));
    assert_eq!(Note::B.degree_in_major(&Note::C), Some(7));
    assert_eq!(Note::CSharp.degree_in_major(&Note::C), None);
}

#[test]
fn test_degree_in_minor() {
    // A minor scale: A B C D E F G
    assert_eq!(Note::A.degree_in_minor(&Note::A), Some(1));
    assert_eq!(Note::B.degree_in_minor(&Note::A), Some(2));
    assert_eq!(Note::C.degree_in_minor(&Note::A), Some(3));
    assert_eq!(Note::D.degree_in_minor(&Note::A), Some(4));
    assert_eq!(Note::E.degree_in_minor(&Note::A), Some(5));
    assert_eq!(Note::F.degree_in_minor(&Note::A), Some(6));
    assert_eq!(Note::G.degree_in_minor(&Note::A), Some(7));
    assert_eq!(Note::ASharp.degree_in_minor(&Note::A), None);
}

#[test]
fn test_is_in_scale() {
    assert!(Note::C.is_in_major_scale(&Note::C));
    assert!(Note::E.is_in_major_scale(&Note::C));
    assert!(!Note::CSharp.is_in_major_scale(&Note::C));

    assert!(Note::A.is_in_minor_scale(&Note::A));
    assert!(Note::C.is_in_minor_scale(&Note::A));
    assert!(!Note::ASharp.is_in_minor_scale(&Note::A));
}

#[test]
fn test_midi_number() {
    // Middle C (C4) = MIDI 60
    assert_eq!(Note::C.midi_number(4), Some(60));

    // A4 = MIDI 69
    assert_eq!(Note::A.midi_number(4), Some(69));

    // Test bounds
    assert_eq!(Note::C.midi_number(-2), None); // Too low
    assert_eq!(Note::G.midi_number(10), None); // Too high
}

// CircleOfFifths trait tests
#[test]
fn test_circle_of_fifths() {
    // C -> G -> D -> A -> E -> B -> F# -> C# -> G# -> D# -> A# -> F -> C
    assert_eq!(Note::C.next_fifth(), Note::G);
    assert_eq!(Note::G.next_fifth(), Note::D);
    assert_eq!(Note::F.next_fifth(), Note::C);

    assert_eq!(Note::G.prev_fifth(), Note::C);
    assert_eq!(Note::D.prev_fifth(), Note::G);
    assert_eq!(Note::C.prev_fifth(), Note::F);
}

#[test]
fn test_circle_position() {
    assert_eq!(Note::C.circle_position(), 0);
    assert_eq!(Note::G.circle_position(), 1);
    assert_eq!(Note::D.circle_position(), 2);
    assert_eq!(Note::F.circle_position(), 11);
}

#[test]
fn test_relative_key() {
    // C major -> A minor (down a minor third)
    assert_eq!(Note::C.relative_key(), Note::A);

    // A minor -> C major (up a minor third)
    assert_eq!(Note::A.relative_key(), Note::FSharp);

    // G major -> E minor
    assert_eq!(Note::G.relative_key(), Note::E);
}

// MusicalScale and Scale tests
#[test]
fn test_scale_creation() {
    let c_major = Scale::new(Note::C, ScaleType::Major);
    assert_eq!(c_major.root(), Note::C);
    assert_eq!(c_major.scale_type(), ScaleType::Major);
    assert_eq!(c_major.name(), "C Major");

    let a_minor = Scale::new(Note::A, ScaleType::NaturalMinor);
    assert_eq!(a_minor.root(), Note::A);
    assert_eq!(a_minor.scale_type(), ScaleType::NaturalMinor);
    assert_eq!(a_minor.name(), "A Natural Minor");
}

#[test]
fn test_c_major_scale() {
    let c_major = Scale::new(Note::C, ScaleType::Major);
    let notes = c_major.notes();

    // C major: C D E F G A B
    let expected = vec![
        Note::C,
        Note::D,
        Note::E,
        Note::F,
        Note::G,
        Note::A,
        Note::B,
    ];
    assert_eq!(notes, expected);
    assert_eq!(c_major.len(), 7);
    assert!(!c_major.is_empty());
}

#[test]
fn test_a_minor_scale() {
    let a_minor = Scale::new(Note::A, ScaleType::NaturalMinor);
    let notes = a_minor.notes();

    // A minor: A B C D E F G
    let expected = vec![
        Note::A,
        Note::B,
        Note::C,
        Note::D,
        Note::E,
        Note::F,
        Note::G,
    ];
    assert_eq!(notes, expected);
}

#[test]
fn test_scale_degrees() {
    let c_major = Scale::new(Note::C, ScaleType::Major);

    // Test degree_of
    assert_eq!(c_major.degree_of(&Note::C), Some(1));
    assert_eq!(c_major.degree_of(&Note::D), Some(2));
    assert_eq!(c_major.degree_of(&Note::E), Some(3));
    assert_eq!(c_major.degree_of(&Note::F), Some(4));
    assert_eq!(c_major.degree_of(&Note::G), Some(5));
    assert_eq!(c_major.degree_of(&Note::A), Some(6));
    assert_eq!(c_major.degree_of(&Note::B), Some(7));
    assert_eq!(c_major.degree_of(&Note::CSharp), None);

    // Test note_at_degree
    assert_eq!(c_major.note_at_degree(1), Some(Note::C));
    assert_eq!(c_major.note_at_degree(2), Some(Note::D));
    assert_eq!(c_major.note_at_degree(7), Some(Note::B));
    assert_eq!(c_major.note_at_degree(0), None);
    assert_eq!(c_major.note_at_degree(8), None);
}

#[test]
fn test_scale_contains() {
    let c_major = Scale::new(Note::C, ScaleType::Major);

    assert!(c_major.contains(&Note::C));
    assert!(c_major.contains(&Note::E));
    assert!(c_major.contains(&Note::G));
    assert!(!c_major.contains(&Note::CSharp));
    assert!(!c_major.contains(&Note::FSharp));
}

#[test]
fn test_scale_intervals() {
    let major_intervals = ScaleType::Major.intervals();
    assert_eq!(major_intervals, vec![0, 2, 4, 5, 7, 9, 11]);

    let minor_intervals = ScaleType::NaturalMinor.intervals();
    assert_eq!(minor_intervals, vec![0, 2, 3, 5, 7, 8, 10]);

    let pentatonic_intervals = ScaleType::PentatonicMajor.intervals();
    assert_eq!(pentatonic_intervals, vec![0, 2, 4, 7, 9]);
}

#[test]
fn theory_test_pentatonic_scales() {
    let c_penta_major = Scale::new(Note::C, ScaleType::PentatonicMajor);
    let notes = c_penta_major.notes();

    // C pentatonic major: C D E G A
    let expected = vec![Note::C, Note::D, Note::E, Note::G, Note::A];
    assert_eq!(notes, expected);
    assert_eq!(c_penta_major.len(), 5);

    let a_penta_minor = Scale::new(Note::A, ScaleType::PentatonicMinor);
    let minor_notes = a_penta_minor.notes();

    // A pentatonic minor: A C D E G
    let expected_minor = vec![Note::A, Note::C, Note::D, Note::E, Note::G];
    assert_eq!(minor_notes, expected_minor);
}

#[test]
fn theory_test_blues_scale() {
    let c_blues = Scale::new(Note::C, ScaleType::BluesScale);
    let notes = c_blues.notes();

    // C blues: C Eb F F# G Bb
    let expected = vec![
        Note::C,
        Note::DSharp,
        Note::F,
        Note::FSharp,
        Note::G,
        Note::ASharp,
    ];
    assert_eq!(notes, expected);
    assert_eq!(c_blues.len(), 6);
}

#[test]
fn theory_test_chromatic_scale() {
    let c_chromatic = Scale::new(Note::C, ScaleType::ChromaticScale);
    let notes = c_chromatic.notes();

    assert_eq!(notes.len(), 12);
    assert_eq!(notes[0], Note::C);
    assert_eq!(notes[1], Note::CSharp);
    assert_eq!(notes[11], Note::B);
}

#[test]
fn test_modes() {
    let c_major = Scale::new(Note::C, ScaleType::Major);

    // D Dorian (2nd mode of C major)
    let d_dorian = c_major.mode(2);
    assert!(d_dorian.is_some());
    let d_mode = d_dorian.unwrap();
    assert_eq!(d_mode.root(), Note::D);

    // E Phrygian (3rd mode of C major)
    let e_phrygian = c_major.mode(3);
    assert!(e_phrygian.is_some());
    let e_mode = e_phrygian.unwrap();
    assert_eq!(e_mode.root(), Note::E);

    // Invalid mode
    let invalid_mode = c_major.mode(8);
    assert!(invalid_mode.is_none());
}

#[test]
fn test_scale_type_names() {
    assert_eq!(ScaleType::Major.name(), "Major");
    assert_eq!(ScaleType::NaturalMinor.name(), "Natural Minor");
    assert_eq!(ScaleType::Dorian.name(), "Dorian");
    assert_eq!(ScaleType::PentatonicMajor.name(), "Pentatonic Major");
    assert_eq!(ScaleType::BluesScale.name(), "Blues");
}

#[test]
fn test_transposed_scales() {
    // Test that scales work correctly with different root notes
    let g_major = Scale::new(Note::G, ScaleType::Major);
    let notes = g_major.notes();

    // G major: G A B C D E F#
    let expected = vec![
        Note::G,
        Note::A,
        Note::B,
        Note::C,
        Note::D,
        Note::E,
        Note::FSharp,
    ];
    assert_eq!(notes, expected);

    // Test degrees in G major
    assert_eq!(g_major.degree_of(&Note::G), Some(1));
    assert_eq!(g_major.degree_of(&Note::B), Some(3));
    assert_eq!(g_major.degree_of(&Note::FSharp), Some(7));
    assert_eq!(g_major.degree_of(&Note::F), None); // F natural not in G major
}

#[test]
fn test_harmonic_minor() {
    let a_harmonic_minor = Scale::new(Note::A, ScaleType::HarmonicMinor);
    let notes = a_harmonic_minor.notes();

    // A harmonic minor: A B C D E F G#
    let expected = vec![
        Note::A,
        Note::B,
        Note::C,
        Note::D,
        Note::E,
        Note::F,
        Note::GSharp,
    ];
    assert_eq!(notes, expected);
}

#[test]
fn test_whole_tone_scale() {
    let c_whole_tone = Scale::new(Note::C, ScaleType::WholeTone);
    let notes = c_whole_tone.notes();

    // C whole tone: C D E F# G# A#
    let expected = vec![
        Note::C,
        Note::D,
        Note::E,
        Note::FSharp,
        Note::GSharp,
        Note::ASharp,
    ];
    assert_eq!(notes, expected);
    assert_eq!(c_whole_tone.len(), 6);
}

// Degree tests
#[test]
fn test_degree_creation() {
    let natural_3 = Degree::natural(3);
    let flat_3 = Degree::flat(3);
    let sharp_5 = Degree::sharp(5);

    assert_eq!(natural_3.base_degree(), 3);
    assert_eq!(flat_3.base_degree(), 3);
    assert_eq!(sharp_5.base_degree(), 5);

    assert_eq!(natural_3.alteration(), 0);
    assert_eq!(flat_3.alteration(), -1);
    assert_eq!(sharp_5.alteration(), 1);
}

#[test]
fn test_degree_symbols() {
    assert_eq!(Degree::natural(1).symbol(), "1");
    assert_eq!(Degree::flat(3).symbol(), "♭3");
    assert_eq!(Degree::sharp(5).symbol(), "♯5");

    assert_eq!(Degree::natural(7).name(), "7");
    assert_eq!(Degree::flat(7).name(), "flat 7");
    assert_eq!(Degree::sharp(4).name(), "sharp 4");
}

#[test]
fn test_degree_to_semitone_offset() {
    // Natural degrees
    assert_eq!(Degree::natural(1).to_semitone_offset(), Some(0)); // Root
    assert_eq!(Degree::natural(2).to_semitone_offset(), Some(2)); // Major 2nd
    assert_eq!(Degree::natural(3).to_semitone_offset(), Some(4)); // Major 3rd
    assert_eq!(Degree::natural(4).to_semitone_offset(), Some(5)); // Perfect 4th
    assert_eq!(Degree::natural(5).to_semitone_offset(), Some(7)); // Perfect 5th
    assert_eq!(Degree::natural(6).to_semitone_offset(), Some(9)); // Major 6th
    assert_eq!(Degree::natural(7).to_semitone_offset(), Some(11)); // Major 7th

    // Flat degrees
    assert_eq!(Degree::flat(2).to_semitone_offset(), Some(1)); // Minor 2nd
    assert_eq!(Degree::flat(3).to_semitone_offset(), Some(3)); // Minor 3rd
    assert_eq!(Degree::flat(5).to_semitone_offset(), Some(6)); // Diminished 5th
    assert_eq!(Degree::flat(6).to_semitone_offset(), Some(8)); // Minor 6th
    assert_eq!(Degree::flat(7).to_semitone_offset(), Some(10)); // Minor 7th

    // Sharp degrees
    assert_eq!(Degree::sharp(1).to_semitone_offset(), Some(1)); // Sharp root
    assert_eq!(Degree::sharp(4).to_semitone_offset(), Some(6)); // Sharp 4th
    assert_eq!(Degree::sharp(5).to_semitone_offset(), Some(8)); // Sharp 5th
}

#[test]
fn test_note_for_degree_c_major() {
    let c_major = Scale::new(Note::C, ScaleType::Major);

    // Natural degrees in C major
    assert_eq!(c_major.note_for_degree(&Degree::natural(1)), Some(Note::C));
    assert_eq!(c_major.note_for_degree(&Degree::natural(2)), Some(Note::D));
    assert_eq!(c_major.note_for_degree(&Degree::natural(3)), Some(Note::E));
    assert_eq!(c_major.note_for_degree(&Degree::natural(4)), Some(Note::F));
    assert_eq!(c_major.note_for_degree(&Degree::natural(5)), Some(Note::G));
    assert_eq!(c_major.note_for_degree(&Degree::natural(6)), Some(Note::A));
    assert_eq!(c_major.note_for_degree(&Degree::natural(7)), Some(Note::B));

    // Flat degrees
    assert_eq!(c_major.note_for_degree(&Degree::flat(2)), Some(Note::CSharp)); // Db
    assert_eq!(c_major.note_for_degree(&Degree::flat(3)), Some(Note::DSharp)); // Eb
    assert_eq!(c_major.note_for_degree(&Degree::flat(7)), Some(Note::ASharp)); // Bb
}

#[test]
fn test_notes_for_degrees_major_triad() {
    let c_major = Scale::new(Note::C, ScaleType::Major);

    // Major triad: 1, 3, 5
    let major_degrees = vec![
        Degree::natural(1),
        Degree::natural(3),
        Degree::natural(5),
    ];

    let notes = c_major.valid_notes_for_degrees(&major_degrees);
    assert_eq!(notes, vec![Note::C, Note::E, Note::G]);

    let all_notes = c_major.notes_for_degrees(&major_degrees);
    assert_eq!(all_notes, vec![Some(Note::C), Some(Note::E), Some(Note::G)]);
}

#[test]
fn test_notes_for_degrees_minor_triad() {
    let c_major = Scale::new(Note::C, ScaleType::Major);

    // Minor triad: 1, ♭3, 5
    let minor_degrees = vec![
        Degree::natural(1),
        Degree::flat(3),
        Degree::natural(5),
    ];

    let notes = c_major.valid_notes_for_degrees(&minor_degrees);
    assert_eq!(notes, vec![Note::C, Note::DSharp, Note::G]); // C Eb G
}

#[test]
fn test_notes_for_degrees_seventh_chords() {
    let c_major = Scale::new(Note::C, ScaleType::Major);

    // Major 7th chord: 1, 3, 5, 7
    let maj7_degrees = vec![
        Degree::natural(1),
        Degree::natural(3),
        Degree::natural(5),
        Degree::natural(7),
    ];

    let maj7_notes = c_major.valid_notes_for_degrees(&maj7_degrees);
    assert_eq!(maj7_notes, vec![Note::C, Note::E, Note::G, Note::B]);

    // Dominant 7th chord: 1, 3, 5, ♭7
    let dom7_degrees = vec![
        Degree::natural(1),
        Degree::natural(3),
        Degree::natural(5),
        Degree::flat(7),
    ];

    let dom7_notes = c_major.valid_notes_for_degrees(&dom7_degrees);
    assert_eq!(dom7_notes, vec![Note::C, Note::E, Note::G, Note::ASharp]); // C E G Bb
}

#[test]
fn test_notes_for_degrees_complex_chord() {
    let c_major = Scale::new(Note::C, ScaleType::Major);

    // Complex chord: 1, ♭3, ♯4, ♭7
    let complex_degrees = vec![
        Degree::natural(1),
        Degree::flat(3),
        Degree::sharp(4),
        Degree::flat(7),
    ];

    let notes = c_major.valid_notes_for_degrees(&complex_degrees);
    assert_eq!(notes, vec![Note::C, Note::DSharp, Note::FSharp, Note::ASharp]); // C Eb F# Bb
}

#[test]
fn test_notes_for_degrees_different_keys() {
    // Test in G major
    let g_major = Scale::new(Note::G, ScaleType::Major);

    let major_triad = vec![
        Degree::natural(1),
        Degree::natural(3),
        Degree::natural(5),
    ];

    let g_notes = g_major.valid_notes_for_degrees(&major_triad);
    assert_eq!(g_notes, vec![Note::G, Note::B, Note::D]); // G B D

    // Test minor triad in same key
    let minor_triad = vec![
        Degree::natural(1),
        Degree::flat(3),
        Degree::natural(5),
    ];

    let g_minor_notes = g_major.valid_notes_for_degrees(&minor_triad);
    assert_eq!(g_minor_notes, vec![Note::G, Note::ASharp, Note::D]); // G Bb D
}

#[test]
fn test_is_valid_degree() {
    let c_major = Scale::new(Note::C, ScaleType::Major);

    // All natural degrees should be valid
    assert!(c_major.is_valid_degree(&Degree::natural(1)));
    assert!(c_major.is_valid_degree(&Degree::natural(7)));

    // Flat and sharp degrees should also be valid (they resolve to chromatic notes)
    assert!(c_major.is_valid_degree(&Degree::flat(3)));
    assert!(c_major.is_valid_degree(&Degree::sharp(4)));

    // Invalid degree numbers should be invalid
    assert_eq!(c_major.note_for_degree(&Degree::natural(0)), None);
    assert_eq!(c_major.note_for_degree(&Degree::natural(8)), None);
}

#[test]
fn test_degree_display() {
    assert_eq!(format!("{}", Degree::natural(1).symbol()), "1");
    assert_eq!(format!("{}", Degree::flat(3).symbol()), "♭3");
    assert_eq!(format!("{}", Degree::sharp(5).symbol()), "♯5");
}

#[test]
fn test_blues_scale_degrees() {
    let c_major = Scale::new(Note::C, ScaleType::Major);

    // Blues scale degrees: 1, ♭3, 4, ♭5, 5, ♭7
    let blues_degrees = vec![
        Degree::natural(1),
        Degree::flat(3),
        Degree::natural(4),
        Degree::flat(5),
        Degree::natural(5),
        Degree::flat(7),
    ];

    let blues_notes = c_major.valid_notes_for_degrees(&blues_degrees);
    assert_eq!(blues_notes, vec![
        Note::C,      // 1
        Note::DSharp, // ♭3 (Eb)
        Note::F,      // 4
        Note::FSharp, // ♭5 (F#/Gb)
        Note::G,      // 5
        Note::ASharp, // ♭7 (Bb)
    ]);
}
