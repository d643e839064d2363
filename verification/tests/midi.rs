use musik_std::midi::{midi_to_note, note_to_midi, MidiMessage};
use musik_std::theory::Note;

#[test]
fn test_note_to_midi() {
    // C4 (middle C)
    assert_eq!(note_to_midi(Note::C, 4), Some(60));

    // A4 (concert A)
    assert_eq!(note_to_midi(Note::A, 4), Some(69));

    // Test bounds
    assert_eq!(note_to_midi(Note::C, -2), None); // Too low
    assert_eq!(note_to_midi(Note::G, 10), None); // Too high
}

#[test]
fn test_midi_to_note() {
    assert_eq!(midi_to_note(60), (Note::C, 4));
    assert_eq!(midi_to_note(69), (Note::A, 4));
    assert_eq!(midi_to_note(61), (Note::CSharp, 4));
}

#[test]
fn test_midi_message_channel() {
    let msg = MidiMessage::NoteOn(5, 60, 100);
    assert_eq!(msg.channel(), 5);
    assert!(msg.is_note_message());

    let cc_msg = MidiMessage::ControlChange(2, 7, 127);
    assert_eq!(cc_msg.channel(), 2);
    assert!(!cc_msg.is_note_message());
}

#[test]
fn test_midi_round_trip() {
    // Every MIDI note number maps to a note and octave that map back.
    for midi in 0u8..=127 {
        let (note, octave) = midi_to_note(midi);
        assert_eq!(note_to_midi(note, octave), Some(midi));
    }
}
