//! MIDI support and utilities.
//!
//! Conversions between chromatic notes with octave numbers and MIDI note
//! numbers (0 to 127), and a message type for the channel-voice messages
//! this library speaks about.

use crate::theory::{spec_note_of_semitone, spec_note_semitone, Note};
use vstd::prelude::*;

verus! {

/// MIDI note number (0-127).
pub type MidiNote = u8;

/// MIDI velocity (0-127).
pub type Velocity = u8;

/// MIDI channel (0-15).
pub type Channel = u8;

/// Convert a note and octave to a MIDI note number: octave -1 starts at 0,
/// so the number is `(octave + 1) * 12` plus the note's semitone; values
/// outside 0 to 127 have no MIDI number.
pub fn note_to_midi(note: Note, octave: i8) -> (r: Option<MidiNote>)
    ensures
        r == (if 0 <= (octave + 1) * 12 + spec_note_semitone(note) <= 127 {
            Some((((octave + 1) * 12 + spec_note_semitone(note)) as u8))
        } else {
            None::<MidiNote>
        }),
{
    let midi_note: i16 = (octave as i16 + 1) * 12 + note.semitone() as i16;
    if 0 <= midi_note && midi_note <= 127 {
        Some(midi_note as u8)
    } else {
        None
    }
}

/// Convert a MIDI note number to its note and octave: note 0 is C-1 and
/// note 60 is C4.
pub fn midi_to_note(midi_note: MidiNote) -> (r: (Note, i8))
    ensures
        Some(r.0) == spec_note_of_semitone(midi_note % 12),
        r.1 as int == midi_note as int / 12 - 1,
{
    let octave: i8 = (midi_note / 12) as i8 - 1;
    let note_value: u8 = midi_note % 12;
    let note = match Note::from_semitone(note_value) {
        Some(n) => n,
        None => Note::C,
    };
    (note, octave)
}

/// MIDI message types.
#[derive(Debug, Clone, PartialEq, Eq, Structural)]
pub enum MidiMessage {
    /// Note On: channel, note, velocity
    NoteOn(Channel, MidiNote, Velocity),
    /// Note Off: channel, note, velocity
    NoteOff(Channel, MidiNote, Velocity),
    /// Control Change: channel, controller, value
    ControlChange(Channel, u8, u8),
    /// Program Change: channel, program
    ProgramChange(Channel, u8),
    /// Pitch Bend: channel, value (14-bit)
    PitchBend(Channel, u16),
}

/// The channel a MIDI message is addressed to.
pub open spec fn spec_message_channel(m: MidiMessage) -> u8 {
    match m {
        MidiMessage::NoteOn(ch, _, _) => ch,
        MidiMessage::NoteOff(ch, _, _) => ch,
        MidiMessage::ControlChange(ch, _, _) => ch,
        MidiMessage::ProgramChange(ch, _) => ch,
        MidiMessage::PitchBend(ch, _) => ch,
    }
}

impl MidiMessage {
    /// Get the channel of the MIDI message.
    pub fn channel(&self) -> (r: Channel)
        ensures
            r == spec_message_channel(*self),
    {
        match self {
            MidiMessage::NoteOn(ch, _, _) => *ch,
            MidiMessage::NoteOff(ch, _, _) => *ch,
            MidiMessage::ControlChange(ch, _, _) => *ch,
            MidiMessage::ProgramChange(ch, _) => *ch,
            MidiMessage::PitchBend(ch, _) => *ch,
        }
    }

    /// Check if this is a note message (note on or note off).
    pub fn is_note_message(&self) -> (r: bool)
        ensures
            r == (self matches MidiMessage::NoteOn(_, _, _) || self matches MidiMessage::NoteOff(
                _,
                _,
                _,
            )),
    {
        matches!(self, MidiMessage::NoteOn(_, _, _) | MidiMessage::NoteOff(_, _, _))
    }
}

} // verus!
