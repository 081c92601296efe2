use vstd::prelude::*;
use crate::pitch::Note;
use crate::duration::{NoteLength, valid_bpm};
use crate::note::RealNote;
use crate::chord::triad_notes;

verus! {

/// The tempo that an invalid tempo is replaced by, 60 beats per minute, in
/// millionths.
pub const FALLBACK_BPM: i64 = 60_000_000;

/// A user action on the tone generator.
#[derive(Clone, Copy, Debug, PartialEq, Eq, Structural)]
pub enum Message {
    /// The octave control moved to this many thousandths of an octave.
    OctaveChange(u32),
    /// The tempo control moved to this tempo, in millionths of a beat per minute.
    BpmChange(i64),
    /// A tempo was typed: the tempo it reads as, or None where the text is no
    /// number.
    CustomBpmChange(Option<i64>),
    /// A key of the keyboard was pressed.
    Play(Note),
    /// The switch between single notes and triads was flipped.
    PlayChords,
}

/// The settings of the tone generator.
#[derive(Clone, Copy, Debug, PartialEq, Eq, Structural)]
pub struct Program {
    /// Octave offset, in thousandths of an octave.
    pub octave: u32,
    /// Tempo, in millionths of a beat per minute.
    pub bpm: i64,
    /// Whether a key sounds the major triad on its note rather than the note.
    pub play_chords: bool,
}

/// The tempo kept when `value` is asked for: `value` itself when valid, else
/// the fallback.
pub open spec fn settled_bpm(value: int) -> int {
    if valid_bpm(value) {
        value
    } else {
        FALLBACK_BPM as int
    }
}

/// What a key press on `n` sounds in state `s`: a whole note at the current
/// octave, or the major triad on it.
pub open spec fn notes_for_key(s: Program, n: Note) -> Seq<RealNote> {
    let root = RealNote { note: n, length: NoteLength::Whole, octave: s.octave };
    if s.play_chords {
        triad_notes(root)
    } else {
        seq![root]
    }
}

/// The state after message `m` in state `s`.
pub open spec fn next_state(s: Program, m: Message) -> Program {
    match m {
        Message::OctaveChange(v) => Program { octave: v, ..s },
        Message::BpmChange(v) => Program { bpm: settled_bpm(v as int) as i64, ..s },
        Message::CustomBpmChange(Some(v)) => Program { bpm: settled_bpm(v as int) as i64, ..s },
        Message::CustomBpmChange(None) => s,
        Message::Play(_) => s,
        Message::PlayChords => Program { play_chords: !s.play_chords, ..s },
    }
}

/// The notes that message `m` sounds in state `s`.
pub open spec fn notes_to_play(s: Program, m: Message) -> Seq<RealNote> {
    match m {
        Message::Play(n) => notes_for_key(s, n),
        _ => Seq::empty(),
    }
}

impl Program {
    /// The tempo always lies in the valid range.
    pub open spec fn wf(&self) -> bool {
        valid_bpm(self.bpm as int)
    }

    /// Sets the tempo to `value` (millionths of a beat per minute) when it is
    /// valid, and to 60 beats per minute when it is not.
    pub fn update_bpm(&mut self, value: i64)
        ensures
            *final(self) == (Program { bpm: settled_bpm(value as int) as i64, ..*old(self) }),
            final(self).wf(),
    {
        if NoteLength::check_bpm(value) {
            self.bpm = value;
        } else {
            self.bpm = FALLBACK_BPM;
        }
    }

    /// Applies a user action to the settings, and returns the notes it asks to
    /// sound, to be played together (none for every action but a key press).
    pub fn update(&mut self, message: Message) -> (r: Vec<RealNote>)
        requires
            old(self).wf(),
        ensures
            *final(self) == next_state(*old(self), message),
            final(self).wf(),
            r@ == notes_to_play(*old(self), message),
    {
        match message {
            Message::PlayChords => {
                self.play_chords = !self.play_chords;
                Vec::new()
            },
            Message::OctaveChange(value) => {
                self.octave = value;
                Vec::new()
            },
            Message::CustomBpmChange(parsed) => {
                if let Some(value) = parsed {
                    self.update_bpm(value);
                }
                Vec::new()
            },
            Message::BpmChange(value) => {
                self.update_bpm(value);
                Vec::new()
            },
            Message::Play(note) => {
                let root = RealNote { note, length: NoteLength::Whole, octave: self.octave };
                if self.play_chords {
                    let chord = root.triad();
                    let notes = chord.notes();
                    vec![notes[0], notes[1], notes[2]]
                } else {
                    vec![root]
                }
            },
        }
    }
}

impl Default for Program {
    /// The starting settings: octave 2, 120 beats per minute, single notes.
    fn default() -> (r: Program)
        ensures
            r == (Program { octave: 2000, bpm: 120_000_000, play_chords: false }),
            r.wf(),
    {
        Program { octave: 2000, bpm: 120_000_000, play_chords: false }
    }
}

} // verus!
