use vstd::prelude::*;

verus! {

/// Millionths of a beat per minute in one beat per minute: a tempo is held as
/// an integer count of these.
pub const MICRO_BPM: i64 = 1_000_000;

/// The fastest tempo accepted, 300 beats per minute, in millionths.
pub const MAX_BPM: i64 = 300_000_000;

/// Nanoseconds that a sixteenth note lasts at a tempo of one millionth of a
/// beat per minute: a quarter-note beat lasts 60 seconds at one beat per minute.
pub const SIXTEENTH_NANOS_AT_UNIT_TEMPO: u64 = 15_000_000_000_000_000;

/// The length of a note, relative to a quarter-note beat.
#[derive(Clone, Copy, Debug, PartialEq, Eq, Hash, Structural)]
pub enum NoteLength {
    Whole,
    Half,
    Quarter,
    Eighth,
    Sixteenth,
}

/// How many sixteenth notes a length spans.
pub open spec fn sixteenths(l: NoteLength) -> int {
    match l {
        NoteLength::Whole => 16,
        NoteLength::Half => 8,
        NoteLength::Quarter => 4,
        NoteLength::Eighth => 2,
        NoteLength::Sixteenth => 1,
    }
}

/// A tempo, in millionths of a beat per minute, that durations can be taken at.
pub open spec fn valid_bpm(bpm: int) -> bool {
    0 < bpm <= MAX_BPM
}

/// Nanoseconds in a sixteenth note at `bpm` (millionths of a beat per minute),
/// rounded down.
pub open spec fn sixteenth_nanos(bpm: int) -> int {
    SIXTEENTH_NANOS_AT_UNIT_TEMPO as int / bpm
}

/// Nanoseconds that a note of length `l` lasts at `bpm`: a whole number of
/// sixteenth notes, so that lengths keep their exact ratios.
pub open spec fn duration_nanos(l: NoteLength, bpm: int) -> int {
    sixteenths(l) * sixteenth_nanos(bpm)
}

impl NoteLength {
    /// Number of sixteenth notes in this length.
    pub fn sixteenths(&self) -> (r: u64)
        ensures
            r == sixteenths(*self),
    {
        match self {
            NoteLength::Whole => 16,
            NoteLength::Half => 8,
            NoteLength::Quarter => 4,
            NoteLength::Eighth => 2,
            NoteLength::Sixteenth => 1,
        }
    }

    /// How long this note sounds at tempo `bpm` (millionths of a beat per
    /// minute), measured in nanoseconds: sixty seconds over the tempo, times
    /// four for a whole note down to a quarter for a sixteenth.
    pub fn duration_in_seconds(&self, bpm: i64) -> (r: u64)
        requires
            valid_bpm(bpm as int),
        ensures
            r == duration_nanos(*self, bpm as int),
            r > 0,
    {
        let unit: u64 = SIXTEENTH_NANOS_AT_UNIT_TEMPO / (bpm as u64);
        assert(unit >= 50_000_000) by (nonlinear_arith)
            requires
                unit == SIXTEENTH_NANOS_AT_UNIT_TEMPO as int / bpm as int,
                0 < bpm <= MAX_BPM,
        {
            assert(SIXTEENTH_NANOS_AT_UNIT_TEMPO as int / MAX_BPM as int == 50_000_000);
        }
        assert(unit <= SIXTEENTH_NANOS_AT_UNIT_TEMPO);
        self.sixteenths() * unit
    }

    /// Whether `bpm` (millionths of a beat per minute) is a tempo that
    /// durations can be taken at: above zero and at most 300 beats per minute.
    pub fn check_bpm(bpm: i64) -> (r: bool)
        ensures
            r == valid_bpm(bpm as int),
    {
        0 < bpm && bpm <= MAX_BPM
    }
}

/// At any valid tempo a whole note lasts four quarter notes and a half note
/// two.
pub proof fn lemma_length_ratios(bpm: int)
    requires
        valid_bpm(bpm),
    ensures
        duration_nanos(NoteLength::Whole, bpm) == 4 * duration_nanos(NoteLength::Quarter, bpm),
        duration_nanos(NoteLength::Half, bpm) == 2 * duration_nanos(NoteLength::Quarter, bpm),
{
}

} // verus!
