use vstd::prelude::*;

verus! {

/// One of the twelve equal-tempered pitch classes, in chromatic order from A.
#[derive(Clone, Copy, Debug, PartialEq, Eq, Hash, Structural)]
pub enum Note {
    A,
    Asharp,
    B,
    C,
    Csharp,
    D,
    Dsharp,
    E,
    F,
    Fsharp,
    G,
    Gsharp,
}

/// Position of a pitch class in the chromatic circle, counting semitones up from A.
pub open spec fn semitone(n: Note) -> int {
    match n {
        Note::A => 0,
        Note::Asharp => 1,
        Note::B => 2,
        Note::C => 3,
        Note::Csharp => 4,
        Note::D => 5,
        Note::Dsharp => 6,
        Note::E => 7,
        Note::F => 8,
        Note::Fsharp => 9,
        Note::G => 10,
        Note::Gsharp => 11,
    }
}

/// The pitch class at a position of the chromatic circle (taken modulo 12).
pub open spec fn note_at(k: int) -> Note {
    let r = k % 12;
    if r == 0 {
        Note::A
    } else if r == 1 {
        Note::Asharp
    } else if r == 2 {
        Note::B
    } else if r == 3 {
        Note::C
    } else if r == 4 {
        Note::Csharp
    } else if r == 5 {
        Note::D
    } else if r == 6 {
        Note::Dsharp
    } else if r == 7 {
        Note::E
    } else if r == 8 {
        Note::F
    } else if r == 9 {
        Note::Fsharp
    } else if r == 10 {
        Note::G
    } else {
        Note::Gsharp
    }
}

/// Going round the circle and back gives the same pitch class.
pub proof fn lemma_note_at_semitone(n: Note)
    ensures
        note_at(semitone(n)) == n,
        0 <= semitone(n) < 12,
{
}

/// Two positions of the circle name the same pitch class exactly when they
/// are equal modulo 12.
pub proof fn lemma_semitone_note_at(k: int)
    ensures
        semitone(note_at(k)) == k % 12,
{
}

} // verus!
