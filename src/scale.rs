use vstd::prelude::*;
use crate::pitch::{Note, semitone, note_at};

verus! {

/// Semitones above the tonic of each degree of a major scale: the steps
/// whole, whole, half, whole, whole, whole (and a half step back to the tonic).
pub open spec fn major_step(degree: int) -> int {
    if degree == 0 {
        0
    } else if degree == 1 {
        2
    } else if degree == 2 {
        4
    } else if degree == 3 {
        5
    } else if degree == 4 {
        7
    } else if degree == 5 {
        9
    } else {
        11
    }
}

/// The major scale of `tonic`: seven pitch classes in ascending degree order.
pub open spec fn major_scale(tonic: Note) -> Seq<Note> {
    Seq::new(7, |d: int| note_at(semitone(tonic) + major_step(d)))
}

impl Note {
    /// The seven pitch classes of this tonic's major scale, tonic first.
    pub fn get_major_scale(&self) -> (r: Vec<Note>)
        ensures
            r@ == major_scale(*self),
    {
        let r = match self {
            Note::A => vec![
                Note::A, Note::B, Note::Csharp, Note::D, Note::E, Note::Fsharp, Note::Gsharp,
            ],
            Note::Asharp => vec![
                Note::Asharp, Note::C, Note::D, Note::Dsharp, Note::F, Note::G, Note::A,
            ],
            Note::B => vec![
                Note::B, Note::Csharp, Note::Dsharp, Note::E, Note::Fsharp, Note::Gsharp, Note::Asharp,
            ],
            Note::C => vec![
                Note::C, Note::D, Note::E, Note::F, Note::G, Note::A, Note::B,
            ],
            Note::Csharp => vec![
                Note::Csharp, Note::Dsharp, Note::F, Note::Fsharp, Note::Gsharp, Note::Asharp, Note::C,
            ],
            Note::D => vec![
                Note::D, Note::E, Note::Fsharp, Note::G, Note::A, Note::B, Note::Csharp,
            ],
            Note::Dsharp => vec![
                Note::Dsharp, Note::F, Note::G, Note::Gsharp, Note::Asharp, Note::C, Note::D,
            ],
            Note::E => vec![
                Note::E, Note::Fsharp, Note::Gsharp, Note::A, Note::B, Note::Csharp, Note::Dsharp,
            ],
            Note::F => vec![
                Note::F, Note::G, Note::A, Note::Asharp, Note::C, Note::D, Note::E,
            ],
            Note::Fsharp => vec![
                Note::Fsharp, Note::Gsharp, Note::Asharp, Note::B, Note::Csharp, Note::Dsharp, Note::F,
            ],
            Note::G => vec![
                Note::G, Note::A, Note::B, Note::C, Note::D, Note::E, Note::Fsharp,
            ],
            Note::Gsharp => vec![
                Note::Gsharp, Note::Asharp, Note::C, Note::Csharp, Note::Dsharp, Note::F, Note::G,
            ],
        };
        assert(r@ =~= major_scale(*self));
        r
    }
}

/// Every major scale has seven degrees, starts on its tonic, and names no
/// pitch class twice.
pub proof fn lemma_major_scale_shape(tonic: Note)
    ensures
        major_scale(tonic).len() == 7,
        major_scale(tonic)[0] == tonic,
        forall|i: int, j: int|
            0 <= i < j < 7 ==> #[trigger] major_scale(tonic)[i] != #[trigger] major_scale(tonic)[j],
{
    let s = major_scale(tonic);
    crate::pitch::lemma_note_at_semitone(tonic);
    assert forall|i: int, j: int| 0 <= i < j < 7 implies #[trigger] s[i] != #[trigger] s[j] by {
        crate::pitch::lemma_semitone_note_at(semitone(tonic) + major_step(i));
        crate::pitch::lemma_semitone_note_at(semitone(tonic) + major_step(j));
    }
}

} // verus!
