use vstd::prelude::*;
use crate::pitch::Note;
use crate::scale::major_scale;
use crate::note::RealNote;

verus! {

/// Three notes sounded together: the 1st, 3rd and 5th degrees of a tonic's
/// major scale, all of one length and octave.
pub struct Chord {
    notes: Vec<RealNote>,
}

/// The note `n` with its pitch class replaced by `p`.
pub open spec fn with_pitch(n: RealNote, p: Note) -> RealNote {
    RealNote { note: p, length: n.length, octave: n.octave }
}

/// The major triad on `n`: degrees 1, 3 and 5 of the major scale of its pitch
/// class, each with the length and octave of `n`.
pub open spec fn triad_notes(n: RealNote) -> Seq<RealNote> {
    let s = major_scale(n.note);
    seq![with_pitch(n, s[0]), with_pitch(n, s[2]), with_pitch(n, s[4])]
}

/// The pitch classes of a sequence of notes, in order.
pub open spec fn pitches_of(notes: Seq<RealNote>) -> Seq<Note> {
    notes.map_values(|n: RealNote| n.note)
}

impl View for Chord {
    type V = Seq<RealNote>;

    closed spec fn view(&self) -> Seq<RealNote> {
        self.notes@
    }
}

impl Chord {
    /// A chord is the major triad on its first note.
    pub open spec fn wf(&self) -> bool {
        self@.len() == 3 && self@ == triad_notes(self@[0])
    }

    /// The three notes, root first.
    pub fn notes(&self) -> (r: &Vec<RealNote>)
        ensures
            r@ == self@,
    {
        &self.notes
    }

    /// The pitch classes of the three notes, root first.
    pub fn pitches(&self) -> (r: Vec<Note>)
        ensures
            r@ == pitches_of(self@),
    {
        let mut r: Vec<Note> = Vec::new();
        let mut i: usize = 0;
        while i < self.notes.len()
            invariant
                i <= self.notes@.len(),
                r@ == pitches_of(self.notes@.subrange(0, i as int)),
            decreases self.notes@.len() - i,
        {
            proof {
                assert(self.notes@.subrange(0, i + 1) =~= self.notes@.subrange(0, i as int).push(
                    self.notes@[i as int],
                ));
                assert(pitches_of(self.notes@.subrange(0, i + 1)) =~= pitches_of(
                    self.notes@.subrange(0, i as int),
                ).push(self.notes@[i as int].note));
            }
            r.push(self.notes[i].note);
            i = i + 1;
        }
        assert(self.notes@.subrange(0, i as int) =~= self.notes@);
        r
    }
}

impl RealNote {
    /// The major triad whose root is this note.
    pub fn triad(&self) -> (r: Chord)
        ensures
            r@ == triad_notes(*self),
            r.wf(),
    {
        let scale = self.note.get_major_scale();
        let notes = vec![
            RealNote { note: scale[0], length: self.length, octave: self.octave },
            RealNote { note: scale[2], length: self.length, octave: self.octave },
            RealNote { note: scale[4], length: self.length, octave: self.octave },
        ];
        proof {
            crate::scale::lemma_major_scale_shape(self.note);
            assert(notes@ =~= triad_notes(*self));
        }
        Chord { notes }
    }
}

/// A triad's root is the note it was built on, so building the triad again
/// on that root gives the same notes, and so the same pitch classes.
pub proof fn lemma_triad_round_trip(n: RealNote)
    ensures
        triad_notes(n)[0] == n,
        triad_notes(triad_notes(n)[0]) == triad_notes(n),
        pitches_of(triad_notes(triad_notes(n)[0])) == pitches_of(triad_notes(n)),
{
    crate::scale::lemma_major_scale_shape(n.note);
}

} // verus!
