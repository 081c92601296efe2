use vstd::prelude::*;
use crate::duration::valid_bpm;
use crate::note::{RealNote, Tone, tone_of, octave_in_range};

verus! {

/// How a set of notes is to be sounded at once: one tone per note, in the
/// order given, rendered by a pool of `workers` concurrent workers.
pub struct PlaybackPlan {
    pub tones: Vec<Tone>,
    pub workers: usize,
}

/// Relies on num_cpus::get: the number of logical CPUs this process may run
/// on, which its documentation says is always at least 1.
#[verifier::external_body]
fn available_workers() -> (r: usize)
    ensures
        r >= 1,
{
    num_cpus::get()
}

/// Size of the worker pool for `note_count` notes when `available` workers can
/// run at once: never more workers than notes, nor more than are available.
pub fn worker_count(note_count: usize, available: usize) -> (r: usize)
    ensures
        r == if note_count <= available { note_count } else { available },
{
    if note_count <= available {
        note_count
    } else {
        available
    }
}

/// Size of the worker pool for `note_count` notes on this machine: as many
/// workers as notes, unless the machine runs fewer at once; at least one
/// whenever there is a note.
pub fn pool_size(note_count: usize) -> (r: usize)
    ensures
        r <= note_count,
        note_count > 0 ==> r >= 1,
{
    worker_count(note_count, available_workers())
}

/// Every note's octave offset is low enough for its frequency to be computed.
pub open spec fn all_in_range(notes: Seq<RealNote>) -> bool {
    forall|i: int| 0 <= i < notes.len() ==> octave_in_range(#[trigger] notes[i].octave as int)
}

/// The plan for sounding `notes` together at tempo `bpm` (millionths of a beat
/// per minute): the tone of each note, and a pool no larger than the number of
/// notes. None when some note lies too many octaves up for its frequency to be
/// computed.
pub fn playback_plan(notes: &Vec<RealNote>, bpm: i64) -> (r: Option<PlaybackPlan>)
    requires
        valid_bpm(bpm as int),
    ensures
        r is None <==> !all_in_range(notes@),
        r matches Some(plan) ==> {
            &&& plan.tones@.len() == notes@.len()
            &&& forall|i: int| 0 <= i < notes@.len() ==> #[trigger] plan.tones@[i] == tone_of(notes@[i], bpm as int)
            &&& plan.workers <= notes@.len()
            &&& notes@.len() > 0 ==> plan.workers >= 1
        },
{
    let mut tones: Vec<Tone> = Vec::new();
    let mut i: usize = 0;
    while i < notes.len()
        invariant
            valid_bpm(bpm as int),
            i <= notes@.len(),
            tones@.len() == i,
            forall|j: int| 0 <= j < i ==> octave_in_range(#[trigger] notes@[j].octave as int),
            forall|j: int| 0 <= j < i ==> #[trigger] tones@[j] == tone_of(notes@[j], bpm as int),
        decreases notes@.len() - i,
    {
        let n = notes[i];
        if !n.octave_in_range() {
            return None;
        }
        tones.push(n.tone(bpm));
        i = i + 1;
    }
    Some(PlaybackPlan { tones, workers: pool_size(notes.len()) })
}

} // verus!
