//! The tonal playback engine: pitch classes, note lengths and tempo, major
//! scales and triads, and the plan for rendering several notes at once.
//!
//! Quantities that the audio side would hold as floating point are kept here
//! as exact fixed-point integers: a tempo in millionths of a beat per minute,
//! an octave in thousandths of an octave, a frequency in hundredths of a hertz,
//! and a duration in nanoseconds.

pub mod pitch;
pub mod scale;
pub mod duration;
pub mod note;
pub mod chord;
pub mod dispatch;
pub mod program;

pub use chord::Chord;
pub use dispatch::{PlaybackPlan, playback_plan, pool_size, worker_count};
pub use duration::{NoteLength, MAX_BPM, MICRO_BPM};
pub use pitch::Note;
pub use note::{Frequency, RealNote, Tone, MILLI_OCTAVE, MAX_WHOLE_OCTAVE};
pub use program::{Message, Program, FALLBACK_BPM};
