use vstd::prelude::*;
use crate::pitch::Note;
use crate::duration::{NoteLength, valid_bpm, duration_nanos};

verus! {

/// Thousandths of an octave in one octave: an octave offset is held as an
/// integer count of these.
pub const MILLI_OCTAVE: u32 = 1000;

/// The highest whole octave that a frequency can be raised to and still fit
/// in 64 bits of hundredths of a hertz.
pub const MAX_WHOLE_OCTAVE: u32 = 50;

/// One sounding event: a pitch class, a length, and an octave offset in
/// thousandths of an octave above the reference octave.
#[derive(Clone, Copy, Debug, PartialEq, Eq, Hash, Structural)]
pub struct RealNote {
    pub note: Note,
    pub length: NoteLength,
    pub octave: u32,
}

/// A frequency split where it stops being exact: `centihertz` hundredths of a
/// hertz, still to be raised by `fine` thousandths of an octave (a factor of
/// two to the power `fine / 1000`, between 1 inclusive and 2 exclusive).
#[derive(Clone, Copy, Debug, PartialEq, Eq, Hash, Structural)]
pub struct Frequency {
    pub centihertz: u64,
    pub fine: u32,
}

/// What the audio side needs to sound one note: its frequency and how long it
/// lasts, in nanoseconds.
#[derive(Clone, Copy, Debug, PartialEq, Eq, Hash, Structural)]
pub struct Tone {
    pub frequency: Frequency,
    pub nanos: u64,
}

/// Frequency of a pitch class in the reference octave, in hundredths of a hertz.
pub open spec fn base_centihertz(n: Note) -> int {
    match n {
        Note::C => 1635,
        Note::Csharp => 1732,
        Note::D => 1835,
        Note::Dsharp => 1945,
        Note::E => 2060,
        Note::F => 2183,
        Note::Fsharp => 2312,
        Note::G => 2450,
        Note::Gsharp => 2596,
        Note::A => 2750,
        Note::Asharp => 2914,
        Note::B => 3087,
    }
}

/// Two to the power `k`.
pub open spec fn octave_factor(k: nat) -> nat
    decreases k,
{
    if k == 0 {
        1
    } else {
        2 * octave_factor((k - 1) as nat)
    }
}

/// An octave offset (in thousandths) whose frequency fits the integer range.
pub open spec fn octave_in_range(octave: int) -> bool {
    0 <= octave && octave / MILLI_OCTAVE as int <= MAX_WHOLE_OCTAVE
}

/// Hundredths of a hertz of `n` raised by the whole octaves in `octave`.
pub open spec fn whole_octave_centihertz(n: Note, octave: int) -> int {
    base_centihertz(n) * octave_factor((octave / MILLI_OCTAVE as int) as nat)
}

/// The frequency of `n` at `octave` thousandths of an octave: the base
/// frequency doubled once per whole octave, and the rest left as `fine`.
pub open spec fn effective_frequency(n: Note, octave: int) -> Frequency {
    Frequency {
        centihertz: whole_octave_centihertz(n, octave) as u64,
        fine: (octave % MILLI_OCTAVE as int) as u32,
    }
}

/// The tone of note `n` at tempo `bpm`.
pub open spec fn tone_of(n: RealNote, bpm: int) -> Tone {
    Tone {
        frequency: effective_frequency(n.note, n.octave as int),
        nanos: duration_nanos(n.length, bpm) as u64,
    }
}

proof fn lemma_octave_factor_monotonic(a: nat, b: nat)
    requires
        a <= b,
    ensures
        1 <= octave_factor(a) <= octave_factor(b),
    decreases b,
{
    if b > a {
        lemma_octave_factor_monotonic(a, (b - 1) as nat);
    } else if a > 0 {
        lemma_octave_factor_monotonic((a - 1) as nat, (a - 1) as nat);
    }
}

proof fn lemma_centihertz_fits(n: Note, k: nat)
    requires
        k <= MAX_WHOLE_OCTAVE,
    ensures
        0 < base_centihertz(n) * octave_factor(k) <= 3087 * octave_factor(MAX_WHOLE_OCTAVE as nat),
        3087 * octave_factor(MAX_WHOLE_OCTAVE as nat) < u64::MAX,
{
    lemma_octave_factor_monotonic(k, MAX_WHOLE_OCTAVE as nat);
    let f = octave_factor(k);
    let m = octave_factor(MAX_WHOLE_OCTAVE as nat);
    let b = base_centihertz(n);
    assert(0 < b * f <= 3087 * m) by (nonlinear_arith)
        requires
            0 < b <= 3087,
            1 <= f <= m,
    ;
    reveal_with_fuel(octave_factor, 51);
    assert(octave_factor(MAX_WHOLE_OCTAVE as nat) == 1125899906842624);
}

impl RealNote {
    /// Whether this note's octave offset is low enough for its frequency to be
    /// computed: at most 50 whole octaves above the reference octave.
    pub fn octave_in_range(&self) -> (r: bool)
        ensures
            r == octave_in_range(self.octave as int),
    {
        self.octave / MILLI_OCTAVE <= MAX_WHOLE_OCTAVE
    }

    /// Frequency of a pitch class in the reference octave, in hundredths of a
    /// hertz: from C at 16.35 Hz up to B at 30.87 Hz.
    pub fn base_frequencies(note: Note) -> (r: u64)
        ensures
            r == base_centihertz(note),
    {
        match note {
            Note::C => 1635,
            Note::Csharp => 1732,
            Note::D => 1835,
            Note::Dsharp => 1945,
            Note::E => 2060,
            Note::F => 2183,
            Note::Fsharp => 2312,
            Note::G => 2450,
            Note::Gsharp => 2596,
            Note::A => 2750,
            Note::Asharp => 2914,
            Note::B => 3087,
        }
    }

    /// The frequency this note sounds at: its base frequency times two to the
    /// power of its octave offset.
    pub fn frequency(&self) -> (r: Frequency)
        requires
            octave_in_range(self.octave as int),
        ensures
            r == effective_frequency(self.note, self.octave as int),
    {
        let whole: u32 = self.octave / MILLI_OCTAVE;
        let base: u64 = Self::base_frequencies(self.note);
        let mut centihertz: u64 = base;
        let mut i: u32 = 0;
        proof {
            lemma_centihertz_fits(self.note, whole as nat);
        }
        while i < whole
            invariant
                whole <= MAX_WHOLE_OCTAVE,
                i <= whole,
                base == base_centihertz(self.note),
                centihertz == base * octave_factor(i as nat),
            decreases whole - i,
        {
            proof {
                lemma_centihertz_fits(self.note, (i + 1) as nat);
            }
            centihertz = centihertz * 2;
            i = i + 1;
        }
        Frequency { centihertz, fine: self.octave % MILLI_OCTAVE }
    }

    /// Everything needed to sound this note at tempo `bpm` (millionths of a
    /// beat per minute): its frequency and its duration.
    pub fn tone(&self, bpm: i64) -> (r: Tone)
        requires
            octave_in_range(self.octave as int),
            valid_bpm(bpm as int),
        ensures
            r == tone_of(*self, bpm as int),
            r.frequency == effective_frequency(self.note, self.octave as int),
            r.nanos == duration_nanos(self.length, bpm as int),
    {
        Tone { frequency: self.frequency(), nanos: self.length.duration_in_seconds(bpm) }
    }
}

/// Raising the octave offset by one whole octave doubles the frequency and
/// leaves the fraction of an octave as it was.
pub proof fn lemma_octave_doubles(n: Note, octave: int)
    requires
        octave_in_range(octave),
        octave_in_range(octave + MILLI_OCTAVE as int),
    ensures
        effective_frequency(n, octave + MILLI_OCTAVE as int).centihertz
            == 2 * effective_frequency(n, octave).centihertz,
        effective_frequency(n, octave + MILLI_OCTAVE as int).fine
            == effective_frequency(n, octave).fine,
{
    let k = octave / MILLI_OCTAVE as int;
    assert((octave + MILLI_OCTAVE as int) / MILLI_OCTAVE as int == k + 1);
    lemma_centihertz_fits(n, (k + 1) as nat);
    lemma_centihertz_fits(n, k as nat);
    let f = octave_factor(k as nat);
    let g = octave_factor((k + 1) as nat);
    let b = base_centihertz(n);
    assert(g == 2 * f);
    assert(b * g == 2 * (b * f)) by (nonlinear_arith)
        requires
            g == 2 * f,
    ;
}

} // verus!
