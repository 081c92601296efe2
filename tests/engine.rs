use tonal_engine::{
    playback_plan, pool_size, worker_count, Frequency, Message, Note, NoteLength, Program,
    RealNote, FALLBACK_BPM, MAX_BPM, MICRO_BPM, MILLI_OCTAVE,
};

const ALL_NOTES: [Note; 12] = [
    Note::A,
    Note::Asharp,
    Note::B,
    Note::C,
    Note::Csharp,
    Note::D,
    Note::Dsharp,
    Note::E,
    Note::F,
    Note::Fsharp,
    Note::G,
    Note::Gsharp,
];

fn note(n: Note, octave: u32) -> RealNote {
    RealNote { note: n, length: NoteLength::Whole, octave }
}

#[test]
fn whole_and_half_are_multiples_of_quarter() {
    for bpm in [1, 7_000_001, 60 * MICRO_BPM, 120 * MICRO_BPM, 123_456_789, MAX_BPM] {
        let q = NoteLength::Quarter.duration_in_seconds(bpm);
        assert_eq!(NoteLength::Whole.duration_in_seconds(bpm), 4 * q);
        assert_eq!(NoteLength::Half.duration_in_seconds(bpm), 2 * q);
    }
}

#[test]
fn durations_at_120_bpm() {
    let bpm = 120 * MICRO_BPM;
    assert_eq!(NoteLength::Whole.duration_in_seconds(bpm), 2_000_000_000);
    assert_eq!(NoteLength::Half.duration_in_seconds(bpm), 1_000_000_000);
    assert_eq!(NoteLength::Quarter.duration_in_seconds(bpm), 500_000_000);
    assert_eq!(NoteLength::Eighth.duration_in_seconds(bpm), 250_000_000);
    assert_eq!(NoteLength::Sixteenth.duration_in_seconds(bpm), 125_000_000);
}

#[test]
fn durations_at_extreme_tempos() {
    assert_eq!(NoteLength::Sixteenth.duration_in_seconds(MAX_BPM), 50_000_000);
    assert_eq!(NoteLength::Quarter.duration_in_seconds(60 * MICRO_BPM), 1_000_000_000);
    assert_eq!(
        NoteLength::Whole.duration_in_seconds(1),
        240_000_000_000_000_000
    );
    // 90 bpm: a sixteenth is 1/6 s, rounded down to whole nanoseconds.
    assert_eq!(NoteLength::Sixteenth.duration_in_seconds(90 * MICRO_BPM), 166_666_666);
    assert_eq!(NoteLength::Quarter.duration_in_seconds(90 * MICRO_BPM), 666_666_664);
}

#[test]
fn bpm_validity_bounds() {
    assert!(!NoteLength::check_bpm(0));
    assert!(NoteLength::check_bpm(300 * MICRO_BPM));
    assert!(!NoteLength::check_bpm(300_000_100));
    assert!(!NoteLength::check_bpm(-5 * MICRO_BPM));
    assert!(NoteLength::check_bpm(1));
    assert!(NoteLength::check_bpm(120 * MICRO_BPM));
    assert!(!NoteLength::check_bpm(i64::MIN));
    assert!(!NoteLength::check_bpm(i64::MAX));
}

#[test]
fn base_frequencies_table() {
    assert_eq!(RealNote::base_frequencies(Note::C), 1635);
    assert_eq!(RealNote::base_frequencies(Note::Csharp), 1732);
    assert_eq!(RealNote::base_frequencies(Note::D), 1835);
    assert_eq!(RealNote::base_frequencies(Note::Dsharp), 1945);
    assert_eq!(RealNote::base_frequencies(Note::E), 2060);
    assert_eq!(RealNote::base_frequencies(Note::F), 2183);
    assert_eq!(RealNote::base_frequencies(Note::Fsharp), 2312);
    assert_eq!(RealNote::base_frequencies(Note::G), 2450);
    assert_eq!(RealNote::base_frequencies(Note::Gsharp), 2596);
    assert_eq!(RealNote::base_frequencies(Note::A), 2750);
    assert_eq!(RealNote::base_frequencies(Note::Asharp), 2914);
    assert_eq!(RealNote::base_frequencies(Note::B), 3087);
}

#[test]
fn frequency_splits_whole_and_fine_octaves() {
    assert_eq!(note(Note::A, 0).frequency(), Frequency { centihertz: 2750, fine: 0 });
    assert_eq!(note(Note::A, 4000).frequency(), Frequency { centihertz: 44000, fine: 0 });
    assert_eq!(note(Note::C, 2500).frequency(), Frequency { centihertz: 6540, fine: 500 });
    assert_eq!(note(Note::B, 999).frequency(), Frequency { centihertz: 3087, fine: 999 });
    assert_eq!(
        note(Note::B, 50_999).frequency(),
        Frequency { centihertz: 3087 * (1u64 << 50), fine: 999 }
    );
}

#[test]
fn octave_up_doubles_frequency() {
    for n in ALL_NOTES {
        for octave in [0, 1, 999, 2000, 3250, 10_000, 49_999] {
            let low = note(n, octave).frequency();
            let high = note(n, octave + MILLI_OCTAVE).frequency();
            assert_eq!(high.centihertz, 2 * low.centihertz);
            assert_eq!(high.fine, low.fine);
        }
    }
}

#[test]
fn octave_range_edge() {
    assert!(note(Note::C, 50_999).octave_in_range());
    assert!(!note(Note::C, 51_000).octave_in_range());
    assert!(!note(Note::C, u32::MAX).octave_in_range());
}

#[test]
fn tone_combines_frequency_and_duration() {
    let t = RealNote { note: Note::A, length: NoteLength::Quarter, octave: 4000 }
        .tone(120 * MICRO_BPM);
    assert_eq!(t.frequency, Frequency { centihertz: 44000, fine: 0 });
    assert_eq!(t.nanos, 500_000_000);
}

#[test]
fn major_scale_shape_for_every_tonic() {
    for tonic in ALL_NOTES {
        let s = tonic.get_major_scale();
        assert_eq!(s.len(), 7);
        assert_eq!(s[0], tonic);
        for i in 0..7 {
            for j in (i + 1)..7 {
                assert_ne!(s[i], s[j]);
            }
        }
    }
}

#[test]
fn major_scales_of_c_and_fsharp() {
    assert_eq!(
        Note::C.get_major_scale(),
        vec![Note::C, Note::D, Note::E, Note::F, Note::G, Note::A, Note::B]
    );
    assert_eq!(
        Note::Fsharp.get_major_scale(),
        vec![Note::Fsharp, Note::Gsharp, Note::Asharp, Note::B, Note::Csharp, Note::Dsharp, Note::F]
    );
}

#[test]
fn triad_on_c() {
    let chord = note(Note::C, 2000).triad();
    assert_eq!(chord.pitches(), vec![Note::C, Note::E, Note::G]);
    for n in chord.notes() {
        assert_eq!(n.length, NoteLength::Whole);
        assert_eq!(n.octave, 2000);
    }
}

#[test]
fn triad_on_a() {
    let chord = note(Note::A, 0).triad();
    assert_eq!(chord.pitches(), vec![Note::A, Note::Csharp, Note::E]);
}

#[test]
fn triad_twice_gives_same_pitches() {
    for n in ALL_NOTES {
        let root = RealNote { note: n, length: NoteLength::Eighth, octave: 3141 };
        let first = root.triad();
        let second = root.triad();
        assert_eq!(first.pitches(), second.pitches());
        let again = first.notes()[0].triad();
        assert_eq!(again.notes(), first.notes());
    }
}

#[test]
fn worker_count_is_bounded() {
    assert_eq!(worker_count(3, 8), 3);
    assert_eq!(worker_count(5, 2), 2);
    assert_eq!(worker_count(0, 4), 0);
    assert_eq!(worker_count(1, 1), 1);
}

#[test]
fn pool_size_never_exceeds_notes() {
    assert_eq!(pool_size(0), 0);
    assert_eq!(pool_size(1), 1);
    let three = pool_size(3);
    assert!(three >= 1 && three <= 3);
}

#[test]
fn plan_for_a_chord() {
    let chord = note(Note::C, 1000).triad();
    let plan = playback_plan(chord.notes(), 60 * MICRO_BPM).unwrap();
    assert_eq!(plan.tones.len(), 3);
    assert_eq!(plan.tones[0].frequency.centihertz, 3270);
    assert_eq!(plan.tones[1].frequency.centihertz, 4120);
    assert_eq!(plan.tones[2].frequency.centihertz, 4900);
    for t in &plan.tones {
        assert_eq!(t.nanos, 4_000_000_000);
    }
    assert!(plan.workers >= 1 && plan.workers <= 3);
}

#[test]
fn plan_refuses_octave_out_of_range() {
    let notes = vec![note(Note::C, 1000), note(Note::D, 51_000)];
    assert!(playback_plan(&notes, 60 * MICRO_BPM).is_none());
    let empty: Vec<RealNote> = Vec::new();
    let plan = playback_plan(&empty, 60 * MICRO_BPM).unwrap();
    assert!(plan.tones.is_empty());
    assert_eq!(plan.workers, 0);
}

#[test]
fn default_program() {
    let p = Program::default();
    assert_eq!(p, Program { octave: 2000, bpm: 120 * MICRO_BPM, play_chords: false });
}

#[test]
fn update_bpm_falls_back() {
    let mut p = Program::default();
    p.update_bpm(200 * MICRO_BPM);
    assert_eq!(p.bpm, 200 * MICRO_BPM);
    p.update_bpm(0);
    assert_eq!(p.bpm, FALLBACK_BPM);
    p.update_bpm(301 * MICRO_BPM);
    assert_eq!(p.bpm, 60 * MICRO_BPM);
}

#[test]
fn update_messages() {
    let mut p = Program::default();
    assert!(p.update(Message::OctaveChange(3000)).is_empty());
    assert_eq!(p.octave, 3000);
    assert!(p.update(Message::BpmChange(90 * MICRO_BPM)).is_empty());
    assert_eq!(p.bpm, 90 * MICRO_BPM);
    assert!(p.update(Message::CustomBpmChange(None)).is_empty());
    assert_eq!(p.bpm, 90 * MICRO_BPM);
    assert!(p.update(Message::CustomBpmChange(Some(-5))).is_empty());
    assert_eq!(p.bpm, FALLBACK_BPM);
    let single = p.update(Message::Play(Note::G));
    assert_eq!(single, vec![RealNote { note: Note::G, length: NoteLength::Whole, octave: 3000 }]);
    assert!(p.update(Message::PlayChords).is_empty());
    assert!(p.play_chords);
    let chord = p.update(Message::Play(Note::D));
    let pitches: Vec<Note> = chord.iter().map(|n| n.note).collect();
    assert_eq!(pitches, vec![Note::D, Note::Fsharp, Note::A]);
    assert!(chord.iter().all(|n| n.octave == 3000 && n.length == NoteLength::Whole));
    p.update(Message::PlayChords);
    assert!(!p.play_chords);
}
