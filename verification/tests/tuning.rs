use synth::notes::Note;
use synth::tuning::C0_MICROHERTZ;

const BELOW_A0: [Note; 9] = [
    Note::C0,
    Note::D0b,
    Note::D0,
    Note::E0b,
    Note::E0,
    Note::F0,
    Note::G0b,
    Note::G0,
    Note::A0b,
];

fn all_notes() -> Vec<Note> {
    let mut notes = BELOW_A0.to_vec();
    for n in 9..=107u32 {
        notes.push(Note::try_from(n).unwrap());
    }
    notes
}

#[test]
fn c0_has_the_base_frequency() {
    assert_eq!(C0_MICROHERTZ, 16_351_600);
    assert_eq!(Note::C0.freq(), 16_351_600);
}

#[test]
fn frequencies_are_rounded_down_to_the_microhertz() {
    assert_eq!(Note::A0.freq(), 27_500_003);
    assert_eq!(Note::C4.freq(), 261_625_600);
    assert_eq!(Note::A4.freq(), 440_000_058);
    assert_eq!(Note::B8.freq(), 7_902_133_868);
}

#[test]
fn whole_octaves_above_c0_double_exactly() {
    assert_eq!(Note::C1.freq(), 2 * 16_351_600);
    assert_eq!(Note::C2.freq(), 4 * 16_351_600);
    assert_eq!(Note::C8.freq(), 256 * 16_351_600);
}

#[test]
fn freq_follows_equal_temperament_within_a_millihertz() {
    for note in all_notes() {
        let n = note.ordinal();
        let expected = 16.35160f64 * 2f64.powf(n as f64 / 12.0);
        let hertz = note.freq() as f64 / 1_000_000.0;
        assert!((hertz - expected).abs() < 1e-3, "{note:?}: {hertz} against {expected}");
    }
}

#[test]
fn freq_is_the_floor_of_the_exact_value() {
    for note in all_notes() {
        let n = note.ordinal();
        let exact = 16_351_600f64 * 2f64.powf(n as f64 / 12.0);
        let f = note.freq() as f64;
        assert!(f <= exact + 1e-3 && exact < f + 1.0 + 1e-3, "{note:?}: {f} against {exact}");
    }
}

#[test]
fn freq_grows_by_a_semitone_from_note_to_note() {
    let notes = all_notes();
    for pair in notes.windows(2) {
        let (low, high) = (pair[0].freq() as f64, pair[1].freq() as f64);
        assert!(low < high);
        assert!((high / low - 2f64.powf(1.0 / 12.0)).abs() < 1e-6);
    }
}

#[test]
fn an_octave_up_doubles_the_frequency_to_the_microhertz() {
    let notes = all_notes();
    for i in 0..notes.len() - 12 {
        let (low, high) = (notes[i].freq(), notes[i + 12].freq());
        assert!(high == 2 * low || high == 2 * low + 1);
    }
}
