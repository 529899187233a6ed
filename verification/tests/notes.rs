use synth::notes::{Note, OutOfRange, MAX_ORDINAL, MIN_ORDINAL};

#[test]
fn ordinals_count_semitones_from_c0() {
    assert_eq!(Note::C0.ordinal(), 0);
    assert_eq!(Note::D0b.ordinal(), 1);
    assert_eq!(Note::A0.ordinal(), 9);
    assert_eq!(Note::C1.ordinal(), 12);
    assert_eq!(Note::C4.ordinal(), 48);
    assert_eq!(Note::A4.ordinal(), 57);
    assert_eq!(Note::B8.ordinal(), 107);
}

#[test]
fn range_is_a0_to_b8() {
    assert_eq!(MIN_ORDINAL, Note::A0.ordinal());
    assert_eq!(MAX_ORDINAL, Note::B8.ordinal());
}

#[test]
fn conversion_accepts_both_ends_of_the_range() {
    assert_eq!(Note::try_from(9u32), Ok(Note::A0));
    assert_eq!(Note::try_from(107u32), Ok(Note::B8));
    assert_eq!(Note::try_from(57u32), Ok(Note::A4));
}

#[test]
fn conversion_refuses_the_ordinal_below_the_minimum() {
    assert_eq!(Note::try_from(8u32), Err(OutOfRange { value: 8 }));
    assert_eq!(Note::try_from(0u32), Err(OutOfRange { value: 0 }));
}

#[test]
fn conversion_refuses_the_ordinal_above_the_maximum() {
    assert_eq!(Note::try_from(108u32), Err(OutOfRange { value: 108 }));
    assert_eq!(Note::try_from(u32::MAX), Err(OutOfRange { value: u32::MAX }));
}

#[test]
fn conversion_round_trips_over_the_whole_range() {
    for n in MIN_ORDINAL..=MAX_ORDINAL {
        let note = Note::try_from(n).unwrap();
        assert_eq!(note.ordinal(), n);
    }
}

#[test]
fn try_into_goes_through_the_same_check() {
    let accepted: Result<Note, OutOfRange> = 58u32.try_into();
    assert_eq!(accepted, Ok(Note::B4b));
    let refused: Result<Note, OutOfRange> = 200u32.try_into();
    assert_eq!(refused, Err(OutOfRange { value: 200 }));
}

#[test]
fn next_note_is_one_semitone_up() {
    assert_eq!(Note::A4.next_note(), Note::B4b);
    assert_eq!(Note::B4.next_note(), Note::C5);
    assert_eq!(Note::A0.next_note(), Note::B0b);
}

#[test]
fn prev_note_is_one_semitone_down() {
    assert_eq!(Note::A4.prev_note(), Note::A4b);
    assert_eq!(Note::C5.prev_note(), Note::B4);
    assert_eq!(Note::B8.prev_note(), Note::B8b);
}

#[test]
fn next_note_saturates_at_the_highest_pitch() {
    assert_eq!(Note::B8.next_note(), Note::B8);
    assert_eq!(Note::B8b.next_note(), Note::B8);
}

#[test]
fn prev_note_saturates_at_the_lowest_pitch() {
    assert_eq!(Note::A0.prev_note(), Note::A0);
    assert_eq!(Note::B0b.prev_note(), Note::A0);
}

#[test]
fn pitches_below_the_range_move_to_its_lower_end() {
    assert_eq!(Note::C0.next_note(), Note::A0);
    assert_eq!(Note::A0b.next_note(), Note::A0);
    assert_eq!(Note::C0.prev_note(), Note::A0);
    assert_eq!(Note::A0b.prev_note(), Note::A0);
}

#[test]
fn steps_undo_each_other_inside_the_range() {
    for n in MIN_ORDINAL..MAX_ORDINAL {
        let note = Note::try_from(n).unwrap();
        assert_eq!(note.next_note().ordinal(), n + 1);
        assert_eq!(note.next_note().prev_note(), note);
    }
}
