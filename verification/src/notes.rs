//! The note table: the pitches of nine octaves in twelve-tone equal temperament,
//! numbered by semitone from `C0`.

use vstd::prelude::*;

verus! {

/// Ordinal of `A0`, the lowest pitch that an integer converts to.
pub const MIN_ORDINAL: u32 = 9;

/// Ordinal of `B8`, the highest pitch.
pub const MAX_ORDINAL: u32 = 107;

/// A pitch. The variants stand in ascending order, one semitone apart, so that
/// the ordinal of `C0` is 0 and the ordinal of `B8` is 107.
#[derive(Debug, Clone, Copy, PartialEq, Eq, Structural)]
pub enum Note {
    C0,
    D0b,
    D0,
    E0b,
    E0,
    F0,
    G0b,
    G0,
    A0b,
    A0,
    B0b,
    B0,
    C1,
    D1b,
    D1,
    E1b,
    E1,
    F1,
    G1b,
    G1,
    A1b,
    A1,
    B1b,
    B1,
    C2,
    D2b,
    D2,
    E2b,
    E2,
    F2,
    G2b,
    G2,
    A2b,
    A2,
    B2b,
    B2,
    C3,
    D3b,
    D3,
    E3b,
    E3,
    F3,
    G3b,
    G3,
    A3b,
    A3,
    B3b,
    B3,
    C4,
    D4b,
    D4,
    E4b,
    E4,
    F4,
    G4b,
    G4,
    A4b,
    A4,
    B4b,
    B4,
    C5,
    D5b,
    D5,
    E5b,
    E5,
    F5,
    G5b,
    G5,
    A5b,
    A5,
    B5b,
    B5,
    C6,
    D6b,
    D6,
    E6b,
    E6,
    F6,
    G6b,
    G6,
    A6b,
    A6,
    B6b,
    B6,
    C7,
    D7b,
    D7,
    E7b,
    E7,
    F7,
    G7b,
    G7,
    A7b,
    A7,
    B7b,
    B7,
    C8,
    D8b,
    D8,
    E8b,
    E8,
    F8,
    G8b,
    G8,
    A8b,
    A8,
    B8b,
    B8,
}

/// The integer that was refused by a conversion to a [`Note`].
#[derive(Debug, Clone, Copy, PartialEq, Eq, Structural)]
pub struct OutOfRange {
    pub value: u32,
}

/// Whether `n` is the ordinal of a pitch that an integer converts to.
pub open spec fn in_range(n: int) -> bool {
    MIN_ORDINAL <= n <= MAX_ORDINAL
}

/// The ordinal in `[MIN_ORDINAL, MAX_ORDINAL]` that is nearest to `n`.
pub open spec fn clamp_ordinal(n: int) -> int {
    if n < MIN_ORDINAL {
        MIN_ORDINAL as int
    } else if n > MAX_ORDINAL {
        MAX_ORDINAL as int
    } else {
        n
    }
}

impl Note {
    /// The number of semitones between `C0` and this pitch.
    pub open spec fn ordinal_spec(self) -> u32 {
        match self {
            Note::C0 => 0,
            Note::D0b => 1,
            Note::D0 => 2,
            Note::E0b => 3,
            Note::E0 => 4,
            Note::F0 => 5,
            Note::G0b => 6,
            Note::G0 => 7,
            Note::A0b => 8,
            Note::A0 => 9,
            Note::B0b => 10,
            Note::B0 => 11,
            Note::C1 => 12,
            Note::D1b => 13,
            Note::D1 => 14,
            Note::E1b => 15,
            Note::E1 => 16,
            Note::F1 => 17,
            Note::G1b => 18,
            Note::G1 => 19,
            Note::A1b => 20,
            Note::A1 => 21,
            Note::B1b => 22,
            Note::B1 => 23,
            Note::C2 => 24,
            Note::D2b => 25,
            Note::D2 => 26,
            Note::E2b => 27,
            Note::E2 => 28,
            Note::F2 => 29,
            Note::G2b => 30,
            Note::G2 => 31,
            Note::A2b => 32,
            Note::A2 => 33,
            Note::B2b => 34,
            Note::B2 => 35,
            Note::C3 => 36,
            Note::D3b => 37,
            Note::D3 => 38,
            Note::E3b => 39,
            Note::E3 => 40,
            Note::F3 => 41,
            Note::G3b => 42,
            Note::G3 => 43,
            Note::A3b => 44,
            Note::A3 => 45,
            Note::B3b => 46,
            Note::B3 => 47,
            Note::C4 => 48,
            Note::D4b => 49,
            Note::D4 => 50,
            Note::E4b => 51,
            Note::E4 => 52,
            Note::F4 => 53,
            Note::G4b => 54,
            Note::G4 => 55,
            Note::A4b => 56,
            Note::A4 => 57,
            Note::B4b => 58,
            Note::B4 => 59,
            Note::C5 => 60,
            Note::D5b => 61,
            Note::D5 => 62,
            Note::E5b => 63,
            Note::E5 => 64,
            Note::F5 => 65,
            Note::G5b => 66,
            Note::G5 => 67,
            Note::A5b => 68,
            Note::A5 => 69,
            Note::B5b => 70,
            Note::B5 => 71,
            Note::C6 => 72,
            Note::D6b => 73,
            Note::D6 => 74,
            Note::E6b => 75,
            Note::E6 => 76,
            Note::F6 => 77,
            Note::G6b => 78,
            Note::G6 => 79,
            Note::A6b => 80,
            Note::A6 => 81,
            Note::B6b => 82,
            Note::B6 => 83,
            Note::C7 => 84,
            Note::D7b => 85,
            Note::D7 => 86,
            Note::E7b => 87,
            Note::E7 => 88,
            Note::F7 => 89,
            Note::G7b => 90,
            Note::G7 => 91,
            Note::A7b => 92,
            Note::A7 => 93,
            Note::B7b => 94,
            Note::B7 => 95,
            Note::C8 => 96,
            Note::D8b => 97,
            Note::D8 => 98,
            Note::E8b => 99,
            Note::E8 => 100,
            Note::F8 => 101,
            Note::G8b => 102,
            Note::G8 => 103,
            Note::A8b => 104,
            Note::A8 => 105,
            Note::B8b => 106,
            Note::B8 => 107,
        }
    }

    /// The number of semitones between `C0` and this pitch.
    #[verifier::when_used_as_spec(ordinal_spec)]
    pub fn ordinal(self) -> (n: u32)
        ensures
            n == self.ordinal_spec(),
            n <= MAX_ORDINAL,
    {
        match self {
            Note::C0 => 0,
            Note::D0b => 1,
            Note::D0 => 2,
            Note::E0b => 3,
            Note::E0 => 4,
            Note::F0 => 5,
            Note::G0b => 6,
            Note::G0 => 7,
            Note::A0b => 8,
            Note::A0 => 9,
            Note::B0b => 10,
            Note::B0 => 11,
            Note::C1 => 12,
            Note::D1b => 13,
            Note::D1 => 14,
            Note::E1b => 15,
            Note::E1 => 16,
            Note::F1 => 17,
            Note::G1b => 18,
            Note::G1 => 19,
            Note::A1b => 20,
            Note::A1 => 21,
            Note::B1b => 22,
            Note::B1 => 23,
            Note::C2 => 24,
            Note::D2b => 25,
            Note::D2 => 26,
            Note::E2b => 27,
            Note::E2 => 28,
            Note::F2 => 29,
            Note::G2b => 30,
            Note::G2 => 31,
            Note::A2b => 32,
            Note::A2 => 33,
            Note::B2b => 34,
            Note::B2 => 35,
            Note::C3 => 36,
            Note::D3b => 37,
            Note::D3 => 38,
            Note::E3b => 39,
            Note::E3 => 40,
            Note::F3 => 41,
            Note::G3b => 42,
            Note::G3 => 43,
            Note::A3b => 44,
            Note::A3 => 45,
            Note::B3b => 46,
            Note::B3 => 47,
            Note::C4 => 48,
            Note::D4b => 49,
            Note::D4 => 50,
            Note::E4b => 51,
            Note::E4 => 52,
            Note::F4 => 53,
            Note::G4b => 54,
            Note::G4 => 55,
            Note::A4b => 56,
            Note::A4 => 57,
            Note::B4b => 58,
            Note::B4 => 59,
            Note::C5 => 60,
            Note::D5b => 61,
            Note::D5 => 62,
            Note::E5b => 63,
            Note::E5 => 64,
            Note::F5 => 65,
            Note::G5b => 66,
            Note::G5 => 67,
            Note::A5b => 68,
            Note::A5 => 69,
            Note::B5b => 70,
            Note::B5 => 71,
            Note::C6 => 72,
            Note::D6b => 73,
            Note::D6 => 74,
            Note::E6b => 75,
            Note::E6 => 76,
            Note::F6 => 77,
            Note::G6b => 78,
            Note::G6 => 79,
            Note::A6b => 80,
            Note::A6 => 81,
            Note::B6b => 82,
            Note::B6 => 83,
            Note::C7 => 84,
            Note::D7b => 85,
            Note::D7 => 86,
            Note::E7b => 87,
            Note::E7 => 88,
            Note::F7 => 89,
            Note::G7b => 90,
            Note::G7 => 91,
            Note::A7b => 92,
            Note::A7 => 93,
            Note::B7b => 94,
            Note::B7 => 95,
            Note::C8 => 96,
            Note::D8b => 97,
            Note::D8 => 98,
            Note::E8b => 99,
            Note::E8 => 100,
            Note::F8 => 101,
            Note::G8b => 102,
            Note::G8 => 103,
            Note::A8b => 104,
            Note::A8 => 105,
            Note::B8b => 106,
            Note::B8 => 107,
        }
    }

    /// The pitch with the given ordinal; `B8` for every number above its ordinal.
    pub open spec fn at(n: u32) -> Note {
        match n {
            0 => Note::C0,
            1 => Note::D0b,
            2 => Note::D0,
            3 => Note::E0b,
            4 => Note::E0,
            5 => Note::F0,
            6 => Note::G0b,
            7 => Note::G0,
            8 => Note::A0b,
            9 => Note::A0,
            10 => Note::B0b,
            11 => Note::B0,
            12 => Note::C1,
            13 => Note::D1b,
            14 => Note::D1,
            15 => Note::E1b,
            16 => Note::E1,
            17 => Note::F1,
            18 => Note::G1b,
            19 => Note::G1,
            20 => Note::A1b,
            21 => Note::A1,
            22 => Note::B1b,
            23 => Note::B1,
            24 => Note::C2,
            25 => Note::D2b,
            26 => Note::D2,
            27 => Note::E2b,
            28 => Note::E2,
            29 => Note::F2,
            30 => Note::G2b,
            31 => Note::G2,
            32 => Note::A2b,
            33 => Note::A2,
            34 => Note::B2b,
            35 => Note::B2,
            36 => Note::C3,
            37 => Note::D3b,
            38 => Note::D3,
            39 => Note::E3b,
            40 => Note::E3,
            41 => Note::F3,
            42 => Note::G3b,
            43 => Note::G3,
            44 => Note::A3b,
            45 => Note::A3,
            46 => Note::B3b,
            47 => Note::B3,
            48 => Note::C4,
            49 => Note::D4b,
            50 => Note::D4,
            51 => Note::E4b,
            52 => Note::E4,
            53 => Note::F4,
            54 => Note::G4b,
            55 => Note::G4,
            56 => Note::A4b,
            57 => Note::A4,
            58 => Note::B4b,
            59 => Note::B4,
            60 => Note::C5,
            61 => Note::D5b,
            62 => Note::D5,
            63 => Note::E5b,
            64 => Note::E5,
            65 => Note::F5,
            66 => Note::G5b,
            67 => Note::G5,
            68 => Note::A5b,
            69 => Note::A5,
            70 => Note::B5b,
            71 => Note::B5,
            72 => Note::C6,
            73 => Note::D6b,
            74 => Note::D6,
            75 => Note::E6b,
            76 => Note::E6,
            77 => Note::F6,
            78 => Note::G6b,
            79 => Note::G6,
            80 => Note::A6b,
            81 => Note::A6,
            82 => Note::B6b,
            83 => Note::B6,
            84 => Note::C7,
            85 => Note::D7b,
            86 => Note::D7,
            87 => Note::E7b,
            88 => Note::E7,
            89 => Note::F7,
            90 => Note::G7b,
            91 => Note::G7,
            92 => Note::A7b,
            93 => Note::A7,
            94 => Note::B7b,
            95 => Note::B7,
            96 => Note::C8,
            97 => Note::D8b,
            98 => Note::D8,
            99 => Note::E8b,
            100 => Note::E8,
            101 => Note::F8,
            102 => Note::G8b,
            103 => Note::G8,
            104 => Note::A8b,
            105 => Note::A8,
            106 => Note::B8b,
            _ => Note::B8,
        }
    }

    /// What an integer converts to: the pitch with that ordinal, for the
    /// ordinals from `A0` to `B8`; every other integer is refused.
    pub open spec fn from_ordinal(value: u32) -> Result<Note, OutOfRange> {
        if in_range(value as int) {
            Ok(Note::at(value))
        } else {
            Err(OutOfRange { value })
        }
    }

    /// The pitch with the given ordinal.
    fn with_ordinal(n: u32) -> (note: Note)
        requires
            n <= MAX_ORDINAL,
        ensures
            note == Note::at(n),
            note.ordinal_spec() == n,
    {
        match n {
            0 => Note::C0,
            1 => Note::D0b,
            2 => Note::D0,
            3 => Note::E0b,
            4 => Note::E0,
            5 => Note::F0,
            6 => Note::G0b,
            7 => Note::G0,
            8 => Note::A0b,
            9 => Note::A0,
            10 => Note::B0b,
            11 => Note::B0,
            12 => Note::C1,
            13 => Note::D1b,
            14 => Note::D1,
            15 => Note::E1b,
            16 => Note::E1,
            17 => Note::F1,
            18 => Note::G1b,
            19 => Note::G1,
            20 => Note::A1b,
            21 => Note::A1,
            22 => Note::B1b,
            23 => Note::B1,
            24 => Note::C2,
            25 => Note::D2b,
            26 => Note::D2,
            27 => Note::E2b,
            28 => Note::E2,
            29 => Note::F2,
            30 => Note::G2b,
            31 => Note::G2,
            32 => Note::A2b,
            33 => Note::A2,
            34 => Note::B2b,
            35 => Note::B2,
            36 => Note::C3,
            37 => Note::D3b,
            38 => Note::D3,
            39 => Note::E3b,
            40 => Note::E3,
            41 => Note::F3,
            42 => Note::G3b,
            43 => Note::G3,
            44 => Note::A3b,
            45 => Note::A3,
            46 => Note::B3b,
            47 => Note::B3,
            48 => Note::C4,
            49 => Note::D4b,
            50 => Note::D4,
            51 => Note::E4b,
            52 => Note::E4,
            53 => Note::F4,
            54 => Note::G4b,
            55 => Note::G4,
            56 => Note::A4b,
            57 => Note::A4,
            58 => Note::B4b,
            59 => Note::B4,
            60 => Note::C5,
            61 => Note::D5b,
            62 => Note::D5,
            63 => Note::E5b,
            64 => Note::E5,
            65 => Note::F5,
            66 => Note::G5b,
            67 => Note::G5,
            68 => Note::A5b,
            69 => Note::A5,
            70 => Note::B5b,
            71 => Note::B5,
            72 => Note::C6,
            73 => Note::D6b,
            74 => Note::D6,
            75 => Note::E6b,
            76 => Note::E6,
            77 => Note::F6,
            78 => Note::G6b,
            79 => Note::G6,
            80 => Note::A6b,
            81 => Note::A6,
            82 => Note::B6b,
            83 => Note::B6,
            84 => Note::C7,
            85 => Note::D7b,
            86 => Note::D7,
            87 => Note::E7b,
            88 => Note::E7,
            89 => Note::F7,
            90 => Note::G7b,
            91 => Note::G7,
            92 => Note::A7b,
            93 => Note::A7,
            94 => Note::B7b,
            95 => Note::B7,
            96 => Note::C8,
            97 => Note::D8b,
            98 => Note::D8,
            99 => Note::E8b,
            100 => Note::E8,
            101 => Note::F8,
            102 => Note::G8b,
            103 => Note::G8,
            104 => Note::A8b,
            105 => Note::A8,
            106 => Note::B8b,
            _ => Note::B8,
        }
    }

    /// The pitch one semitone up, held to the pitches from `A0` to `B8`.
    pub open spec fn next_spec(self) -> Note {
        Note::at(clamp_ordinal(self.ordinal_spec() + 1) as u32)
    }

    /// The pitch one semitone down, held to the pitches from `A0` to `B8`.
    pub open spec fn prev_spec(self) -> Note {
        Note::at(clamp_ordinal(self.ordinal_spec() - 1) as u32)
    }

    /// The pitch one semitone up. At `B8` it stays; below `A0` it is `A0`.
    pub fn next_note(&self) -> (next: Note)
        ensures
            next == self.next_spec(),
            next.ordinal_spec() == clamp_ordinal(self.ordinal_spec() + 1),
    {
        let n: u32 = self.ordinal();
        if n < MIN_ORDINAL {
            Note::A0
        } else if n >= MAX_ORDINAL {
            Note::B8
        } else {
            Note::with_ordinal(n + 1)
        }
    }

    /// The pitch one semitone down. At `A0` and below it is `A0`.
    pub fn prev_note(&self) -> (prev: Note)
        ensures
            prev == self.prev_spec(),
            prev.ordinal_spec() == clamp_ordinal(self.ordinal_spec() - 1),
    {
        let n: u32 = self.ordinal();
        if n <= MIN_ORDINAL {
            Note::A0
        } else {
            Note::with_ordinal(n - 1)
        }
    }
}

impl TryFrom<u32> for Note {
    type Error = OutOfRange;

    /// The pitch whose ordinal is `value`, for the ordinals from `A0` to `B8`;
    /// every other integer is refused.
    fn try_from(value: u32) -> (result: Result<Note, OutOfRange>)
        ensures
            result == Note::from_ordinal(value),
            match result {
                Ok(note) => in_range(value as int) && note.ordinal_spec() == value,
                Err(error) => !in_range(value as int) && error == (OutOfRange { value }),
            },
    {
        if MIN_ORDINAL <= value && value <= MAX_ORDINAL {
            Ok(Note::with_ordinal(value))
        } else {
            Err(OutOfRange { value })
        }
    }
}

impl vstd::std_specs::convert::TryFromSpecImpl<u32> for Note {
    open spec fn obeys_try_from_spec() -> bool {
        true
    }

    open spec fn try_from_spec(value: u32) -> Result<Note, OutOfRange> {
        Note::from_ordinal(value)
    }
}

/// Two pitches with the same ordinal are the same pitch.
pub proof fn lemma_ordinal_injective(a: Note, b: Note)
    requires
        a.ordinal_spec() == b.ordinal_spec(),
    ensures
        a == b,
{
}

/// Pitches and the ordinals up to that of `B8` correspond one to one.
pub proof fn lemma_at_inverts_ordinal(note: Note, n: u32)
    ensures
        note.ordinal_spec() <= MAX_ORDINAL,
        Note::at(note.ordinal_spec()) == note,
        n <= MAX_ORDINAL ==> Note::at(n).ordinal_spec() == n,
{
}

/// An integer converts to a pitch exactly where it is the ordinal of a pitch
/// from `A0` to `B8`, and every such pitch comes back from its ordinal.
pub proof fn lemma_conversion_round_trip(note: Note, value: u32)
    ensures
        Note::from_ordinal(value) is Ok <==> in_range(value as int),
        Note::from_ordinal(value) is Ok ==> Note::from_ordinal(value)->Ok_0.ordinal_spec()
            == value,
        in_range(note.ordinal_spec() as int) ==> Note::from_ordinal(note.ordinal_spec()) == Ok::<
            Note,
            OutOfRange,
        >(note),
{
}

/// Moving by a semitone saturates: the result is always a pitch from `A0` to
/// `B8`; inside that range it is the neighbour, and at either end the step
/// that would leave the range stays where it is.
pub proof fn lemma_navigation_saturates(note: Note)
    ensures
        in_range(note.next_spec().ordinal_spec() as int),
        in_range(note.prev_spec().ordinal_spec() as int),
        MIN_ORDINAL <= note.ordinal_spec() < MAX_ORDINAL ==> note.next_spec().ordinal_spec()
            == note.ordinal_spec() + 1,
        MIN_ORDINAL < note.ordinal_spec() <= MAX_ORDINAL ==> note.prev_spec().ordinal_spec()
            == note.ordinal_spec() - 1,
        note.ordinal_spec() == MAX_ORDINAL ==> note.next_spec() == note,
        note.ordinal_spec() == MIN_ORDINAL ==> note.prev_spec() == note,
{
}

/// Inside the range a step up and a step down undo each other.
pub proof fn lemma_steps_undo(note: Note)
    ensures
        MIN_ORDINAL <= note.ordinal_spec() < MAX_ORDINAL ==> note.next_spec().prev_spec() == note,
        MIN_ORDINAL < note.ordinal_spec() <= MAX_ORDINAL ==> note.prev_spec().next_spec() == note,
{
    let up = note.next_spec();
    let down = note.prev_spec();
    lemma_navigation_saturates(note);
    lemma_navigation_saturates(up);
    lemma_navigation_saturates(down);
    if MIN_ORDINAL <= note.ordinal_spec() < MAX_ORDINAL {
        lemma_ordinal_injective(up.prev_spec(), note);
    }
    if MIN_ORDINAL < note.ordinal_spec() <= MAX_ORDINAL {
        lemma_ordinal_injective(down.next_spec(), note);
    }
}

} // verus!
