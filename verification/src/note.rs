//! A musical note: 96 chromatic pitches spanning 8 octaves, plus the two
//! sentinel values `Empty` (no note) and `KeyOff` (stop note).

use vstd::prelude::*;

verus! {

/// 8 octaves with notes.
///
/// A note is backed by a small integer: 0 for `Empty`, 1..=96 for the
/// chromatic pitches from C-0 up to B-7, and 97 for `KeyOff`.
#[derive(Copy, Clone, Debug, PartialEq, Eq, Structural)]
#[allow(missing_docs)]
pub enum Note {
    /// No note
    Empty,
    C0,
    Cs0,
    D0,
    Ds0,
    E0,
    F0,
    Fs0,
    G0,
    Gs0,
    A0,
    As0,
    B0,
    C1,
    Cs1,
    D1,
    Ds1,
    E1,
    F1,
    Fs1,
    G1,
    Gs1,
    A1,
    As1,
    B1,
    C2,
    Cs2,
    D2,
    Ds2,
    E2,
    F2,
    Fs2,
    G2,
    Gs2,
    A2,
    As2,
    B2,
    C3,
    Cs3,
    D3,
    Ds3,
    E3,
    F3,
    Fs3,
    G3,
    Gs3,
    A3,
    As3,
    B3,
    C4,
    Cs4,
    D4,
    Ds4,
    E4,
    F4,
    Fs4,
    G4,
    Gs4,
    A4,
    As4,
    B4,
    C5,
    Cs5,
    D5,
    Ds5,
    E5,
    F5,
    Fs5,
    G5,
    Gs5,
    A5,
    As5,
    B5,
    C6,
    Cs6,
    D6,
    Ds6,
    E6,
    F6,
    Fs6,
    G6,
    Gs6,
    A6,
    As6,
    B6,
    C7,
    Cs7,
    D7,
    Ds7,
    E7,
    F7,
    Fs7,
    G7,
    Gs7,
    A7,
    As7,
    B7,
    /// Stop note
    KeyOff,
}

impl Default for Note {
    fn default() -> (r: Self)
        ensures
            r == Note::Empty,
    {
        Note::Empty
    }
}

impl Note {
    /// The small integer backing a note: `None` is 0, pitches are 1..=96 in
    /// ascending pitch order, `KeyOff` is 97.
    pub open spec fn spec_value(self) -> u8 {
        match self {
            Note::Empty => 0,
            Note::C0 => 1,
            Note::Cs0 => 2,
            Note::D0 => 3,
            Note::Ds0 => 4,
            Note::E0 => 5,
            Note::F0 => 6,
            Note::Fs0 => 7,
            Note::G0 => 8,
            Note::Gs0 => 9,
            Note::A0 => 10,
            Note::As0 => 11,
            Note::B0 => 12,
            Note::C1 => 13,
            Note::Cs1 => 14,
            Note::D1 => 15,
            Note::Ds1 => 16,
            Note::E1 => 17,
            Note::F1 => 18,
            Note::Fs1 => 19,
            Note::G1 => 20,
            Note::Gs1 => 21,
            Note::A1 => 22,
            Note::As1 => 23,
            Note::B1 => 24,
            Note::C2 => 25,
            Note::Cs2 => 26,
            Note::D2 => 27,
            Note::Ds2 => 28,
            Note::E2 => 29,
            Note::F2 => 30,
            Note::Fs2 => 31,
            Note::G2 => 32,
            Note::Gs2 => 33,
            Note::A2 => 34,
            Note::As2 => 35,
            Note::B2 => 36,
            Note::C3 => 37,
            Note::Cs3 => 38,
            Note::D3 => 39,
            Note::Ds3 => 40,
            Note::E3 => 41,
            Note::F3 => 42,
            Note::Fs3 => 43,
            Note::G3 => 44,
            Note::Gs3 => 45,
            Note::A3 => 46,
            Note::As3 => 47,
            Note::B3 => 48,
            Note::C4 => 49,
            Note::Cs4 => 50,
            Note::D4 => 51,
            Note::Ds4 => 52,
            Note::E4 => 53,
            Note::F4 => 54,
            Note::Fs4 => 55,
            Note::G4 => 56,
            Note::Gs4 => 57,
            Note::A4 => 58,
            Note::As4 => 59,
            Note::B4 => 60,
            Note::C5 => 61,
            Note::Cs5 => 62,
            Note::D5 => 63,
            Note::Ds5 => 64,
            Note::E5 => 65,
            Note::F5 => 66,
            Note::Fs5 => 67,
            Note::G5 => 68,
            Note::Gs5 => 69,
            Note::A5 => 70,
            Note::As5 => 71,
            Note::B5 => 72,
            Note::C6 => 73,
            Note::Cs6 => 74,
            Note::D6 => 75,
            Note::Ds6 => 76,
            Note::E6 => 77,
            Note::F6 => 78,
            Note::Fs6 => 79,
            Note::G6 => 80,
            Note::Gs6 => 81,
            Note::A6 => 82,
            Note::As6 => 83,
            Note::B6 => 84,
            Note::C7 => 85,
            Note::Cs7 => 86,
            Note::D7 => 87,
            Note::Ds7 => 88,
            Note::E7 => 89,
            Note::F7 => 90,
            Note::Fs7 => 91,
            Note::G7 => 92,
            Note::Gs7 => 93,
            Note::A7 => 94,
            Note::As7 => 95,
            Note::B7 => 96,
            Note::KeyOff => 97,
        }
    }

    /// The note whose backing integer is `v`, for `v <= 97`.
    pub open spec fn spec_from_value(v: u8) -> Option<Note> {
        match v {
            0 => Some(Note::Empty),
            1 => Some(Note::C0),
            2 => Some(Note::Cs0),
            3 => Some(Note::D0),
            4 => Some(Note::Ds0),
            5 => Some(Note::E0),
            6 => Some(Note::F0),
            7 => Some(Note::Fs0),
            8 => Some(Note::G0),
            9 => Some(Note::Gs0),
            10 => Some(Note::A0),
            11 => Some(Note::As0),
            12 => Some(Note::B0),
            13 => Some(Note::C1),
            14 => Some(Note::Cs1),
            15 => Some(Note::D1),
            16 => Some(Note::Ds1),
            17 => Some(Note::E1),
            18 => Some(Note::F1),
            19 => Some(Note::Fs1),
            20 => Some(Note::G1),
            21 => Some(Note::Gs1),
            22 => Some(Note::A1),
            23 => Some(Note::As1),
            24 => Some(Note::B1),
            25 => Some(Note::C2),
            26 => Some(Note::Cs2),
            27 => Some(Note::D2),
            28 => Some(Note::Ds2),
            29 => Some(Note::E2),
            30 => Some(Note::F2),
            31 => Some(Note::Fs2),
            32 => Some(Note::G2),
            33 => Some(Note::Gs2),
            34 => Some(Note::A2),
            35 => Some(Note::As2),
            36 => Some(Note::B2),
            37 => Some(Note::C3),
            38 => Some(Note::Cs3),
            39 => Some(Note::D3),
            40 => Some(Note::Ds3),
            41 => Some(Note::E3),
            42 => Some(Note::F3),
            43 => Some(Note::Fs3),
            44 => Some(Note::G3),
            45 => Some(Note::Gs3),
            46 => Some(Note::A3),
            47 => Some(Note::As3),
            48 => Some(Note::B3),
            49 => Some(Note::C4),
            50 => Some(Note::Cs4),
            51 => Some(Note::D4),
            52 => Some(Note::Ds4),
            53 => Some(Note::E4),
            54 => Some(Note::F4),
            55 => Some(Note::Fs4),
            56 => Some(Note::G4),
            57 => Some(Note::Gs4),
            58 => Some(Note::A4),
            59 => Some(Note::As4),
            60 => Some(Note::B4),
            61 => Some(Note::C5),
            62 => Some(Note::Cs5),
            63 => Some(Note::D5),
            64 => Some(Note::Ds5),
            65 => Some(Note::E5),
            66 => Some(Note::F5),
            67 => Some(Note::Fs5),
            68 => Some(Note::G5),
            69 => Some(Note::Gs5),
            70 => Some(Note::A5),
            71 => Some(Note::As5),
            72 => Some(Note::B5),
            73 => Some(Note::C6),
            74 => Some(Note::Cs6),
            75 => Some(Note::D6),
            76 => Some(Note::Ds6),
            77 => Some(Note::E6),
            78 => Some(Note::F6),
            79 => Some(Note::Fs6),
            80 => Some(Note::G6),
            81 => Some(Note::Gs6),
            82 => Some(Note::A6),
            83 => Some(Note::As6),
            84 => Some(Note::B6),
            85 => Some(Note::C7),
            86 => Some(Note::Cs7),
            87 => Some(Note::D7),
            88 => Some(Note::Ds7),
            89 => Some(Note::E7),
            90 => Some(Note::F7),
            91 => Some(Note::Fs7),
            92 => Some(Note::G7),
            93 => Some(Note::Gs7),
            94 => Some(Note::A7),
            95 => Some(Note::As7),
            96 => Some(Note::B7),
            97 => Some(Note::KeyOff),
            _ => Option::None,
        }
    }

    /// Recover a note from its backing integer; values above 97 name no note.
    pub fn try_from_value(v: u8) -> (r: Option<Note>)
        ensures
            r == Note::spec_from_value(v),
            v <= 97 <==> r is Some,
            r matches Some(n) ==> n.spec_value() == v,
    {
        let r = match v {
            0 => Some(Note::Empty),
            1 => Some(Note::C0),
            2 => Some(Note::Cs0),
            3 => Some(Note::D0),
            4 => Some(Note::Ds0),
            5 => Some(Note::E0),
            6 => Some(Note::F0),
            7 => Some(Note::Fs0),
            8 => Some(Note::G0),
            9 => Some(Note::Gs0),
            10 => Some(Note::A0),
            11 => Some(Note::As0),
            12 => Some(Note::B0),
            13 => Some(Note::C1),
            14 => Some(Note::Cs1),
            15 => Some(Note::D1),
            16 => Some(Note::Ds1),
            17 => Some(Note::E1),
            18 => Some(Note::F1),
            19 => Some(Note::Fs1),
            20 => Some(Note::G1),
            21 => Some(Note::Gs1),
            22 => Some(Note::A1),
            23 => Some(Note::As1),
            24 => Some(Note::B1),
            25 => Some(Note::C2),
            26 => Some(Note::Cs2),
            27 => Some(Note::D2),
            28 => Some(Note::Ds2),
            29 => Some(Note::E2),
            30 => Some(Note::F2),
            31 => Some(Note::Fs2),
            32 => Some(Note::G2),
            33 => Some(Note::Gs2),
            34 => Some(Note::A2),
            35 => Some(Note::As2),
            36 => Some(Note::B2),
            37 => Some(Note::C3),
            38 => Some(Note::Cs3),
            39 => Some(Note::D3),
            40 => Some(Note::Ds3),
            41 => Some(Note::E3),
            42 => Some(Note::F3),
            43 => Some(Note::Fs3),
            44 => Some(Note::G3),
            45 => Some(Note::Gs3),
            46 => Some(Note::A3),
            47 => Some(Note::As3),
            48 => Some(Note::B3),
            49 => Some(Note::C4),
            50 => Some(Note::Cs4),
            51 => Some(Note::D4),
            52 => Some(Note::Ds4),
            53 => Some(Note::E4),
            54 => Some(Note::F4),
            55 => Some(Note::Fs4),
            56 => Some(Note::G4),
            57 => Some(Note::Gs4),
            58 => Some(Note::A4),
            59 => Some(Note::As4),
            60 => Some(Note::B4),
            61 => Some(Note::C5),
            62 => Some(Note::Cs5),
            63 => Some(Note::D5),
            64 => Some(Note::Ds5),
            65 => Some(Note::E5),
            66 => Some(Note::F5),
            67 => Some(Note::Fs5),
            68 => Some(Note::G5),
            69 => Some(Note::Gs5),
            70 => Some(Note::A5),
            71 => Some(Note::As5),
            72 => Some(Note::B5),
            73 => Some(Note::C6),
            74 => Some(Note::Cs6),
            75 => Some(Note::D6),
            76 => Some(Note::Ds6),
            77 => Some(Note::E6),
            78 => Some(Note::F6),
            79 => Some(Note::Fs6),
            80 => Some(Note::G6),
            81 => Some(Note::Gs6),
            82 => Some(Note::A6),
            83 => Some(Note::As6),
            84 => Some(Note::B6),
            85 => Some(Note::C7),
            86 => Some(Note::Cs7),
            87 => Some(Note::D7),
            88 => Some(Note::Ds7),
            89 => Some(Note::E7),
            90 => Some(Note::F7),
            91 => Some(Note::Fs7),
            92 => Some(Note::G7),
            93 => Some(Note::Gs7),
            94 => Some(Note::A7),
            95 => Some(Note::As7),
            96 => Some(Note::B7),
            97 => Some(Note::KeyOff),
            _ => Option::None,
        };
        proof {
            Note::lemma_value_from_value(v);
        }
        r
    }

    /// True of the `Empty` sentinel alone.
    #[inline(always)]
    pub fn is_none(&self) -> (r: bool)
        ensures
            r == (*self is Empty),
    {
        self.value() == 0
    }

    /// True of the `KeyOff` sentinel alone.
    #[inline(always)]
    pub fn is_keyoff(&self) -> (r: bool)
        ensures
            r == (*self is KeyOff),
    {
        self.value() == 97
    }

    /// True of the 96 chromatic pitches, false of both sentinels.
    #[inline(always)]
    pub fn is_valid(&self) -> (r: bool)
        ensures
            r == (1 <= self.spec_value() <= 96),
    {
        let n: u8 = self.value();
        n > 0 && n < 97
    }

    /// The small integer backing this note.
    #[inline(always)]
    pub fn value(&self) -> (r: u8)
        ensures
            r == self.spec_value(),
    {
        match *self {
            Note::Empty => 0,
            Note::C0 => 1,
            Note::Cs0 => 2,
            Note::D0 => 3,
            Note::Ds0 => 4,
            Note::E0 => 5,
            Note::F0 => 6,
            Note::Fs0 => 7,
            Note::G0 => 8,
            Note::Gs0 => 9,
            Note::A0 => 10,
            Note::As0 => 11,
            Note::B0 => 12,
            Note::C1 => 13,
            Note::Cs1 => 14,
            Note::D1 => 15,
            Note::Ds1 => 16,
            Note::E1 => 17,
            Note::F1 => 18,
            Note::Fs1 => 19,
            Note::G1 => 20,
            Note::Gs1 => 21,
            Note::A1 => 22,
            Note::As1 => 23,
            Note::B1 => 24,
            Note::C2 => 25,
            Note::Cs2 => 26,
            Note::D2 => 27,
            Note::Ds2 => 28,
            Note::E2 => 29,
            Note::F2 => 30,
            Note::Fs2 => 31,
            Note::G2 => 32,
            Note::Gs2 => 33,
            Note::A2 => 34,
            Note::As2 => 35,
            Note::B2 => 36,
            Note::C3 => 37,
            Note::Cs3 => 38,
            Note::D3 => 39,
            Note::Ds3 => 40,
            Note::E3 => 41,
            Note::F3 => 42,
            Note::Fs3 => 43,
            Note::G3 => 44,
            Note::Gs3 => 45,
            Note::A3 => 46,
            Note::As3 => 47,
            Note::B3 => 48,
            Note::C4 => 49,
            Note::Cs4 => 50,
            Note::D4 => 51,
            Note::Ds4 => 52,
            Note::E4 => 53,
            Note::F4 => 54,
            Note::Fs4 => 55,
            Note::G4 => 56,
            Note::Gs4 => 57,
            Note::A4 => 58,
            Note::As4 => 59,
            Note::B4 => 60,
            Note::C5 => 61,
            Note::Cs5 => 62,
            Note::D5 => 63,
            Note::Ds5 => 64,
            Note::E5 => 65,
            Note::F5 => 66,
            Note::Fs5 => 67,
            Note::G5 => 68,
            Note::Gs5 => 69,
            Note::A5 => 70,
            Note::As5 => 71,
            Note::B5 => 72,
            Note::C6 => 73,
            Note::Cs6 => 74,
            Note::D6 => 75,
            Note::Ds6 => 76,
            Note::E6 => 77,
            Note::F6 => 78,
            Note::Fs6 => 79,
            Note::G6 => 80,
            Note::Gs6 => 81,
            Note::A6 => 82,
            Note::As6 => 83,
            Note::B6 => 84,
            Note::C7 => 85,
            Note::Cs7 => 86,
            Note::D7 => 87,
            Note::Ds7 => 88,
            Note::E7 => 89,
            Note::F7 => 90,
            Note::Fs7 => 91,
            Note::G7 => 92,
            Note::Gs7 => 93,
            Note::A7 => 94,
            Note::As7 => 95,
            Note::B7 => 96,
            Note::KeyOff => 97,
        }
    }

    /// Backing integers are in 0..=97, and `spec_from_value` inverts
    /// `spec_value`.
    pub proof fn lemma_value_roundtrip(self)
        ensures
            self.spec_value() <= 97,
            Note::spec_from_value(self.spec_value()) == Some(self),
    {
    }

    /// On values that name a note, `spec_value` inverts `spec_from_value`.
    pub proof fn lemma_value_from_value(v: u8)
        ensures
            v <= 97 <==> Note::spec_from_value(v) is Some,
            Note::spec_from_value(v) matches Some(n) ==> n.spec_value() == v,
    {
    }
}

} // verus!
