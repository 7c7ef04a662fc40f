//! MIDI notes by name: the 88 keys from A0 to C8, their numbers, and the
//! voice that plays a note.

use vstd::prelude::*;

verus! {

/// The number of the lowest note with a name, A0.
pub const LOWEST_NOTE: u8 = 21;

/// The number of the highest note with a name, C8.
pub const HIGHEST_NOTE: u8 = 108;

/// The number of C3, from which `to_index` counts semitones.
pub const INDEX_ORIGIN: u8 = 48;

/// A note of the keyboard, or none. `S` in a name stands for a sharp.
#[derive(Clone, Copy, Debug, PartialEq, Eq, Structural)]
pub enum NoteSym {
    A0,
    AS0,
    B0,
    C1,
    CS1,
    D1,
    DS1,
    E1,
    F1,
    FS1,
    G1,
    GS1,
    A1,
    AS1,
    B1,
    C2,
    CS2,
    D2,
    DS2,
    E2,
    F2,
    FS2,
    G2,
    GS2,
    A2,
    AS2,
    B2,
    C3,
    CS3,
    D3,
    DS3,
    E3,
    F3,
    FS3,
    G3,
    GS3,
    A3,
    AS3,
    B3,
    C4,
    CS4,
    D4,
    DS4,
    E4,
    F4,
    FS4,
    G4,
    GS4,
    A4,
    AS4,
    B4,
    C5,
    CS5,
    D5,
    DS5,
    E5,
    F5,
    FS5,
    G5,
    GS5,
    A5,
    AS5,
    B5,
    C6,
    CS6,
    D6,
    DS6,
    E6,
    F6,
    FS6,
    G6,
    GS6,
    A6,
    AS6,
    B6,
    C7,
    CS7,
    D7,
    DS7,
    E7,
    F7,
    FS7,
    G7,
    GS7,
    A7,
    AS7,
    B7,
    C8,
    /// No note.
    NoNote,
}

impl NoteSym {
    /// The MIDI number of the note; 109, one past the highest note, for
    /// `NoNote`.
    pub open spec fn spec_number(self) -> u8 {
        match self {
            NoteSym::A0 => 21,
            NoteSym::AS0 => 22,
            NoteSym::B0 => 23,
            NoteSym::C1 => 24,
            NoteSym::CS1 => 25,
            NoteSym::D1 => 26,
            NoteSym::DS1 => 27,
            NoteSym::E1 => 28,
            NoteSym::F1 => 29,
            NoteSym::FS1 => 30,
            NoteSym::G1 => 31,
            NoteSym::GS1 => 32,
            NoteSym::A1 => 33,
            NoteSym::AS1 => 34,
            NoteSym::B1 => 35,
            NoteSym::C2 => 36,
            NoteSym::CS2 => 37,
            NoteSym::D2 => 38,
            NoteSym::DS2 => 39,
            NoteSym::E2 => 40,
            NoteSym::F2 => 41,
            NoteSym::FS2 => 42,
            NoteSym::G2 => 43,
            NoteSym::GS2 => 44,
            NoteSym::A2 => 45,
            NoteSym::AS2 => 46,
            NoteSym::B2 => 47,
            NoteSym::C3 => 48,
            NoteSym::CS3 => 49,
            NoteSym::D3 => 50,
            NoteSym::DS3 => 51,
            NoteSym::E3 => 52,
            NoteSym::F3 => 53,
            NoteSym::FS3 => 54,
            NoteSym::G3 => 55,
            NoteSym::GS3 => 56,
            NoteSym::A3 => 57,
            NoteSym::AS3 => 58,
            NoteSym::B3 => 59,
            NoteSym::C4 => 60,
            NoteSym::CS4 => 61,
            NoteSym::D4 => 62,
            NoteSym::DS4 => 63,
            NoteSym::E4 => 64,
            NoteSym::F4 => 65,
            NoteSym::FS4 => 66,
            NoteSym::G4 => 67,
            NoteSym::GS4 => 68,
            NoteSym::A4 => 69,
            NoteSym::AS4 => 70,
            NoteSym::B4 => 71,
            NoteSym::C5 => 72,
            NoteSym::CS5 => 73,
            NoteSym::D5 => 74,
            NoteSym::DS5 => 75,
            NoteSym::E5 => 76,
            NoteSym::F5 => 77,
            NoteSym::FS5 => 78,
            NoteSym::G5 => 79,
            NoteSym::GS5 => 80,
            NoteSym::A5 => 81,
            NoteSym::AS5 => 82,
            NoteSym::B5 => 83,
            NoteSym::C6 => 84,
            NoteSym::CS6 => 85,
            NoteSym::D6 => 86,
            NoteSym::DS6 => 87,
            NoteSym::E6 => 88,
            NoteSym::F6 => 89,
            NoteSym::FS6 => 90,
            NoteSym::G6 => 91,
            NoteSym::GS6 => 92,
            NoteSym::A6 => 93,
            NoteSym::AS6 => 94,
            NoteSym::B6 => 95,
            NoteSym::C7 => 96,
            NoteSym::CS7 => 97,
            NoteSym::D7 => 98,
            NoteSym::DS7 => 99,
            NoteSym::E7 => 100,
            NoteSym::F7 => 101,
            NoteSym::FS7 => 102,
            NoteSym::G7 => 103,
            NoteSym::GS7 => 104,
            NoteSym::A7 => 105,
            NoteSym::AS7 => 106,
            NoteSym::B7 => 107,
            NoteSym::C8 => 108,
            NoteSym::NoNote => 109,
        }
    }

    /// The MIDI number of the note; 109 for `NoNote`.
    #[verifier::when_used_as_spec(spec_number)]
    pub fn number(self) -> (n: u8)
        ensures
            n == self.spec_number(),
    {
        match self {
            NoteSym::A0 => 21,
            NoteSym::AS0 => 22,
            NoteSym::B0 => 23,
            NoteSym::C1 => 24,
            NoteSym::CS1 => 25,
            NoteSym::D1 => 26,
            NoteSym::DS1 => 27,
            NoteSym::E1 => 28,
            NoteSym::F1 => 29,
            NoteSym::FS1 => 30,
            NoteSym::G1 => 31,
            NoteSym::GS1 => 32,
            NoteSym::A1 => 33,
            NoteSym::AS1 => 34,
            NoteSym::B1 => 35,
            NoteSym::C2 => 36,
            NoteSym::CS2 => 37,
            NoteSym::D2 => 38,
            NoteSym::DS2 => 39,
            NoteSym::E2 => 40,
            NoteSym::F2 => 41,
            NoteSym::FS2 => 42,
            NoteSym::G2 => 43,
            NoteSym::GS2 => 44,
            NoteSym::A2 => 45,
            NoteSym::AS2 => 46,
            NoteSym::B2 => 47,
            NoteSym::C3 => 48,
            NoteSym::CS3 => 49,
            NoteSym::D3 => 50,
            NoteSym::DS3 => 51,
            NoteSym::E3 => 52,
            NoteSym::F3 => 53,
            NoteSym::FS3 => 54,
            NoteSym::G3 => 55,
            NoteSym::GS3 => 56,
            NoteSym::A3 => 57,
            NoteSym::AS3 => 58,
            NoteSym::B3 => 59,
            NoteSym::C4 => 60,
            NoteSym::CS4 => 61,
            NoteSym::D4 => 62,
            NoteSym::DS4 => 63,
            NoteSym::E4 => 64,
            NoteSym::F4 => 65,
            NoteSym::FS4 => 66,
            NoteSym::G4 => 67,
            NoteSym::GS4 => 68,
            NoteSym::A4 => 69,
            NoteSym::AS4 => 70,
            NoteSym::B4 => 71,
            NoteSym::C5 => 72,
            NoteSym::CS5 => 73,
            NoteSym::D5 => 74,
            NoteSym::DS5 => 75,
            NoteSym::E5 => 76,
            NoteSym::F5 => 77,
            NoteSym::FS5 => 78,
            NoteSym::G5 => 79,
            NoteSym::GS5 => 80,
            NoteSym::A5 => 81,
            NoteSym::AS5 => 82,
            NoteSym::B5 => 83,
            NoteSym::C6 => 84,
            NoteSym::CS6 => 85,
            NoteSym::D6 => 86,
            NoteSym::DS6 => 87,
            NoteSym::E6 => 88,
            NoteSym::F6 => 89,
            NoteSym::FS6 => 90,
            NoteSym::G6 => 91,
            NoteSym::GS6 => 92,
            NoteSym::A6 => 93,
            NoteSym::AS6 => 94,
            NoteSym::B6 => 95,
            NoteSym::C7 => 96,
            NoteSym::CS7 => 97,
            NoteSym::D7 => 98,
            NoteSym::DS7 => 99,
            NoteSym::E7 => 100,
            NoteSym::F7 => 101,
            NoteSym::FS7 => 102,
            NoteSym::G7 => 103,
            NoteSym::GS7 => 104,
            NoteSym::A7 => 105,
            NoteSym::AS7 => 106,
            NoteSym::B7 => 107,
            NoteSym::C8 => 108,
            NoteSym::NoNote => 109,
        }
    }

    /// The note with the given MIDI number, which must be one of the 88
    /// notes with a name.
    pub fn from_u8(value: u8) -> (note: NoteSym)
        requires
            LOWEST_NOTE <= value <= HIGHEST_NOTE,
        ensures
            note.spec_number() == value,
            note != NoteSym::NoNote,
    {
        match value {
            21 => NoteSym::A0,
            22 => NoteSym::AS0,
            23 => NoteSym::B0,
            24 => NoteSym::C1,
            25 => NoteSym::CS1,
            26 => NoteSym::D1,
            27 => NoteSym::DS1,
            28 => NoteSym::E1,
            29 => NoteSym::F1,
            30 => NoteSym::FS1,
            31 => NoteSym::G1,
            32 => NoteSym::GS1,
            33 => NoteSym::A1,
            34 => NoteSym::AS1,
            35 => NoteSym::B1,
            36 => NoteSym::C2,
            37 => NoteSym::CS2,
            38 => NoteSym::D2,
            39 => NoteSym::DS2,
            40 => NoteSym::E2,
            41 => NoteSym::F2,
            42 => NoteSym::FS2,
            43 => NoteSym::G2,
            44 => NoteSym::GS2,
            45 => NoteSym::A2,
            46 => NoteSym::AS2,
            47 => NoteSym::B2,
            48 => NoteSym::C3,
            49 => NoteSym::CS3,
            50 => NoteSym::D3,
            51 => NoteSym::DS3,
            52 => NoteSym::E3,
            53 => NoteSym::F3,
            54 => NoteSym::FS3,
            55 => NoteSym::G3,
            56 => NoteSym::GS3,
            57 => NoteSym::A3,
            58 => NoteSym::AS3,
            59 => NoteSym::B3,
            60 => NoteSym::C4,
            61 => NoteSym::CS4,
            62 => NoteSym::D4,
            63 => NoteSym::DS4,
            64 => NoteSym::E4,
            65 => NoteSym::F4,
            66 => NoteSym::FS4,
            67 => NoteSym::G4,
            68 => NoteSym::GS4,
            69 => NoteSym::A4,
            70 => NoteSym::AS4,
            71 => NoteSym::B4,
            72 => NoteSym::C5,
            73 => NoteSym::CS5,
            74 => NoteSym::D5,
            75 => NoteSym::DS5,
            76 => NoteSym::E5,
            77 => NoteSym::F5,
            78 => NoteSym::FS5,
            79 => NoteSym::G5,
            80 => NoteSym::GS5,
            81 => NoteSym::A5,
            82 => NoteSym::AS5,
            83 => NoteSym::B5,
            84 => NoteSym::C6,
            85 => NoteSym::CS6,
            86 => NoteSym::D6,
            87 => NoteSym::DS6,
            88 => NoteSym::E6,
            89 => NoteSym::F6,
            90 => NoteSym::FS6,
            91 => NoteSym::G6,
            92 => NoteSym::GS6,
            93 => NoteSym::A6,
            94 => NoteSym::AS6,
            95 => NoteSym::B6,
            96 => NoteSym::C7,
            97 => NoteSym::CS7,
            98 => NoteSym::D7,
            99 => NoteSym::DS7,
            100 => NoteSym::E7,
            101 => NoteSym::F7,
            102 => NoteSym::FS7,
            103 => NoteSym::G7,
            104 => NoteSym::GS7,
            105 => NoteSym::A7,
            106 => NoteSym::AS7,
            107 => NoteSym::B7,
            _ => NoteSym::C8,
        }
    }

    /// The note with the given MIDI number if it has a name, `None`
    /// otherwise.
    pub fn try_from_u8(value: u8) -> (note: Option<NoteSym>)
        ensures
            note is Some <==> LOWEST_NOTE <= value <= HIGHEST_NOTE,
            note matches Some(n) ==> n.spec_number() == value && n != NoteSym::NoNote,
    {
        if LOWEST_NOTE <= value && value <= HIGHEST_NOTE {
            Some(Self::from_u8(value))
        } else {
            None
        }
    }

    /// The distance of the note from C3 in semitones, up or down.
    pub open spec fn semitones_from_origin(self) -> int {
        if self.spec_number() >= INDEX_ORIGIN {
            self.spec_number() - INDEX_ORIGIN
        } else {
            INDEX_ORIGIN - self.spec_number()
        }
    }

    /// The voice, out of `voices`, that plays the note: its distance from C3
    /// in semitones, wrapped round the number of voices. Usable as an index
    /// of a sample, for one.
    pub fn to_index(self, voices: u32) -> (index: u32)
        requires
            voices > 0,
        ensures
            index == self.semitones_from_origin() % (voices as int),
            index < voices,
    {
        let n = self.number();
        let distance: u32 = if n >= INDEX_ORIGIN {
            (n - INDEX_ORIGIN) as u32
        } else {
            (INDEX_ORIGIN - n) as u32
        };
        distance % voices
    }

    /// The name that the note is printed with.
    pub open spec fn spec_name(self) -> Seq<char> {
        match self {
            NoteSym::A0 => "A0"@,
            NoteSym::AS0 => "AS0"@,
            NoteSym::B0 => "B0"@,
            NoteSym::C1 => "C1"@,
            NoteSym::CS1 => "CS1"@,
            NoteSym::D1 => "D1"@,
            NoteSym::DS1 => "DS1"@,
            NoteSym::E1 => "E1"@,
            NoteSym::F1 => "F1"@,
            NoteSym::FS1 => "FS1"@,
            NoteSym::G1 => "G1"@,
            NoteSym::GS1 => "GS1"@,
            NoteSym::A1 => "A1"@,
            NoteSym::AS1 => "A1S"@,
            NoteSym::B1 => "B1"@,
            NoteSym::C2 => "C2"@,
            NoteSym::CS2 => "CS2"@,
            NoteSym::D2 => "D2"@,
            NoteSym::DS2 => "DS2"@,
            NoteSym::E2 => "E2"@,
            NoteSym::F2 => "F2"@,
            NoteSym::FS2 => "FS2"@,
            NoteSym::G2 => "G2"@,
            NoteSym::GS2 => "GS2"@,
            NoteSym::A2 => "A2"@,
            NoteSym::AS2 => "AS2"@,
            NoteSym::B2 => "B2"@,
            NoteSym::C3 => "C3"@,
            NoteSym::CS3 => "CS3"@,
            NoteSym::D3 => "D3"@,
            NoteSym::DS3 => "DS3"@,
            NoteSym::E3 => "E3"@,
            NoteSym::F3 => "F3"@,
            NoteSym::FS3 => "FS3"@,
            NoteSym::G3 => "G3"@,
            NoteSym::GS3 => "GS3"@,
            NoteSym::A3 => "A3"@,
            NoteSym::AS3 => "AS3"@,
            NoteSym::B3 => "B3"@,
            NoteSym::C4 => "C4"@,
            NoteSym::CS4 => "CS4"@,
            NoteSym::D4 => "D4"@,
            NoteSym::DS4 => "DS4"@,
            NoteSym::E4 => "E4"@,
            NoteSym::F4 => "F4"@,
            NoteSym::FS4 => "FS4"@,
            NoteSym::G4 => "G4"@,
            NoteSym::GS4 => "GS4"@,
            NoteSym::A4 => "A4"@,
            NoteSym::AS4 => "AS4"@,
            NoteSym::B4 => "B4"@,
            NoteSym::C5 => "C5"@,
            NoteSym::CS5 => "CS5"@,
            NoteSym::D5 => "D5"@,
            NoteSym::DS5 => "DS5"@,
            NoteSym::E5 => "E5"@,
            NoteSym::F5 => "F5"@,
            NoteSym::FS5 => "FS5"@,
            NoteSym::G5 => "G5"@,
            NoteSym::GS5 => "GS5"@,
            NoteSym::A5 => "A5"@,
            NoteSym::AS5 => "AS5"@,
            NoteSym::B5 => "B5"@,
            NoteSym::C6 => "C6"@,
            NoteSym::CS6 => "CS6"@,
            NoteSym::D6 => "D6"@,
            NoteSym::DS6 => "DS6"@,
            NoteSym::E6 => "E6"@,
            NoteSym::F6 => "F6"@,
            NoteSym::FS6 => "FS6"@,
            NoteSym::G6 => "G6"@,
            NoteSym::GS6 => "GS6"@,
            NoteSym::A6 => "A6"@,
            NoteSym::AS6 => "AS6"@,
            NoteSym::B6 => "B6"@,
            NoteSym::C7 => "C7"@,
            NoteSym::CS7 => "CS7"@,
            NoteSym::D7 => "D7"@,
            NoteSym::DS7 => "DS7"@,
            NoteSym::E7 => "E7"@,
            NoteSym::F7 => "F7"@,
            NoteSym::FS7 => "FS7"@,
            NoteSym::G7 => "G7"@,
            NoteSym::GS7 => "GS7"@,
            NoteSym::A7 => "A7"@,
            NoteSym::AS7 => "AS7"@,
            NoteSym::B7 => "B7"@,
            NoteSym::C8 => "C8"@,
            NoteSym::NoNote => "None"@,
        }
    }

    /// The name that the note is printed with.
    pub fn name(self) -> (s: &'static str)
        ensures
            s@ == self.spec_name(),
    {
        match self {
            NoteSym::A0 => "A0",
            NoteSym::AS0 => "AS0",
            NoteSym::B0 => "B0",
            NoteSym::C1 => "C1",
            NoteSym::CS1 => "CS1",
            NoteSym::D1 => "D1",
            NoteSym::DS1 => "DS1",
            NoteSym::E1 => "E1",
            NoteSym::F1 => "F1",
            NoteSym::FS1 => "FS1",
            NoteSym::G1 => "G1",
            NoteSym::GS1 => "GS1",
            NoteSym::A1 => "A1",
            NoteSym::AS1 => "A1S",
            NoteSym::B1 => "B1",
            NoteSym::C2 => "C2",
            NoteSym::CS2 => "CS2",
            NoteSym::D2 => "D2",
            NoteSym::DS2 => "DS2",
            NoteSym::E2 => "E2",
            NoteSym::F2 => "F2",
            NoteSym::FS2 => "FS2",
            NoteSym::G2 => "G2",
            NoteSym::GS2 => "GS2",
            NoteSym::A2 => "A2",
            NoteSym::AS2 => "AS2",
            NoteSym::B2 => "B2",
            NoteSym::C3 => "C3",
            NoteSym::CS3 => "CS3",
            NoteSym::D3 => "D3",
            NoteSym::DS3 => "DS3",
            NoteSym::E3 => "E3",
            NoteSym::F3 => "F3",
            NoteSym::FS3 => "FS3",
            NoteSym::G3 => "G3",
            NoteSym::GS3 => "GS3",
            NoteSym::A3 => "A3",
            NoteSym::AS3 => "AS3",
            NoteSym::B3 => "B3",
            NoteSym::C4 => "C4",
            NoteSym::CS4 => "CS4",
            NoteSym::D4 => "D4",
            NoteSym::DS4 => "DS4",
            NoteSym::E4 => "E4",
            NoteSym::F4 => "F4",
            NoteSym::FS4 => "FS4",
            NoteSym::G4 => "G4",
            NoteSym::GS4 => "GS4",
            NoteSym::A4 => "A4",
            NoteSym::AS4 => "AS4",
            NoteSym::B4 => "B4",
            NoteSym::C5 => "C5",
            NoteSym::CS5 => "CS5",
            NoteSym::D5 => "D5",
            NoteSym::DS5 => "DS5",
            NoteSym::E5 => "E5",
            NoteSym::F5 => "F5",
            NoteSym::FS5 => "FS5",
            NoteSym::G5 => "G5",
            NoteSym::GS5 => "GS5",
            NoteSym::A5 => "A5",
            NoteSym::AS5 => "AS5",
            NoteSym::B5 => "B5",
            NoteSym::C6 => "C6",
            NoteSym::CS6 => "CS6",
            NoteSym::D6 => "D6",
            NoteSym::DS6 => "DS6",
            NoteSym::E6 => "E6",
            NoteSym::F6 => "F6",
            NoteSym::FS6 => "FS6",
            NoteSym::G6 => "G6",
            NoteSym::GS6 => "GS6",
            NoteSym::A6 => "A6",
            NoteSym::AS6 => "AS6",
            NoteSym::B6 => "B6",
            NoteSym::C7 => "C7",
            NoteSym::CS7 => "CS7",
            NoteSym::D7 => "D7",
            NoteSym::DS7 => "DS7",
            NoteSym::E7 => "E7",
            NoteSym::F7 => "F7",
            NoteSym::FS7 => "FS7",
            NoteSym::G7 => "G7",
            NoteSym::GS7 => "GS7",
            NoteSym::A7 => "A7",
            NoteSym::AS7 => "AS7",
            NoteSym::B7 => "B7",
            NoteSym::C8 => "C8",
            NoteSym::NoNote => "None",
        }
    }
}

/// Two notes with the same number are the same note.
pub proof fn law_numbers_are_unique(a: NoteSym, b: NoteSym)
    requires
        a.spec_number() == b.spec_number(),
    ensures
        a == b,
{
}

} // verus!
