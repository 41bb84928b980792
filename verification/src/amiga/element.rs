//! One packed pattern cell of an Amiga MOD file.

use vstd::prelude::*;

verus! {

/// A decoded MOD pattern cell: note index, instrument number, effect and
/// argument.
#[derive(Copy, Clone, Debug, PartialEq, Eq, Structural)]
pub struct Element {
    /// Note index recovered from the period table, 0 when none.
    pub note: u8,
    /// Instrument number, assembled from the two split nibbles.
    pub instrument: u8,
    /// Effect number.
    pub effect: u8,
    /// Effect argument.
    pub data: u8,
}

/// The note index of a historical Amiga period, from the fixed period
/// table; period 0 names the empty note, and unknown periods name
/// nothing.
pub open spec fn spec_period_to_note(period: u16) -> Option<u8> {
    if period == 0 {
        Some(0u8)
    } else if period == 6848 {
        Some(1u8)
    } else if period == 6464 {
        Some(2u8)
    } else if period == 6096 {
        Some(3u8)
    } else if period == 5760 {
        Some(4u8)
    } else if period == 5424 {
        Some(5u8)
    } else if period == 5120 {
        Some(6u8)
    } else if period == 4832 {
        Some(7u8)
    } else if period == 4560 {
        Some(8u8)
    } else if period == 4304 {
        Some(9u8)
    } else if period == 4064 {
        Some(10u8)
    } else if period == 3840 {
        Some(11u8)
    } else if period == 3624 {
        Some(12u8)
    } else if period == 3424 {
        Some(13u8)
    } else if period == 3232 {
        Some(14u8)
    } else if period == 3048 {
        Some(15u8)
    } else if period == 2880 {
        Some(16u8)
    } else if period == 2712 {
        Some(17u8)
    } else if period == 2560 {
        Some(18u8)
    } else if period == 2416 {
        Some(19u8)
    } else if period == 2280 {
        Some(20u8)
    } else if period == 2152 {
        Some(21u8)
    } else if period == 2032 {
        Some(22u8)
    } else if period == 1920 {
        Some(23u8)
    } else if period == 1812 {
        Some(24u8)
    } else if period == 1712 {
        Some(25u8)
    } else if period == 1616 {
        Some(26u8)
    } else if period == 1524 {
        Some(27u8)
    } else if period == 1440 {
        Some(28u8)
    } else if period == 1356 {
        Some(29u8)
    } else if period == 1280 {
        Some(30u8)
    } else if period == 1208 {
        Some(31u8)
    } else if period == 1140 {
        Some(32u8)
    } else if period == 1076 {
        Some(33u8)
    } else if period == 1016 {
        Some(34u8)
    } else if period == 960 {
        Some(35u8)
    } else if period == 906 {
        Some(36u8)
    } else if period == 856 {
        Some(37u8)
    } else if period == 808 {
        Some(38u8)
    } else if period == 762 {
        Some(39u8)
    } else if period == 720 {
        Some(40u8)
    } else if period == 678 {
        Some(41u8)
    } else if period == 640 {
        Some(42u8)
    } else if period == 604 {
        Some(43u8)
    } else if period == 570 {
        Some(44u8)
    } else if period == 538 {
        Some(45u8)
    } else if period == 508 {
        Some(46u8)
    } else if period == 480 {
        Some(47u8)
    } else if period == 453 {
        Some(48u8)
    } else if period == 428 {
        Some(49u8)
    } else if period == 404 {
        Some(50u8)
    } else if period == 381 {
        Some(51u8)
    } else if period == 360 {
        Some(52u8)
    } else if period == 339 {
        Some(53u8)
    } else if period == 320 {
        Some(54u8)
    } else if period == 302 {
        Some(55u8)
    } else if period == 285 {
        Some(56u8)
    } else if period == 269 {
        Some(57u8)
    } else if period == 254 {
        Some(58u8)
    } else if period == 240 {
        Some(59u8)
    } else if period == 226 {
        Some(60u8)
    } else if period == 214 {
        Some(61u8)
    } else if period == 202 {
        Some(62u8)
    } else if period == 190 {
        Some(63u8)
    } else if period == 180 {
        Some(64u8)
    } else if period == 170 {
        Some(65u8)
    } else if period == 160 {
        Some(66u8)
    } else if period == 151 {
        Some(67u8)
    } else if period == 143 {
        Some(68u8)
    } else if period == 135 {
        Some(69u8)
    } else if period == 127 {
        Some(70u8)
    } else if period == 120 {
        Some(71u8)
    } else if period == 113 {
        Some(72u8)
    } else if period == 107 {
        Some(73u8)
    } else if period == 101 {
        Some(74u8)
    } else if period == 95 {
        Some(75u8)
    } else if period == 90 {
        Some(76u8)
    } else if period == 85 {
        Some(77u8)
    } else if period == 80 {
        Some(78u8)
    } else if period == 75 {
        Some(79u8)
    } else if period == 71 {
        Some(80u8)
    } else if period == 67 {
        Some(81u8)
    } else if period == 63 {
        Some(82u8)
    } else if period == 60 {
        Some(83u8)
    } else if period == 56 {
        Some(84u8)
    } else {
        None
    }
}

impl Element {
    /// Recover a note index from a historical period value. The table
    /// carries the "period 0 names note 0" sentinel of the later tracker
    /// lineages; an unknown period names no note and is tolerated, never
    /// fatal.
    pub fn period_to_note(period: u16) -> (r: Option<u8>)
        ensures
            r == spec_period_to_note(period),
            r matches Some(n) ==> n <= 84,
    {
        match period {
            0 => Some(0),
            6848 => Some(1),
            6464 => Some(2),
            6096 => Some(3),
            5760 => Some(4),
            5424 => Some(5),
            5120 => Some(6),
            4832 => Some(7),
            4560 => Some(8),
            4304 => Some(9),
            4064 => Some(10),
            3840 => Some(11),
            3624 => Some(12),
            3424 => Some(13),
            3232 => Some(14),
            3048 => Some(15),
            2880 => Some(16),
            2712 => Some(17),
            2560 => Some(18),
            2416 => Some(19),
            2280 => Some(20),
            2152 => Some(21),
            2032 => Some(22),
            1920 => Some(23),
            1812 => Some(24),
            1712 => Some(25),
            1616 => Some(26),
            1524 => Some(27),
            1440 => Some(28),
            1356 => Some(29),
            1280 => Some(30),
            1208 => Some(31),
            1140 => Some(32),
            1076 => Some(33),
            1016 => Some(34),
            960 => Some(35),
            906 => Some(36),
            856 => Some(37),
            808 => Some(38),
            762 => Some(39),
            720 => Some(40),
            678 => Some(41),
            640 => Some(42),
            604 => Some(43),
            570 => Some(44),
            538 => Some(45),
            508 => Some(46),
            480 => Some(47),
            453 => Some(48),
            428 => Some(49),
            404 => Some(50),
            381 => Some(51),
            360 => Some(52),
            339 => Some(53),
            320 => Some(54),
            302 => Some(55),
            285 => Some(56),
            269 => Some(57),
            254 => Some(58),
            240 => Some(59),
            226 => Some(60),
            214 => Some(61),
            202 => Some(62),
            190 => Some(63),
            180 => Some(64),
            170 => Some(65),
            160 => Some(66),
            151 => Some(67),
            143 => Some(68),
            135 => Some(69),
            127 => Some(70),
            120 => Some(71),
            113 => Some(72),
            107 => Some(73),
            101 => Some(74),
            95 => Some(75),
            90 => Some(76),
            85 => Some(77),
            80 => Some(78),
            75 => Some(79),
            71 => Some(80),
            67 => Some(81),
            63 => Some(82),
            60 => Some(83),
            56 => Some(84),
            _ => Option::None,
        }
    }

    /// The display text of a note index: note name and octave, `---` for
    /// no note. Indices past the highest pitch have none.
    pub fn note_to_text(note: u8) -> (r: Option<&'static str>)
        ensures
            r is Some <==> note <= 84,
    {
        match note {
            0 => Some("---"),
            1 => Some("C-2"),
            2 => Some("C#2"),
            3 => Some("D-2"),
            4 => Some("D#2"),
            5 => Some("E-2"),
            6 => Some("F-2"),
            7 => Some("F#2"),
            8 => Some("G-2"),
            9 => Some("G#2"),
            10 => Some("A-2"),
            11 => Some("A#2"),
            12 => Some("B-2"),
            13 => Some("C-3"),
            14 => Some("C#3"),
            15 => Some("D-3"),
            16 => Some("D#3"),
            17 => Some("E-3"),
            18 => Some("F-3"),
            19 => Some("F#3"),
            20 => Some("G-3"),
            21 => Some("G#3"),
            22 => Some("A-3"),
            23 => Some("A#3"),
            24 => Some("B-3"),
            25 => Some("C-4"),
            26 => Some("C#4"),
            27 => Some("D-4"),
            28 => Some("D#4"),
            29 => Some("E-4"),
            30 => Some("F-4"),
            31 => Some("F#4"),
            32 => Some("G-4"),
            33 => Some("G#4"),
            34 => Some("A-4"),
            35 => Some("A#4"),
            36 => Some("B-4"),
            37 => Some("C-5"),
            38 => Some("C#5"),
            39 => Some("D-5"),
            40 => Some("D#5"),
            41 => Some("E-5"),
            42 => Some("F-5"),
            43 => Some("F#5"),
            44 => Some("G-5"),
            45 => Some("G#5"),
            46 => Some("A-5"),
            47 => Some("A#5"),
            48 => Some("B-5"),
            49 => Some("C-6"),
            50 => Some("C#6"),
            51 => Some("D-6"),
            52 => Some("D#6"),
            53 => Some("E-6"),
            54 => Some("F-6"),
            55 => Some("F#6"),
            56 => Some("G-6"),
            57 => Some("G#6"),
            58 => Some("A-6"),
            59 => Some("A#6"),
            60 => Some("B-6"),
            61 => Some("C-7"),
            62 => Some("C#7"),
            63 => Some("D-7"),
            64 => Some("D#7"),
            65 => Some("E-7"),
            66 => Some("F-7"),
            67 => Some("F#7"),
            68 => Some("G-7"),
            69 => Some("G#7"),
            70 => Some("A-7"),
            71 => Some("A#7"),
            72 => Some("B-7"),
            73 => Some("C-8"),
            74 => Some("C#8"),
            75 => Some("D-8"),
            76 => Some("D#8"),
            77 => Some("E-8"),
            78 => Some("F-8"),
            79 => Some("F#8"),
            80 => Some("G-8"),
            81 => Some("G#8"),
            82 => Some("A-8"),
            83 => Some("A#8"),
            84 => Some("B-8"),
            _ => Option::None,
        }
    }

    /// The cell a packed 32-bit big-endian word decodes to: 12 bits of
    /// period looked up in the period table, the instrument number split
    /// over two nibbles, 4 bits of effect and 8 bits of argument.
    pub open spec fn spec_deserialize(input: u32) -> Element {
        let period = ((input / 65536) % 4096) as u16;
        let instrument_high = ((input / 0x10000000) % 16) as u8;
        let instrument_low = ((input / 4096) % 16) as u8;
        let effect = ((input / 256) % 16) as u8;
        let data = (input % 256) as u8;
        Element {
            note: match spec_period_to_note(period) {
                Some(n) => n,
                None => 0,
            },
            instrument: (instrument_high * 16 + instrument_low) as u8,
            effect,
            data,
        }
    }

    /// Decode one packed 32-bit big-endian pattern word. An unrecognized
    /// period leaves the note empty; the load goes on.
    pub fn deserialize(input: u32) -> (r: Element)
        ensures
            r == Element::spec_deserialize(input),
    {
        let period = ((input / 65536) % 4096) as u16;
        let instrument_high = ((input / 0x10000000) % 16) as u8;
        let instrument_low = ((input / 4096) % 16) as u8;
        let effect = ((input / 256) % 16) as u8;
        let data = (input % 256) as u8;
        let note = match Self::period_to_note(period) {
            Some(n) => n,
            Option::None => 0,
        };
        Element { note, instrument: instrument_high * 16 + instrument_low, effect, data }
    }
}

} // verus!
