use xmrs::container::frame_container;
use xmrs::container::unframe_container;
use xmrs::envelope::Envelope;
use xmrs::envelope::EnvelopePoint;
use xmrs::error::CodecError;
use xmrs::fixedstr::fixed_bytes_to_string;
use xmrs::fixedstr::string_to_fixed_bytes;
use xmrs::fixedstr::utf8_char_width;
use xmrs::note::Note;
use xmrs::patternslot::PatternSlot;
use xmrs::xm::helper::delta16_to_sample;
use xmrs::xm::helper::delta8_to_sample;
use xmrs::xm::helper::sample16_to_delta;
use xmrs::xm::helper::sample8_to_delta;
use xmrs::xm::helper::u8_slice_to_vec_u16;
use xmrs::xm::helper::vec_u16_to_u8_slice;
use xmrs::xm::xmpatternslot::XmPatternSlot;

#[test]
fn delta8_round_trip() {
    let cases: Vec<Vec<i8>> = vec![
        vec![],
        vec![0],
        vec![1, -1],
        vec![127, -128, 0, 64, -64],
        (0..100).map(|i| ((i * 37) % 251) as i8).collect(),
    ];
    for v in cases {
        let enc = sample8_to_delta(&v);
        let dec = delta8_to_sample(enc);
        assert_eq!(dec, v);
    }
}

#[test]
fn delta16_round_trip() {
    let cases: Vec<Vec<i16>> = vec![
        vec![],
        vec![0],
        vec![32767, -32768, 12345, -1],
        (0..100).map(|i| ((i * 2977) % 60013) as i16).collect(),
    ];
    for v in cases {
        let enc = sample16_to_delta(&v);
        let dec = delta16_to_sample(enc);
        assert_eq!(dec, v);
    }
}

#[test]
fn delta8_known_values() {
    // 3, 3+2=5, 5-5=0: deltas are running differences from zero
    let enc = sample8_to_delta(&vec![3, 5, 0]);
    assert_eq!(enc, vec![3, 2, 251]);
}

#[test]
fn le_words_round_trip() {
    let words: Vec<u16> = vec![0, 1, 0xFF00, 0x1234, 65535];
    let bytes = vec_u16_to_u8_slice(words.clone());
    assert_eq!(bytes, vec![0, 0, 1, 0, 0, 0xFF, 0x34, 0x12, 0xFF, 0xFF]);
    let back = u8_slice_to_vec_u16(&bytes);
    assert_eq!(back, words);
    // an odd trailing byte is dropped
    assert_eq!(u8_slice_to_vec_u16(&[1, 2, 3]), vec![0x0201]);
}

#[test]
fn slot_save_picks_shortest_form() {
    // note and instrument only: the packed form must be chosen
    let s = PatternSlot {
        note: Note::C4,
        instrument: 1,
        volume: 0,
        effect_type: 0,
        effect_parameter: 0,
    };
    let b = s.save();
    assert_eq!(b, vec![0b1000_0011, 49, 1]);
    // all four leading fields present: raw 5 bytes
    let s2 = PatternSlot {
        note: Note::C4,
        instrument: 1,
        volume: 0x20,
        effect_type: 0x0A,
        effect_parameter: 0,
    };
    assert_eq!(s2.save(), vec![49, 1, 0x20, 0x0A, 0]);
}

#[test]
fn slot_save_load_round_trip() {
    let samples = vec![
        PatternSlot::default(),
        PatternSlot {
            note: Note::KeyOff,
            instrument: 0,
            volume: 0x40,
            effect_type: 0,
            effect_parameter: 9,
        },
        PatternSlot {
            note: Note::B7,
            instrument: 128,
            volume: 1,
            effect_type: 0x21,
            effect_parameter: 0xFF,
        },
    ];
    for s in samples {
        let b = s.save();
        let (out, p) = XmPatternSlot::load(&b, 0).unwrap();
        assert_eq!(p, b.len());
        assert_eq!(out, s);
    }
}

#[test]
fn envelope_sanitize_is_idempotent() {
    let good = Envelope {
        enabled: true,
        point: vec![
            EnvelopePoint { frame: 0, value: 32 },
            EnvelopePoint { frame: 10, value: 64 },
        ],
        sustain_enabled: true,
        sustain_point: 1,
        loop_enabled: false,
        loop_start_point: 0,
        loop_end_point: 1,
    };
    let once = good.clone().sanitize();
    assert_eq!(once, good);
    let twice = once.clone().sanitize();
    assert_eq!(twice, once);
}

#[test]
fn envelope_sustain_out_of_range_gives_default() {
    let bad = Envelope {
        enabled: true,
        point: vec![EnvelopePoint { frame: 0, value: 1 }],
        sustain_enabled: false,
        sustain_point: 1,
        loop_enabled: false,
        loop_start_point: 0,
        loop_end_point: 0,
    };
    let out = bad.sanitize();
    assert_eq!(out, Envelope::default());
}

#[test]
fn envelope_thirteen_points_gives_default() {
    let mut point = Vec::new();
    for i in 0..13u16 {
        point.push(EnvelopePoint { frame: i, value: 1 });
    }
    let bad = Envelope {
        enabled: true,
        point,
        sustain_enabled: false,
        sustain_point: 0,
        loop_enabled: false,
        loop_start_point: 0,
        loop_end_point: 0,
    };
    assert_eq!(bad.sanitize(), Envelope::default());
}

#[test]
fn fixed_field_trims_and_pads() {
    let bytes = string_to_fixed_bytes("hello", 8);
    assert_eq!(bytes, vec![b'h', b'e', b'l', b'l', b'o', 0, 0, 0]);
    let s = fixed_bytes_to_string(&bytes);
    assert_eq!(s, "hello");
    let padded = fixed_bytes_to_string(b"  song name \0\0");
    assert_eq!(padded, "song name");
}

#[test]
fn fixed_field_never_splits_utf8() {
    // the accented character takes two bytes; a width of 5 cuts before it
    let bytes = string_to_fixed_bytes("abcd\u{e9}f", 5);
    assert_eq!(bytes, vec![b'a', b'b', b'c', b'd', 0]);
    let full = string_to_fixed_bytes("abcd\u{e9}f", 7);
    assert_eq!(fixed_bytes_to_string(&full), "abcd\u{e9}f");
}

#[test]
fn utf8_widths() {
    assert_eq!(utf8_char_width(b'a'), 1);
    assert_eq!(utf8_char_width(0x80), 0);
    assert_eq!(utf8_char_width(0xC3), 2);
    assert_eq!(utf8_char_width(0xE2), 3);
    assert_eq!(utf8_char_width(0xF0), 4);
    assert_eq!(utf8_char_width(0xFF), 0);
}

#[test]
fn container_magic_is_checked_before_payload() {
    let framed = frame_container(&[9, 9, 9]);
    assert_eq!(&framed[..5], b"XMrs1");
    assert_eq!(unframe_container(&framed), Ok(5));
    // wrong version digit: refused as a format mismatch
    let mut wrong = framed.clone();
    wrong[4] = b'2';
    assert_eq!(unframe_container(&wrong), Err(CodecError::FormatMismatch));
    assert_eq!(unframe_container(&[1, 2]), Err(CodecError::Truncated));
}
