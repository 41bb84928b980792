use xmrs::amiga::amiga_module::AmigaModule;
use xmrs::amiga::element::Element;
use xmrs::error::CodecError;
use xmrs::period_helper::FrequencyType;

/// A minimal 31-sample MOD image: silent title, empty samples, one
/// all-silent 4-channel pattern.
fn minimal_mod() -> Vec<u8> {
    let mut data = vec![0u8; 20 + 930 + 2 + 128 + 4 + 64 * 4 * 4];
    data[0x438] = b'M';
    data[0x439] = b'.';
    data[0x43A] = b'K';
    data[0x43B] = b'.';
    data[950] = 1;  // song length
    data
}

#[test]
fn minimal_mod_loads_with_four_tracks() {
    let data = minimal_mod();
    let amiga = AmigaModule::load(&data).unwrap();
    assert_eq!(amiga.get_number_of_tracks(), Some(4));
    assert_eq!(amiga.get_number_of_samples(), 31);
    assert_eq!(amiga.get_number_of_patterns(), 1);
    let module = amiga.to_module();
    assert_eq!(module.frequency_type, FrequencyType::AmigaFrequencies);
    assert_eq!(module.default_tempo, 6);
    assert_eq!(module.default_bpm, 125);
    assert_eq!(module.pattern.len(), 1);
    assert_eq!(module.pattern[0].len(), 64);
    assert_eq!(module.pattern[0][0].len(), 4);
    assert_eq!(module.instrument.len(), 31);
}

#[test]
fn unknown_tag_is_not_an_amiga_module() {
    let mut data = minimal_mod();
    data[0x438] = b'Z';
    data[0x439] = b'Z';
    data[0x43A] = b'Z';
    data[0x43B] = b'Z';
    assert_eq!(AmigaModule::load(&data).unwrap_err(), CodecError::FormatMismatch);
}

#[test]
fn numeric_channel_tags_parse() {
    let mut data = minimal_mod();
    data[0x438] = b'1';
    data[0x439] = b'2';
    data[0x43A] = b'C';
    data[0x43B] = b'H';
    // 12 channels need a larger pattern
    data.resize(20 + 930 + 2 + 128 + 4 + 64 * 12 * 4, 0);
    let amiga = AmigaModule::load(&data).unwrap();
    assert_eq!(amiga.get_number_of_tracks(), Some(12));
}

#[test]
fn pattern_word_decodes_fields() {
    // period 428 (C-4 of the table), instrument 0x12, effect 0xA, data 0x34
    let word: u32 = (0x1 << 28) | (428 << 16) | (0x2 << 12) | (0xA << 8) | 0x34;
    let e = Element::deserialize(word);
    assert_eq!(e.note, 49);
    assert_eq!(e.instrument, 0x12);
    assert_eq!(e.effect, 0xA);
    assert_eq!(e.data, 0x34);
    // an unknown period is tolerated and leaves the note empty
    let odd = Element::deserialize(429 << 16);
    assert_eq!(odd.note, 0);
}

#[test]
fn period_table_endpoints() {
    assert_eq!(Element::period_to_note(6848), Some(1));
    assert_eq!(Element::period_to_note(56), Some(84));
    assert_eq!(Element::period_to_note(0), Some(0));
    assert_eq!(Element::period_to_note(1000), None);
    assert_eq!(Element::note_to_text(0), Some("---"));
    assert_eq!(Element::note_to_text(25), Some("C-4"));
    assert_eq!(Element::note_to_text(85), None);
}

#[test]
fn patterns_follow_the_highest_position() {
    let mut data = minimal_mod();
    // positions reference patterns 0, 2 and 1: three patterns must follow
    data[952] = 0;
    data[953] = 2;
    data[954] = 1;
    data[950] = 3; // song length
    data.resize(20 + 930 + 2 + 128 + 4 + 3 * 64 * 4 * 4, 0);
    let amiga = AmigaModule::load(&data).unwrap();
    assert_eq!(amiga.patterns.len(), 3);
    // with only two patterns' worth of bytes the file is short
    let short = &data[..20 + 930 + 2 + 128 + 4 + 2 * 64 * 4 * 4];
    assert_eq!(AmigaModule::load(short).unwrap_err(), CodecError::Truncated);
}

#[test]
fn audio_payloads_match_their_headers() {
    let mut data = minimal_mod();
    // sample 0 declares 4 words = 8 bytes, sample 1 declares 1 word
    data[20 + 22] = 0;
    data[20 + 23] = 4;
    data[20 + 30 + 22] = 0;
    data[20 + 30 + 23] = 1;
    let base = data.len();
    data.resize(base + 10, 0);
    data[base] = 1;
    data[base + 8] = 7;
    let amiga = AmigaModule::load(&data).unwrap();
    assert_eq!(amiga.samples[0].length, 8);
    assert_eq!(amiga.audio[0].len(), 8);
    assert_eq!(amiga.audio[0][0], 1);
    assert_eq!(amiga.audio[1].len(), 2);
    assert_eq!(amiga.audio[1][0], 7);
    assert_eq!(amiga.audio[2].len(), 0);
    // one byte short of the declared payloads: refused
    let short = &data[..data.len() - 1];
    assert_eq!(AmigaModule::load(short).unwrap_err(), CodecError::Truncated);
}
