use xmrs::note::Note;
use xmrs::patternslot::PatternSlot;

#[test]
fn it_works() {
    assert_eq!(42, 42);
}

#[test]
fn note_values_round_trip() {
    assert_eq!(Note::Empty.value(), 0);
    assert_eq!(Note::C0.value(), 1);
    assert_eq!(Note::C4.value(), 49);
    assert_eq!(Note::B7.value(), 96);
    assert_eq!(Note::KeyOff.value(), 97);
    assert_eq!(Note::try_from_value(49), Some(Note::C4));
    assert_eq!(Note::try_from_value(97), Some(Note::KeyOff));
    assert_eq!(Note::try_from_value(98), None);
    for v in 0u8..=97 {
        let n = Note::try_from_value(v).unwrap();
        assert_eq!(n.value(), v);
    }
}

#[test]
fn note_predicates() {
    assert!(Note::Empty.is_none());
    assert!(!Note::Empty.is_valid());
    assert!(Note::KeyOff.is_keyoff());
    assert!(!Note::KeyOff.is_valid());
    assert!(Note::A4.is_valid());
    assert!(!Note::A4.is_none());
}

#[test]
fn slot_effect_queries() {
    let mut s = PatternSlot::default();
    s.effect_parameter = 3;
    assert!(s.has_arpeggio());
    s.effect_type = 0xE;
    s.effect_parameter = 0xD2;
    assert!(s.has_note_delay());
    s.effect_parameter = 0x90;
    assert!(s.has_retrigger_note_empty());
    s.effect_type = 3;
    assert!(s.has_tone_portamento());
    s.effect_type = 4;
    assert!(s.has_vibrato());
    s.effect_type = 0xA;
    assert!(s.has_volume_slide());
}

#[test]
fn slot_letters() {
    let mut s = PatternSlot::default();
    assert_eq!(s.volume_letter(), '-');
    s.volume = 0x25;
    assert_eq!(s.volume_letter(), '1');
    s.effect_type = 0x10;
    assert_eq!(s.effect_letter(), 'G');
    s.effect_type = 0x21;
    assert_eq!(s.effect_letter(), 'X');
    s.effect_type = 0x22;
    assert_eq!(s.effect_letter(), '0');
}
