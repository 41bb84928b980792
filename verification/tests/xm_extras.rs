use xmrs::note::Note;
use xmrs::patternslot::PatternSlot;
use xmrs::xm::xmpattern::XmPattern;
use xmrs::xm::xmpattern::XmPatternHeader;
use xmrs::xm::xp_pattern::XpPattern;
use xmrs::xm::xt_track::XtTrack;

fn slot(note: Note) -> PatternSlot {
    PatternSlot { note, instrument: 1, volume: 2, effect_type: 3, effect_parameter: 4 }
}

#[test]
fn xt_track_saves_unpacked_cells() {
    let track = vec![slot(Note::C4), PatternSlot::default()];
    let bytes = XtTrack::save(&track);
    // version 1, two rows, then two unpacked 5-byte cells
    assert_eq!(
        bytes,
        vec![1, 0, 2, 0, 49, 1, 2, 3, 4, 0, 0, 0, 0, 0]
    );
}

#[test]
fn xp_pattern_requires_32_tracks() {
    let narrow = vec![vec![PatternSlot::default(); 4]];
    assert!(XpPattern::save(&narrow).is_none());
    let wide = vec![vec![PatternSlot::default(); 32]];
    let bytes = XpPattern::save(&wide).unwrap();
    assert_eq!(bytes.len(), 4 + 32 * 5);
    assert_eq!(&bytes[..4], &[1, 0, 1, 0]);
}

#[test]
fn pattern_record_round_trips() {
    let rows = vec![
        vec![slot(Note::C4), slot(Note::KeyOff), PatternSlot::default()],
        vec![PatternSlot::default(), slot(Note::B7), slot(Note::A0)],
    ];
    let mut xp = XmPattern {
        header: XmPatternHeader { pattern_header_len: 9, packing_type: 0, num_rows: 2, pattern_data_size: 0 },
        pattern: rows.clone(),
    };
    let bytes = xp.save().unwrap();
    let (back, consumed) = XmPattern::load(&bytes, 0, 3).unwrap();
    assert_eq!(consumed, bytes.len());
    assert_eq!(back.pattern, rows);
    assert_eq!(back.header.num_rows, 2);
}

#[test]
fn short_pattern_data_is_zero_filled() {
    // header declaring 4 rows but carrying no cell data at all
    let bytes = vec![9, 0, 0, 0, 0, 4, 0, 0, 0];
    let (back, _) = XmPattern::load(&bytes, 0, 2).unwrap();
    assert_eq!(back.pattern.len(), 4);
    for row in &back.pattern {
        assert_eq!(row, &vec![PatternSlot::default(); 2]);
    }
}
