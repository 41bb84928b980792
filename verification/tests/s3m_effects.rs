use xmrs::note::Note;
use xmrs::patternslot::PatternSlot;
use xmrs::s3m::s3m_effect::S3mEffect;

fn cell(effect_type: u8, effect_parameter: u8) -> PatternSlot {
    PatternSlot {
        note: Note::Empty,
        instrument: 0,
        volume: 0,
        effect_type,
        effect_parameter,
    }
}

#[test]
fn note_cut_with_zero_sub_parameter_is_removed() {
    // S effect (19), parameter 0xC0: a zero note cut does nothing in the
    // source tracker, so the translation removes the effect outright.
    let mut fx = S3mEffect::new();
    let mut n = cell(19, 0xC0);
    fx.efx_correction(0, &mut n);
    assert_eq!(n.effect_type, 0);
    assert_eq!(n.effect_parameter, 0);
}

#[test]
fn fine_volume_slide_up_is_reencoded() {
    // D effect (4), parameter 0xF5 on a fresh channel: a fine slide up,
    // re-encoded into the extended effect space.
    let mut fx = S3mEffect::new();
    let mut n = cell(4, 0xF5);
    fx.efx_correction(0, &mut n);
    assert_eq!(n.effect_type, 0xE);
    assert_eq!(n.effect_parameter, 0xB5);
}

#[test]
fn zero_parameter_inherits_channel_memory() {
    let mut fx = S3mEffect::new();
    // vibrato with a parameter fills the channel memory
    let mut first = cell(8, 0x42);
    fx.efx_correction(3, &mut first);
    assert_eq!(first.effect_type, 0x04);
    assert_eq!(first.effect_parameter, 0x42);
    // a later D effect with no parameter inherits the stored value; on D
    // the low nibble then has priority
    let mut second = cell(4, 0);
    fx.efx_correction(3, &mut second);
    assert_eq!(second.effect_type, 0x0A);
    assert_eq!(second.effect_parameter, 0x02);
}

#[test]
fn portamento_keeps_the_last_instrument() {
    let mut fx = S3mEffect::new();
    // an ordinary cell records its instrument
    let mut first = PatternSlot {
        note: Note::C4,
        instrument: 5,
        volume: 0,
        effect_type: 1,
        effect_parameter: 2,
    };
    fx.efx_correction(0, &mut first);
    // a tone portamento to a new instrument is illegal: the instrument is
    // forced back to the last one seen
    let mut second = PatternSlot {
        note: Note::D4,
        instrument: 9,
        volume: 0,
        effect_type: 7,
        effect_parameter: 4,
    };
    fx.efx_correction(0, &mut second);
    assert_eq!(second.effect_type, 0x03);
    assert_eq!(second.instrument, 5);
}

#[test]
fn note_delay_without_note_is_removed() {
    let mut fx = S3mEffect::new();
    let mut n = cell(19, 0xD4);
    fx.efx_correction(0, &mut n);
    assert_eq!(n.effect_type, 0);
    assert_eq!(n.effect_parameter, 0);
}

#[test]
fn channels_are_independent() {
    // the same cells on channel 0 translate the same whatever happens on
    // channel 1
    let mut fx_a = S3mEffect::new();
    let mut fx_b = S3mEffect::new();
    let mut a1 = cell(4, 0x21);
    let mut a2 = cell(4, 0);
    fx_a.efx_correction(0, &mut a1);
    fx_a.efx_correction(0, &mut a2);
    let mut noise = cell(8, 0x99);
    fx_b.efx_correction(1, &mut noise);
    let mut b1 = cell(4, 0x21);
    let mut b2 = cell(4, 0);
    fx_b.efx_correction(0, &mut b1);
    fx_b.efx_correction(0, &mut b2);
    assert_eq!(a1, b1);
    assert_eq!(a2, b2);
}

#[test]
fn update_pattern_translates_in_place() {
    let mut pattern = vec![
        vec![cell(1, 0x10), cell(2, 0x05)],
        vec![cell(1, 0), cell(20, 0x40)],
    ];
    S3mEffect::update_pattern(&mut pattern);
    // A with a parameter becomes the speed effect
    assert_eq!(pattern[0][0].effect_type, 0xF);
    assert_eq!(pattern[0][0].effect_parameter, 0x10);
    // B becomes a position jump
    assert_eq!(pattern[0][1].effect_type, 0xB);
    // repeated A with a zero parameter is cleared
    assert_eq!(pattern[1][0].effect_type, 0);
    assert_eq!(pattern[1][0].effect_parameter, 0);
    // T above the threshold becomes a tempo set
    assert_eq!(pattern[1][1].effect_type, 0x0F);
    assert_eq!(pattern[1][1].effect_parameter, 0x40);
}
