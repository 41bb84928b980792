use xmrs::module::Pattern;
use xmrs::note::Note;
use xmrs::patternslot::PatternSlot;
use xmrs::sid::instr_helper::InstrHelper;
use xmrs::sid::one_sid::OneSid;
use xmrs::sid::pattern_helper::PatternHelper;
use xmrs::sid::sid_module::SidModule;

#[test]
fn dump_metadata_is_filled_in() {
    let sid = OneSid::get_sid_commando(vec![0; 4096]);
    assert_eq!(sid.name, "Commando");
    assert_eq!(sid.author, "Rob Hubbard");
    assert_eq!(sid.resetspd, 2);
    assert_eq!(sid.load_adress, 0x5000);
}

#[test]
fn empty_image_still_decodes_structurally() {
    let sm = SidModule::get_sid_zoid(vec![0; 8192]);
    assert_eq!(sm.pattern_helper.version, 10);
    assert_eq!(sm.pattern_helper.songs.len(), 3);
    assert_eq!(sm.instruments.len(), 15);
    assert_eq!(sm.soundfx.len(), 0);
    let modules = sm.to_modules(true);
    assert_eq!(modules.len(), 3);
    assert_eq!(modules[0].default_tempo, 2);
    assert_eq!(modules[0].name, "Zoids 0");
}

#[test]
fn generated_waves_have_expected_shape() {
    match InstrHelper::generate_sawtooth_sample() {
        xmrs::sample::SampleDataType::Depth8(v) => {
            assert_eq!(v.len(), 128);
            assert_eq!(v[0], -128);
            assert_eq!(v[64], 0);
            assert_eq!(v[127], 126);
        },
        _ => panic!("wrong depth"),
    }
    match InstrHelper::generate_pulse_sample(2048) {
        xmrs::sample::SampleDataType::Depth8(v) => {
            assert_eq!(v[0], 127);
            assert_eq!(v[127], -127);
        },
        _ => panic!("wrong depth"),
    }
}

#[test]
fn adr_frames_follow_the_tempo() {
    let frames = InstrHelper::gen_adr_frames(125, 2);
    assert_eq!(frames.len(), 16);
    // 2500/125*2 = 40 ms per tick: 80 ms rounds to 2 frames
    assert_eq!(frames[7], 2);
    // 3900 ms rounds to 98 frames
    assert_eq!(frames[15], 98);
}

#[test]
fn cleanup_deduplicates_patterns() {
    let a: Pattern = vec![vec![PatternSlot::default(); 3]; 2];
    let mut b: Pattern = vec![vec![PatternSlot::default(); 3]; 2];
    b[1][2].note = Note::C4;
    let source = vec![a.clone(), b.clone(), a.clone()];
    let (dest, order) = PatternHelper::cleanup_patterns(&source);
    assert_eq!(dest.len(), 2);
    assert_eq!(order, vec![0, 1, 0]);
    assert_eq!(dest[0], a);
    assert_eq!(dest[1], b);
}

#[test]
fn oversized_patterns_are_split() {
    let big: Pattern = vec![vec![PatternSlot::default(); 1]; 600];
    let mut patterns = vec![big];
    PatternHelper::split_large_patterns(&mut patterns);
    assert_eq!(patterns.len(), 3);
    assert_eq!(patterns[0].len(), 256);
    assert_eq!(patterns[1].len(), 256);
    assert_eq!(patterns[2].len(), 88);
}
