use xmrs::envelope::Envelope;
use xmrs::envelope::EnvelopePoint;
use xmrs::error::CodecError;
use xmrs::instr_default::InstrDefault;
use xmrs::instr_midi::InstrMidi;
use xmrs::instr_vibrato::InstrVibrato;
use xmrs::instr_vibrato::Waveform;
use xmrs::instrument::Instrument;
use xmrs::instrument::InstrumentType;
use xmrs::module::Module;
use xmrs::note::Note;
use xmrs::patternslot::PatternSlot;
use xmrs::period_helper::FrequencyType;
use xmrs::sample::LoopType;
use xmrs::sample::Sample;
use xmrs::sample::SampleDataType;
use xmrs::xm::xmmodule::XmModule;

fn slot(note: Note, instrument: u8, volume: u8, et: u8, ep: u8) -> PatternSlot {
    PatternSlot { note, instrument, volume, effect_type: et, effect_parameter: ep }
}

fn sample_8bit() -> Sample {
    Sample {
        name: String::from("wave"),
        loop_start: 1,
        loop_length: 2,
        volume: 48,
        finetune: -16,
        flags: LoopType::Forward,
        panning: 128,
        relative_note: 12,
        data: SampleDataType::Depth8(vec![0, 10, -10, 127, -128, 5]),
    }
}

fn sample_16bit() -> Sample {
    Sample {
        name: String::from("wide"),
        loop_start: 0,
        loop_length: 3,
        volume: 64,
        finetune: 5,
        flags: LoopType::PingPong,
        panning: 10,
        relative_note: -7,
        data: SampleDataType::Depth16(vec![100, -200, 32767, -32768]),
    }
}

fn build_module() -> Module {
    let mut sample_for_note = vec![0u8; 96];
    sample_for_note[40] = 1;
    let instr = InstrDefault {
        sample_for_note,
        volume_envelope: Envelope {
            enabled: true,
            point: vec![
                EnvelopePoint { frame: 0, value: 64 },
                EnvelopePoint { frame: 20, value: 32 },
                EnvelopePoint { frame: 40, value: 0 },
            ],
            sustain_enabled: true,
            sustain_point: 1,
            loop_enabled: true,
            loop_start_point: 0,
            loop_end_point: 2,
        },
        panning_envelope: Envelope::default(),
        vibrato: InstrVibrato { waveform: Waveform::Square, speed: 3, depth: 7, sweep: 9 },
        volume_fadeout: 1234,
        sample: vec![sample_8bit(), sample_16bit()],
        midi: InstrMidi { on: false, channel: 2, program: 7, bend: 11 },
        midi_mute_computer: false,
    };
    Module {
        name: String::from("roundtrip song"),
        comment: String::new(),
        frequency_type: FrequencyType::LinearFrequencies,
        restart_position: 1,
        default_tempo: 7,
        default_bpm: 130,
        pattern_order: vec![0, 1, 0],
        pattern: vec![
            vec![
                vec![slot(Note::C4, 1, 0x20, 0, 0), slot(Note::Empty, 0, 0, 0x0A, 0x12)],
                vec![slot(Note::KeyOff, 0, 0, 0, 0), slot(Note::B7, 1, 0x40, 0x0F, 0x7F)],
            ],
            vec![
                vec![PatternSlot::default(), PatternSlot::default()],
                vec![slot(Note::A4, 1, 0, 4, 0x35), PatternSlot::default()],
            ],
        ],
        instrument: vec![Instrument {
            name: String::from("lead"),
            instr_type: InstrumentType::Classic(instr),
            muted: false,
        }],
    }
}

#[test]
fn xm_save_load_round_trip() {
    let module = build_module();
    let mut xm = XmModule::from_module(&module);
    let bytes = xm.save().unwrap();
    let xm2 = XmModule::load(&bytes).unwrap();
    let m2 = xm2.to_module();

    assert_eq!(m2.name, module.name);
    assert_eq!(m2.frequency_type, module.frequency_type);
    assert_eq!(m2.restart_position, module.restart_position);
    assert_eq!(m2.default_tempo, module.default_tempo);
    assert_eq!(m2.default_bpm, module.default_bpm);
    assert_eq!(m2.pattern_order, module.pattern_order);
    assert_eq!(m2.pattern, module.pattern);
    assert_eq!(m2.instrument.len(), 1);
    let back = &m2.instrument[0];
    assert_eq!(back.name, "lead");
    match (&back.instr_type, &module.instrument[0].instr_type) {
        (InstrumentType::Classic(got), InstrumentType::Classic(want)) => {
            assert_eq!(got.sample_for_note, want.sample_for_note);
            assert_eq!(got.volume_envelope, want.volume_envelope);
            assert_eq!(got.panning_envelope, want.panning_envelope);
            assert_eq!(got.vibrato, want.vibrato);
            assert_eq!(got.volume_fadeout, want.volume_fadeout);
            assert_eq!(got.midi, want.midi);
            assert_eq!(got.sample, want.sample);
        },
        _ => panic!("instrument kind changed"),
    }
}

#[test]
fn xm_load_rejects_wrong_id() {
    let module = build_module();
    let mut xm = XmModule::from_module(&module);
    let mut bytes = xm.save().unwrap();
    bytes[0] = b'Z';
    assert_eq!(XmModule::load(&bytes).unwrap_err(), CodecError::FormatMismatch);
}

#[test]
fn xm_load_rejects_short_input() {
    assert_eq!(XmModule::load(&[0; 40]).unwrap_err(), CodecError::Truncated);
}

#[test]
fn xm_load_rejects_bad_flags() {
    let module = build_module();
    let mut xm = XmModule::from_module(&module);
    let mut bytes = xm.save().unwrap();
    bytes[74] = 9;
    assert_eq!(XmModule::load(&bytes).unwrap_err(), CodecError::Decode);
}

#[test]
fn malformed_envelope_is_disabled_on_load() {
    let mut module = build_module();
    if let InstrumentType::Classic(id) = &mut module.instrument[0].instr_type {
        // sustain past the last point: the envelope must come back disabled
        id.volume_envelope.sustain_point = 9;
    }
    let mut xm = XmModule::from_module(&module);
    let bytes = xm.save().unwrap();
    let m2 = XmModule::load(&bytes).unwrap().to_module();
    match &m2.instrument[0].instr_type {
        InstrumentType::Classic(id) => {
            assert_eq!(id.volume_envelope, Envelope::default());
        },
        _ => panic!("instrument kind changed"),
    }
}
