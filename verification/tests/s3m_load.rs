use xmrs::error::CodecError;
use xmrs::period_helper::FrequencyType;
use xmrs::s3m::s3m_module::S3mInstrument;
use xmrs::s3m::s3m_module::S3mMetaInstrument;
use xmrs::s3m::s3m_module::S3mModule;

/// A minimal S3M image: empty title, two order entries ending in the
/// end-of-song marker, no instruments, one pattern.
fn minimal_s3m() -> Vec<u8> {
    // header(96) + order(4) + pattern parapointer(2) + padding to
    // paragraph 7 + pattern block
    let mut data = vec![0u8; 96 + 4 + 2 + 10 + 16];
    data[28] = 0x1A;
    data[29] = 0x10;
    data[32] = 4;  // order count
    data[36] = 1;  // pattern count
    data[44] = b'S';
    data[45] = b'C';
    data[46] = b'R';
    data[47] = b'M';
    data[49] = 6;  // speed
    data[50] = 125;  // tempo
    // order: pattern 0, a separator, pattern 1, end of song
    data[96] = 0;
    data[97] = 254;
    data[98] = 1;
    data[99] = 255;
    // pattern parapointer: paragraph 7 = offset 112
    data[100] = 7;
    data[101] = 0;
    // pattern block at 112: length 8, then one row: cell on channel 2
    // with note C-4 (octave 4, semitone 0), instrument 3, then row end,
    // then an empty row marker
    data[112] = 8;
    data[113] = 0;
    data[114] = 0b0010_0010;  // channel 2, note+instrument follow
    data[115] = 0x40;  // octave 4, note 0
    data[116] = 3;
    data[117] = 0;  // end of row
    data[118] = 0;  // end of second row
    data[119] = 0;  // end of third row
    data
}

#[test]
fn minimal_s3m_loads() {
    let data = minimal_s3m();
    let s3m = S3mModule::load(&data).unwrap();
    assert_eq!(s3m.header.order_count, 4);
    assert_eq!(s3m.header.pattern_count, 1);
    // the separator is dropped and the list cut at the end marker
    assert_eq!(s3m.positions, vec![0, 1]);
    assert_eq!(s3m.patterns.len(), 1);
    let pattern = &s3m.patterns[0];
    assert_eq!(pattern.len(), 3);
    assert_eq!(pattern[0].len(), 32);
    let cell = pattern[0][2];
    assert_eq!(cell.note.value(), 49);  // C-4
    assert_eq!(cell.instrument, 3);
    let module = s3m.to_module();
    assert_eq!(module.frequency_type, FrequencyType::LinearFrequencies);
    assert_eq!(module.default_tempo, 6);
    assert_eq!(module.default_bpm, 125);
    assert_eq!(module.pattern_order, vec![0, 1]);
}

#[test]
fn s3m_signature_is_required() {
    let mut data = minimal_s3m();
    data[44] = b'X';
    assert_eq!(S3mModule::load(&data).unwrap_err(), CodecError::FormatMismatch);
    let mut data2 = minimal_s3m();
    data2[28] = 0;
    assert_eq!(S3mModule::load(&data2).unwrap_err(), CodecError::FormatMismatch);
    assert_eq!(S3mModule::load(&[0; 50]).unwrap_err(), CodecError::Truncated);
}

#[test]
fn unknown_instrument_type_keeps_filename() {
    let mut data = vec![0u8; 32];
    data[4] = 9; // unknown discriminator
    let name = b"OLDFILE.SMP";
    data[5..5 + name.len()].copy_from_slice(name);
    let mi = S3mMetaInstrument::new(&data, 4).unwrap();
    assert_eq!(mi.discriminator, 9);
    assert_eq!(mi.filename, "OLDFILE.SMP");
    assert!(mi.sample.is_none());
    match mi.value {
        S3mInstrument::PcmInstrument(p) => {
            assert_eq!(p.len, 0);
            assert_eq!(p.flags, 0);
            assert_eq!(p.title, "");
        },
        _ => panic!("expected a placeholder PCM record"),
    }
}

#[test]
fn unknown_instrument_type_needs_its_filename_bytes() {
    let mut data = vec![0u8; 10];
    data[4] = 200;
    assert_eq!(S3mMetaInstrument::new(&data, 4).unwrap_err(), CodecError::Truncated);
}

#[test]
fn pcm_instrument_signature_is_checked() {
    // a type-1 slot without the SCRS signature fails to decode
    let mut data = vec![0u8; 96];
    data[8] = 1;
    assert_eq!(S3mMetaInstrument::new(&data, 8).unwrap_err(), CodecError::Decode);
    // with the signature it loads, and the zero parapointer points at the
    // start of the buffer
    data[84] = b'S';
    data[85] = b'C';
    data[86] = b'R';
    data[87] = b'S';
    let mi = S3mMetaInstrument::new(&data, 8).unwrap();
    assert_eq!(mi.discriminator, 1);
    assert!(mi.sample.is_some());
}
