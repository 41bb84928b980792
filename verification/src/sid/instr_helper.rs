//! Turn SID voices into playable instruments: generated waveforms and an
//! ADSR envelope approximation.

use vstd::prelude::*;

use crate::envelope::Envelope;
use crate::envelope::EnvelopePoint;
use crate::fixedstr::ascii_bytes_to_string;
use crate::fixedstr::push_decimal;
use crate::fixedstr::push_hex2;
use crate::instr_default::InstrDefault;
use crate::instr_robsid::InstrRobSid;
use crate::instr_sid::SidVoice;
use crate::instrument::Instrument;
use crate::instrument::InstrumentType;
use crate::sample::LoopType;
use crate::sample::Sample;
use crate::sample::SampleDataType;

verus! {

/// Builds instruments out of SID voice descriptions.
pub struct InstrHelper;

/// The linear-feedback shift register state after `k` steps from the
/// fixed seed, as the noise generator of the chip steps it.
pub open spec fn spec_lfsr(k: int) -> u16
    decreases k,
{
    if k <= 0 {
        0xACE1
    } else {
        let l = spec_lfsr(k - 1);
        (l >> 1) | (((l ^ ((l >> 1) & 1)) << 15) as u16)
    }
}

impl InstrHelper {
    /// A 128-frame noise wave from the chip's shift register sequence.
    pub fn generate_sid_noise_sample() -> (r: SampleDataType)
        ensures
            r matches SampleDataType::Depth8(v) && v@.len() == 128 && (forall|i: int|
                0 <= i < 128 ==> v@[i] == ((spec_lfsr(i + 1) as u8) as int - 128) as i8),
    {
        let mut lfsr: u16 = 0xACE1;
        let mut noise_data: Vec<i8> = Vec::new();
        let mut i: usize = 0;
        while i < 128
            invariant
                i <= 128,
                lfsr == spec_lfsr(i as int),
                noise_data@.len() == i,
                forall|k: int|
                    0 <= k < i ==> noise_data@[k] == ((spec_lfsr(k + 1) as u8) as int - 128) as i8,
            decreases 128 - i,
        {
            let new_bit = lfsr ^ ((lfsr >> 1) & 1);
            lfsr = (lfsr >> 1) | (new_bit << 15u16);
            let value_u8 = (lfsr & 0xFF) as u8;
            proof {
                let l = lfsr;
                assert(l & 0xFF < 256) by (bit_vector);
                assert((l & 0xFF) as u8 == l as u8) by (bit_vector);
            }
            let u = value_u8.wrapping_sub(128);
            let w = u as i8;
            proof {
                let v = value_u8;
                assert(w as int == v as int - 128) by (bit_vector)
                    requires
                        (v >= 128 ==> u == v - 128) && (v < 128 ==> u == (v + 128) as u8),
                        w == u as i8,
                ;
            }
            noise_data.push(w);
            i = i + 1;
        }
        SampleDataType::Depth8(noise_data)
    }

    /// A 128-frame pulse wave whose duty cycle follows the voice's pulse
    /// width register.
    pub fn generate_pulse_sample(pw: u16) -> (r: SampleDataType)
        ensures
            r matches SampleDataType::Depth8(v) && v@.len() == 128 && (forall|i: int|
                0 <= i < 128 ==> v@[i] == (if i < (pw as int) * 128 / 4095 {
                    127i8
                } else {
                    -127i8
                })),
    {
        let duty_cycle = (pw as usize) * 128 / 4095;
        let mut pulse_data: Vec<i8> = Vec::new();
        let mut i: usize = 0;
        while i < 128
            invariant
                duty_cycle == (pw as int) * 128 / 4095,
                i <= 128,
                pulse_data@.len() == i,
                forall|k: int|
                    0 <= k < i ==> pulse_data@[k] == (if k < (pw as int) * 128 / 4095 {
                        127i8
                    } else {
                        -127i8
                    }),
            decreases 128 - i,
        {
            if i < duty_cycle {
                pulse_data.push(127);
            } else {
                pulse_data.push(-127);
            }
            i = i + 1;
        }
        SampleDataType::Depth8(pulse_data)
    }

    /// A 128-frame rising sawtooth wave.
    pub fn generate_sawtooth_sample() -> (r: SampleDataType)
        ensures
            r matches SampleDataType::Depth8(v) && v@.len() == 128 && (forall|i: int|
                0 <= i < 128 ==> v@[i] as int == 2 * i - 128),
    {
        let mut sawtooth_data: Vec<i8> = Vec::new();
        let mut i: usize = 0;
        while i < 128
            invariant
                i <= 128,
                sawtooth_data@.len() == i,
                forall|k: int| 0 <= k < i ==> sawtooth_data@[k] as int == 2 * k - 128,
            decreases 128 - i,
        {
            let v: i8 = (2 * (i as i16) - 128) as i8;
            sawtooth_data.push(v);
            i = i + 1;
        }
        SampleDataType::Depth8(sawtooth_data)
    }

    /// A 128-frame triangle wave.
    pub fn generate_triangle_sample() -> (r: SampleDataType)
        ensures
            r matches SampleDataType::Depth8(v) && v@.len() == 128 && (forall|i: int|
                0 <= i < 128 ==> v@[i] as int == (if i < 64 {
                    4 * i - 128
                } else {
                    4 * (127 - i) - 128
                })),
    {
        let mut triangle_data: Vec<i8> = Vec::new();
        let mut i: usize = 0;
        while i < 128
            invariant
                i <= 128,
                triangle_data@.len() == i,
                forall|k: int|
                    0 <= k < i ==> triangle_data@[k] as int == (if k < 64 {
                        4 * k - 128
                    } else {
                        4 * (127 - k) - 128
                    }),
            decreases 128 - i,
        {
            let v: i8 = if i < 64 {
                (4 * (i as i16) - 128) as i8
            } else {
                (4 * (127 - i as i16) - 128) as i8
            };
            triangle_data.push(v);
            i = i + 1;
        }
        SampleDataType::Depth8(triangle_data)
    }

    /// How many frames each of the 16 ADSR duration steps lasts at the
    /// given tempo: the historical millisecond table divided by the tick
    /// length, rounded to the nearest frame.
    pub fn gen_adr_frames(bpm: u16, speed: u8) -> (r: Vec<u16>)
        requires
            bpm >= 1,
            speed >= 1,
        ensures
            r@.len() == 16,
            forall|i: int|
                0 <= i < 16 ==> r@[i] as int == (2 * spec_adr_ms(i) * bpm + 2500 * speed) / (2
                    * 2500 * speed) || r@[i] == 65535,
    {
        let mut frames: Vec<u16> = Vec::new();
        let mut i: usize = 0;
        while i < 16
            invariant
                bpm >= 1,
                speed >= 1,
                i <= 16,
                frames@.len() == i,
                forall|k: int|
                    0 <= k < i ==> frames@[k] as int == (2 * spec_adr_ms(k) * bpm + 2500 * speed)
                        / (2 * 2500 * speed) || frames@[k] == 65535,
            decreases 16 - i,
        {
            let ms: u64 = adr_ms(i);
            proof {
                assert(ms * (bpm as u64) <= 3900 * 65535) by (nonlinear_arith)
                    requires
                        ms <= 3900,
                        bpm as u64 <= 65535,
                ;
            }
            let prod: u64 = ms * (bpm as u64);
            let num: u64 = 2 * prod + 2500 * (speed as u64);
            let den: u64 = 2500 * (speed as u64) * 2;
            proof {
                assert(den >= 5000) by (nonlinear_arith)
                    requires
                        den == 2500 * (speed as u64) * 2,
                        speed >= 1,
                ;
                assert(2 * prod + 2500 * (speed as u64) == num);
                assert(num as int / den as int == (2 * spec_adr_ms(i as int) * bpm + 2500 * speed)
                    / (2 * 2500 * speed)) by (nonlinear_arith)
                    requires
                        num == 2 * prod + 2500 * (speed as u64),
                        prod == ms * (bpm as u64),
                        ms == spec_adr_ms(i as int),
                        den == 2500 * (speed as u64) * 2,
                        den > 0,
                ;
            }
            let q = num / den;
            let f: u16 = if q > 65535 {
                65535
            } else {
                q as u16
            };
            frames.push(f);
            i = i + 1;
        }
        frames
    }

    /// The sample a voice's waveform selection plays: generated noise,
    /// pulse, sawtooth or triangle data, silence when no control bit is
    /// set.
    pub fn sid_to_sample(voice: &SidVoice) -> (r: Sample)
        ensures
            r.loop_start == 0,
            r.loop_length == 128,
            r.volume == 64,
            r.finetune == 0,
            r.flags == LoopType::Forward,
            r.panning == 128,
            r.relative_note == 0,
            r.data matches SampleDataType::Depth8(v) && v@.len() == 128,
    {
        let mut name_bytes: Vec<u8> = Vec::new();
        let data: SampleDataType;
        if voice.ctrl_noise {
            push_ascii_word(&mut name_bytes, 0);
            data = Self::generate_sid_noise_sample();
        } else if voice.ctrl_pulse {
            push_ascii_word(&mut name_bytes, 1);
            push_decimal(&mut name_bytes, voice.pw);
            data = Self::generate_pulse_sample(voice.pw);
        } else if voice.ctrl_sawtooth {
            push_ascii_word(&mut name_bytes, 2);
            data = Self::generate_sawtooth_sample();
        } else if voice.ctrl_triangle {
            push_ascii_word(&mut name_bytes, 3);
            data = Self::generate_triangle_sample();
        } else {
            push_ascii_word(&mut name_bytes, 4);
            let mut silence: Vec<i8> = Vec::new();
            let mut i: usize = 0;
            while i < 128
                invariant
                    i <= 128,
                    silence@.len() == i,
                decreases 128 - i,
            {
                silence.push(0);
                i = i + 1;
            }
            data = SampleDataType::Depth8(silence);
        }
        proof {
            crate::fixedstr::lemma_decimal_bytes_ascii(voice.pw as int);
            assert(forall|i: int| 0 <= i < name_bytes@.len() ==> name_bytes@[i] < 0x80);
        }
        Sample {
            name: ascii_bytes_to_string(name_bytes),
            loop_start: 0,
            loop_length: 128,
            volume: 64,
            finetune: 0,
            flags: LoopType::Forward,
            panning: 128,
            relative_note: 0,
            data,
        }
    }

    /// The classic instrument a voice approximates: its waveform as a
    /// looped sample, its ADSR as a volume envelope.
    pub fn sid_to_xi(sid: &SidVoice) -> (r: InstrDefault)
        ensures
            r.volume_envelope.enabled,
            r.sample@.len() == 1,
            r.sample@[0].relative_note == 24,
    {
        let attack = (sid.ad / 16) & 0x0F;
        let decay = sid.ad & 0x0F;
        let sustain = (sid.sr / 16) & 0x0F;
        let release = sid.sr & 0x0F;
        let mut point: Vec<EnvelopePoint> = Vec::new();
        let mut seek: u16 = 0;
        let mut seek_point: u8 = 0;
        if attack != 0 {
            point.push(EnvelopePoint { frame: 0, value: 0 });
            seek = seek + attack as u16;
            point.push(EnvelopePoint { frame: seek, value: 64 });
            seek_point = 1;
        } else {
            point.push(EnvelopePoint { frame: 0, value: 64 });
        }
        if decay != 0 {
            seek = seek + decay as u16;
        } else {
            seek = seek + 1;
        }
        point.push(EnvelopePoint { frame: seek, value: 4 * (sustain as u16) });
        seek_point = seek_point + 1;
        if release != 0 {
            seek = seek + release as u16;
        } else {
            seek = seek + 1;
        }
        point.push(EnvelopePoint { frame: seek, value: 0 });
        let volume_envelope = Envelope {
            enabled: true,
            point,
            sustain_enabled: sustain != 0,
            sustain_point: seek_point,
            loop_enabled: false,
            loop_start_point: 0,
            loop_end_point: 0,
        };
        let mut instr = InstrDefault::default();
        instr.volume_envelope = volume_envelope;
        let mut s = Self::sid_to_sample(&sid);
        s.relative_note = 24;
        instr.sample.push(s);
        instr
    }

    /// One instrument per Rob Hubbard record: the raw SID registers when
    /// the original kinds are wanted, a playable approximation otherwise.
    pub fn irs_to_instrument(irs: &InstrRobSid, original: bool) -> (r: Instrument)
        requires
            irs.wf(),
        ensures
            original ==> r.instr_type is RobSid,
            !original ==> r.instr_type is Classic,
    {
        let v0: &SidVoice = &irs.sid.voice[0];
        let mut name_bytes: Vec<u8> = Vec::new();
        if v0.ctrl_noise {
            push_ascii_word(&mut name_bytes, 0);
        } else if v0.ctrl_pulse {
            push_ascii_word(&mut name_bytes, 1);
        } else if v0.ctrl_sawtooth {
            push_ascii_word(&mut name_bytes, 2);
        } else if v0.ctrl_triangle {
            push_ascii_word(&mut name_bytes, 3);
        }
        if v0.ctrl_noise || v0.ctrl_pulse || v0.ctrl_sawtooth || v0.ctrl_triangle {
            name_bytes.push(0x20);
            push_hex2(&mut name_bytes, v0.ad);
            push_hex2(&mut name_bytes, v0.sr);
        }
        proof {
            assert(forall|i: int| 0 <= i < name_bytes@.len() ==> name_bytes@[i] < 0x80);
        }
        let name = ascii_bytes_to_string(name_bytes);
        if original {
            let mut copy = InstrRobSid::default();
            copy.sid = clone_instr_sid(&irs.sid);
            copy.fx = irs.fx.clone();
            Instrument { name, instr_type: InstrumentType::RobSid(copy), muted: false }
        } else {
            let mut xi = Self::sid_to_xi(v0);
            if irs.fx[0].vibrato {
                xi.vibrato.depth = irs.fx[0].vibrato_depth;
                xi.vibrato.speed = if irs.fx[0].vibrato_div > 0 {
                    255 / irs.fx[0].vibrato_div
                } else {
                    0
                };
            }
            Instrument { name, instr_type: InstrumentType::Classic(xi), muted: false }
        }
    }

    /// One instrument per record of a dump.
    pub fn irss_to_instruments(irss: &Vec<InstrRobSid>, original: bool) -> (r: Vec<Instrument>)
        requires
            forall|i: int| 0 <= i < irss@.len() ==> (#[trigger] irss@[i]).wf(),
        ensures
            r@.len() == irss@.len(),
            forall|i: int|
                0 <= i < r@.len() ==> (original ==> (#[trigger] r@[i]).instr_type is RobSid) && (
                !original ==> r@[i].instr_type is Classic),
    {
        let mut idst: Vec<Instrument> = Vec::new();
        let n = irss.len();
        let mut i: usize = 0;
        while i < n
            invariant
                n == irss@.len(),
                i <= n,
                forall|k: int| 0 <= k < n ==> (#[trigger] irss@[k]).wf(),
                idst@.len() == i,
                forall|k: int|
                    0 <= k < i ==> (original ==> (#[trigger] idst@[k]).instr_type is RobSid) && (
                    !original ==> idst@[k].instr_type is Classic),
            decreases n - i,
        {
            let instr = Self::irs_to_instrument(&irss[i], original);
            idst.push(instr);
            i = i + 1;
        }
        idst
    }
}

/// The historical ADSR duration table, in milliseconds.
pub open spec fn spec_adr_ms(i: int) -> int {
    if i == 0 {
        2
    } else if i == 1 {
        8
    } else if i == 2 {
        16
    } else if i == 3 {
        24
    } else if i == 4 {
        38
    } else if i == 5 {
        56
    } else if i == 6 {
        68
    } else if i == 7 {
        80
    } else if i == 8 {
        100
    } else if i == 9 {
        250
    } else if i == 10 {
        500
    } else if i == 11 {
        800
    } else if i == 12 {
        1100
    } else if i == 13 {
        1500
    } else if i == 14 {
        2400
    } else {
        3900
    }
}

/// The historical ADSR duration table, in milliseconds.
fn adr_ms(i: usize) -> (r: u64)
    requires
        i < 16,
    ensures
        r as int == spec_adr_ms(i as int),
        r <= 3900,
{
    if i == 0 {
        2
    } else if i == 1 {
        8
    } else if i == 2 {
        16
    } else if i == 3 {
        24
    } else if i == 4 {
        38
    } else if i == 5 {
        56
    } else if i == 6 {
        68
    } else if i == 7 {
        80
    } else if i == 8 {
        100
    } else if i == 9 {
        250
    } else if i == 10 {
        500
    } else if i == 11 {
        800
    } else if i == 12 {
        1100
    } else if i == 13 {
        1500
    } else if i == 14 {
        2400
    } else {
        3900
    }
}

/// Append one of the fixed waveform names as ASCII bytes.
fn push_ascii_word(out: &mut Vec<u8>, which: u8)
    ensures
        final (out)@.len() >= old(out)@.len(),
        final (out)@.subrange(0, old(out)@.len() as int) == old(out)@,
        forall|i: int|
            old(out)@.len() <= i < final (out)@.len() ==> (#[trigger] final (out)@[i]) < 0x80,
{
    if which == 0 {
        // Noise
        out.push(0x4E);
        out.push(0x6F);
        out.push(0x69);
        out.push(0x73);
        out.push(0x65);
    } else if which == 1 {
        // Pulse
        out.push(0x50);
        out.push(0x75);
        out.push(0x6C);
        out.push(0x73);
        out.push(0x65);
        out.push(0x20);
    } else if which == 2 {
        // Sawtooth
        out.push(0x53);
        out.push(0x61);
        out.push(0x77);
        out.push(0x74);
        out.push(0x6F);
        out.push(0x6F);
        out.push(0x74);
        out.push(0x68);
    } else if which == 3 {
        // Triangle
        out.push(0x54);
        out.push(0x72);
        out.push(0x69);
        out.push(0x61);
        out.push(0x6E);
        out.push(0x67);
        out.push(0x6C);
        out.push(0x65);
    } else {
        // Silence
        out.push(0x53);
        out.push(0x69);
        out.push(0x6C);
        out.push(0x65);
        out.push(0x6E);
        out.push(0x63);
        out.push(0x65);
    }
}

/// A field-for-field copy of a SID register block.
fn clone_instr_sid(s: &crate::instr_sid::InstrSid) -> (r: crate::instr_sid::InstrSid)
    ensures
        r.voice@ == s.voice@,
        r.filter_gate@ == s.filter_gate@,
        r.fc == s.fc,
        r.main_volume == s.main_volume,
{
    let voice = s.voice.clone();
    assert(voice@ =~= s.voice@);
    let filter_gate = s.filter_gate.clone();
    assert(filter_gate@ =~= s.filter_gate@);
    crate::instr_sid::InstrSid {
        voice,
        fc: s.fc,
        filter_resonance: s.filter_resonance,
        filter_gate,
        low_pass: s.low_pass,
        band_pass: s.band_pass,
        high_pass: s.high_pass,
        mute_voice3: s.mute_voice3,
        main_volume: s.main_volume,
    }
}

} // verus!
