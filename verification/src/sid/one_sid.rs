//! The metadata of one extracted C64 music-engine dump: where the song
//! lists, patterns, instruments and effects sit inside the player image.
//!
//! The raw player image itself is handed in by the caller; the fixed
//! offsets below were identified by hand for each title.

use vstd::prelude::*;
use vstd::string::StringExecFns;

use crate::instr_robsid::InstrRobSid;
use crate::instr_robsid::RobEffects;
use crate::instr_sid::InstrSid;
use crate::instr_sid::SidVoice;

use super::pattern_helper::PatternHelper;
use super::sid_module::SidModule;
use super::sound_fx::SoundFx;

verus! {

/// One dump: the player image and the hand-identified offsets of its
/// data tables.
#[derive(Clone, Debug, PartialEq)]
pub struct OneSid {
    /// The raw player image.
    pub song: Vec<u8>,
    /// Title of the tune.
    pub name: String,
    /// Composer.
    pub author: String,
    /// Copyright line.
    pub copyright: String,
    /// Player engine revision.
    pub version: usize,
    /// Load address of the image.
    pub load_adress: usize,
    /// Voices per song.
    pub song_track_qty: usize,
    /// Offset of the song list.
    pub song_list_offset: usize,
    /// Number of songs.
    pub song_list_qty: usize,
    /// Offset of the low pattern pointer table.
    pub patt_ptl_offset: usize,
    /// Offset of the high pattern pointer table.
    pub patt_pth_offset: usize,
    /// Number of patterns.
    pub patt_qty: usize,
    /// Offset of the instrument table.
    pub instr_offset: usize,
    /// Number of instruments.
    pub instr_qty: usize,
    /// Offset of the first sound-effect table.
    pub fx_v1_offset: usize,
    /// Number of entries of the first sound-effect table.
    pub fx_v1_qty: usize,
    /// Offset of the second sound-effect table.
    pub fx_v2_offset: usize,
    /// Number of entries of the second sound-effect table.
    pub fx_v2_qty: usize,
    /// Default speed of the tune.
    pub resetspd: usize,
    /// Skydive effect trigger length.
    pub skydive_v1_when: usize,
    /// Skydive effect frequency step.
    pub skydive_v1_add: i32,
}

/// The byte of the player image that memory address `addr` maps to: the
/// image starts 126 bytes before its load address; reads outside the
/// image give 0.
pub open spec fn spec_song_byte(song: Seq<u8>, load: int, addr: int) -> u8 {
    let idx = 126 + addr - load;
    if 0 <= idx < song.len() {
        song[idx]
    } else {
        0
    }
}

impl OneSid {
    /// Sensible table sizes: what the hand-identified dumps use, and what
    /// the address arithmetic below needs to stay in bounds.
    pub open spec fn wf(self) -> bool {
        &&& self.song@.len() <= 0xFFFF_FFFF
        &&& self.load_adress <= 0xFFFF_FFFF
        &&& self.song_list_offset <= 0xFFFF_FFFF
        &&& self.patt_ptl_offset <= 0xFFFF_FFFF
        &&& self.patt_pth_offset <= 0xFFFF_FFFF
        &&& self.instr_offset <= 0xFFFF_FFFF
        &&& self.fx_v1_offset <= 0xFFFF_FFFF
        &&& self.song_list_qty <= 256
        &&& self.song_track_qty <= 16
        &&& self.patt_qty <= 4096
        &&& self.instr_qty <= 4096
        &&& self.fx_v1_qty <= 4096
    }

    /// Read the image byte mapped to memory address `addr`.
    fn song_byte(&self, addr: u64) -> (r: u8)
        requires
            self.song@.len() <= 0xFFFF_FFFF,
            self.load_adress <= 0xFFFF_FFFF,
            addr <= 0xFFFF_FFFF_FFFF,
        ensures
            r == spec_song_byte(self.song@, self.load_adress as int, addr as int),
    {
        let t = 126u64 + addr;
        if t < self.load_adress as u64 {
            0
        } else {
            let idx = t - self.load_adress as u64;
            if idx < self.song.len() as u64 {
                self.song[idx as usize]
            } else {
                0
            }
        }
    }

    /// Walk the dump's tables into a song module: song lists, channel
    /// track lists, pattern tracks, instruments and sound effects. Walks
    /// that leave the image read zeros, and unterminated lists stop at
    /// the end of the image, so any image is accepted.
    pub fn to_sidmodule(&self) -> (r: SidModule)
        requires
            self.wf(),
        ensures
            r.pattern_helper.version == self.version,
            r.pattern_helper.songs@.len() == self.song_list_qty,
            r.pattern_helper.channels@.len() == self.song_list_qty * self.song_track_qty,
            r.pattern_helper.tracks@.len() == self.patt_qty,
            r.instruments@.len() == self.instr_qty,
            forall|i: int| 0 <= i < r.instruments@.len() ==> (#[trigger] r.instruments@[i]).wf(),
            r.soundfx@.len() == self.fx_v1_qty,
            r.sid.name@ == self.name@,
            r.sid.copyright@ == self.copyright@,
            r.sid.author@ == self.author@,
            r.sid.resetspd == self.resetspd,
    {
        // song lists: one track-list pointer per voice per song
        let mut channels_ptr: Vec<usize> = Vec::new();
        let mut i: usize = 0;
        while i < self.song_list_qty
            invariant
                self.wf(),
                i <= self.song_list_qty,
                channels_ptr@.len() == i * self.song_track_qty,
                forall|k: int| 0 <= k < channels_ptr@.len() ==> (#[trigger] channels_ptr@[k]) <= 0xFFFF,
            decreases self.song_list_qty - i,
        {
            proof {
                assert((i as u64) * 2 * (self.song_track_qty as u64) <= 256 * 2 * 16) by (
                nonlinear_arith)
                    requires
                        i <= 256,
                        self.song_track_qty <= 16,
                ;
            }
            let offset: u64 = self.song_list_offset as u64 + (i as u64) * 2 * (self.song_track_qty
                as u64);
            let mut j: usize = 0;
            while j < self.song_track_qty
                invariant
                    self.wf(),
                    i < self.song_list_qty,
                    j <= self.song_track_qty,
                    offset <= 0xFFFF_FFFF + 2 * 256 * 16,
                    channels_ptr@.len() == i * self.song_track_qty + j,
                    forall|k: int|
                        0 <= k < channels_ptr@.len() ==> (#[trigger] channels_ptr@[k]) <= 0xFFFF,
                decreases self.song_track_qty - j,
            {
                let lo = self.song_byte(offset + j as u64) as usize;
                let hi = self.song_byte(offset + j as u64 + self.song_track_qty as u64) as usize;
                channels_ptr.push(lo + 256 * hi);
                j = j + 1;
            }
            proof {
                assert((i + 1) * self.song_track_qty == i * self.song_track_qty
                    + self.song_track_qty) by (nonlinear_arith);
            }
            i = i + 1;
        }
        proof {
            assert(channels_ptr@.len() == self.song_list_qty * self.song_track_qty);
        }
        let n_chan = channels_ptr.len();
        // channel track lists: bytes up to the first high-bit terminator
        let mut channels: Vec<Vec<u8>> = Vec::new();
        let mut c: usize = 0;
        while c < n_chan
            invariant
                self.wf(),
                n_chan == channels_ptr@.len(),
                c <= n_chan,
                channels@.len() == c,
                forall|k: int| 0 <= k < n_chan ==> (#[trigger] channels_ptr@[k]) <= 0xFFFF + 256 * 0xFF,
            decreases n_chan - c,
        {
            let base = channels_ptr[c] as u64;
            let mut tracks_of: Vec<u8> = Vec::new();
            let mut j: u64 = 0;
            let bound: u64 = self.song.len() as u64 + 1;
            while j < bound && self.song_byte(base + j) & 0x80 == 0
                invariant
                    self.wf(),
                    base <= 0x1_0000 + 256 * 0xFF,
                    bound == self.song@.len() + 1,
                    j <= bound,
                decreases bound - j,
            {
                tracks_of.push(self.song_byte(base + j));
                j = j + 1;
            }
            channels.push(tracks_of);
            c = c + 1;
        }
        // songs: indices of each voice's track list among the channels
        let mut songs: Vec<Vec<usize>> = Vec::new();
        let mut si: usize = 0;
        while si < self.song_list_qty
            invariant
                self.wf(),
                n_chan == channels_ptr@.len(),
                n_chan == self.song_list_qty * self.song_track_qty,
                channels@.len() == n_chan,
                si <= self.song_list_qty,
                songs@.len() == si,
            decreases self.song_list_qty - si,
        {
            let mut s: Vec<usize> = Vec::new();
            let mut j: usize = 0;
            while j < self.song_track_qty
                invariant
                    self.wf(),
                    n_chan == channels_ptr@.len(),
                    n_chan == self.song_list_qty * self.song_track_qty,
                    si < self.song_list_qty,
                    j <= self.song_track_qty,
                decreases self.song_track_qty - j,
            {
                proof {
                    assert(si * self.song_track_qty + j < n_chan) by (nonlinear_arith)
                        requires
                            si < self.song_list_qty,
                            j < self.song_track_qty,
                            n_chan == self.song_list_qty * self.song_track_qty,
                    ;
                }
                let k = channels_ptr[si * self.song_track_qty + j];
                let mut index: usize = 0;
                let mut found: usize = 0;
                while index < n_chan
                    invariant
                        n_chan == channels_ptr@.len(),
                        index <= n_chan,
                        found < n_chan || found == 0,
                    decreases n_chan - index,
                {
                    if channels_ptr[index] == k {
                        found = index;
                        break ;
                    }
                    index = index + 1;
                }
                s.push(found);
                j = j + 1;
            }
            songs.push(s);
            si = si + 1;
        }
        // pattern tracks: bytes up to and including the 0xFF terminator
        let mut tracks: Vec<Vec<u8>> = Vec::new();
        let mut t: usize = 0;
        while t < self.patt_qty
            invariant
                self.wf(),
                t <= self.patt_qty,
                tracks@.len() == t,
            decreases self.patt_qty - t,
        {
            let lo = self.song_byte(self.patt_ptl_offset as u64 + t as u64) as u64;
            let hi = self.song_byte(self.patt_pth_offset as u64 + t as u64) as u64;
            let base: u64 = lo + 256 * hi;
            let mut track: Vec<u8> = Vec::new();
            let mut j: u64 = 0;
            let bound: u64 = self.song.len() as u64 + 1;
            while j < bound
                invariant
                    self.wf(),
                    base <= 0xFFFF,
                    bound == self.song@.len() + 1,
                    j <= bound,
                decreases bound - j,
            {
                let b = self.song_byte(base + j);
                track.push(b);
                if b == 0xFF {
                    break ;
                }
                j = j + 1;
            }
            tracks.push(track);
            t = t + 1;
        }
        // instruments: 8 bytes each
        let mut instruments: Vec<InstrRobSid> = Vec::new();
        let mut q: usize = 0;
        while q < self.instr_qty
            invariant
                self.wf(),
                q <= self.instr_qty,
                instruments@.len() == q,
                forall|k: int| 0 <= k < q ==> (#[trigger] instruments@[k]).wf(),
            decreases self.instr_qty - q,
        {
            proof {
                assert((q as u64) * 8 <= 4096 * 8) by (nonlinear_arith)
                    requires
                        q <= 4096,
                ;
            }
            let start: u64 = self.instr_offset as u64 + (q as u64) * 8;
            let mut voice = SidVoice::default();
            voice.pw = self.song_byte(start) as u16 + 256 * (self.song_byte(start + 1) as u16);
            voice.update_from_ctrl_register(self.song_byte(start + 2));
            voice.ad = self.song_byte(start + 3);
            voice.sr = self.song_byte(start + 4);
            let mut isid = InstrSid::default();
            isid.voice.set(0, voice);
            let mut re = RobEffects::default();
            let b5 = self.song_byte(start + 5);
            if self.version == 10 {
                re.vibrato_depth = b5.wrapping_mul(4);
                re.vibrato_div = 7;
            } else {
                re.vibrato_depth = (b5 & 0b0111_1000) / 8;
                re.vibrato_div = b5 & 0b0000_0111;
            }
            if re.vibrato_depth != 0 {
                re.vibrato = true;
            }
            let mask_lo: u8 = if self.version == 15 {
                0b0000_1111
            } else {
                0b0001_1111
            };
            let mask_hi: u8 = if self.version == 15 {
                0b1111_0000
            } else {
                0b1110_0000
            };
            let b6 = self.song_byte(start + 6);
            re.pw_delay = (b6 & mask_lo) as u16;
            re.pw_speed = (b6 & mask_hi) as i8;
            let b7 = self.song_byte(start + 7);
            if b7 & 0b0000_0001 != 0 {
                re.drum = true;
            }
            if b7 & 0b0000_0010 != 0 {
                re.skydive = true;
            }
            if b7 & 0b0000_0100 != 0 {
                re.arpeggio = true;
            }
            re.skydive_config_if = self.skydive_v1_when as u8;
            re.skydive_config_add = self.skydive_v1_add as u8;
            let mut irsid = InstrRobSid::default();
            irsid.sid = isid;
            irsid.fx.set(0, re);
            instruments.push(irsid);
            q = q + 1;
        }
        // sound effects: 16 bytes each
        let mut sfxs: Vec<SoundFx> = Vec::new();
        let mut f: usize = 0;
        while f < self.fx_v1_qty
            invariant
                self.wf(),
                f <= self.fx_v1_qty,
                sfxs@.len() == f,
            decreases self.fx_v1_qty - f,
        {
            proof {
                assert((f as u64) * 16 <= 4096 * 16) by (nonlinear_arith)
                    requires
                        f <= 4096,
                ;
            }
            let start: u64 = self.fx_v1_offset as u64 + (f as u64) * 16;
            let b0 = self.song_byte(start);
            let incdec_start_at_end = b0 & 0b1000_0000 == 0;
            proof {
                let bb = b0;
                assert(bb & 0b0000_1111 <= 15) by (bit_vector);
            }
            let incdec_counter: i8 = if b0 & 0b0011_0000 == 0b0010_0000 {
                (b0 & 0b0000_1111) as i8
            } else {
                -((b0 & 0b0000_1111) as i8)
            };
            let note_start = self.song_byte(start + 1);
            let b8 = self.song_byte(start + 8);
            let b15 = self.song_byte(start + 15);
            let note_delta = b8 & 0b0011_1111;
            let note_end = b15 & 0b0011_1111;
            let flipflop_voice1_ctrl = (b8 as u16 + 256 * (self.song_byte(start + 9) as u16))
                & 0b0100_0000 != 0;
            let voice0_ctrl = b15 & 0b1000_0000 != 0;
            let voice1_ctrl = b15 & 0b0100_0000 != 0;
            let mut voice0 = SidVoice::default();
            voice0.pw = self.song_byte(start + 3) as u16 + 256 * (self.song_byte(start + 4)
                as u16);
            voice0.update_from_ctrl_register(self.song_byte(start + 5));
            voice0.ad = self.song_byte(start + 6);
            voice0.sr = self.song_byte(start + 7);
            let mut voice1 = SidVoice::default();
            voice1.pw = self.song_byte(start + 10) as u16 + 256 * (self.song_byte(start + 11)
                as u16);
            voice0.update_from_ctrl_register(self.song_byte(start + 12));
            voice1.ad = self.song_byte(start + 13);
            voice1.sr = self.song_byte(start + 14);
            let sfx = SoundFx {
                incdec_start_at_end,
                incdec_counter,
                note_start,
                note_delta,
                note_end,
                flipflop_voice1_ctrl,
                voice0_ctrl,
                voice1_ctrl,
                voice0,
                voice1,
            };
            sfxs.push(sfx);
            f = f + 1;
        }
        SidModule {
            sid: self.duplicate(),
            pattern_helper: PatternHelper::new(self.version, songs, channels, tracks),
            instruments,
            soundfx: sfxs,
        }
    }

    /// A field-for-field copy of this record.
    pub fn duplicate(&self) -> (r: OneSid)
        ensures
            r.song@ == self.song@,
            r.name@ == self.name@,
            r.author@ == self.author@,
            r.copyright@ == self.copyright@,
            r.version == self.version,
            r.load_adress == self.load_adress,
            r.resetspd == self.resetspd,
    {
        let song = self.song.clone();
        assert(song@ =~= self.song@);
        OneSid {
            song,
            name: crate::fixedstr::clone_string(&self.name),
            author: crate::fixedstr::clone_string(&self.author),
            copyright: crate::fixedstr::clone_string(&self.copyright),
            version: self.version,
            load_adress: self.load_adress,
            song_track_qty: self.song_track_qty,
            song_list_offset: self.song_list_offset,
            song_list_qty: self.song_list_qty,
            patt_ptl_offset: self.patt_ptl_offset,
            patt_pth_offset: self.patt_pth_offset,
            patt_qty: self.patt_qty,
            instr_offset: self.instr_offset,
            instr_qty: self.instr_qty,
            fx_v1_offset: self.fx_v1_offset,
            fx_v1_qty: self.fx_v1_qty,
            fx_v2_offset: self.fx_v2_offset,
            fx_v2_qty: self.fx_v2_qty,
            resetspd: self.resetspd,
            skydive_v1_when: self.skydive_v1_when,
            skydive_v1_add: self.skydive_v1_add,
        }
    }
}

impl OneSid {
    /// The hand-identified offsets of "Commando", over a caller-supplied
    /// player image.
    pub fn get_sid_commando(song: Vec<u8>) -> (r: OneSid)
        requires
            song@.len() <= 0xFFFF_FFFF,
        ensures
            r.wf(),
            r.song@ == song@,
            r.name@ == "Commando"@,
            r.author@ == "Rob Hubbard"@,
            r.copyright@ == "1985 Elite"@,
            r.version == 10,
            r.load_adress == 0x5000,
            r.song_track_qty == 3,
            r.song_list_offset == 0x56ff,
            r.song_list_qty == 3,
            r.patt_ptl_offset == 0x5711,
            r.patt_pth_offset == 0x573e,
            r.patt_qty == 45,
            r.instr_offset == 0x5591,
            r.instr_qty == 13,
            r.fx_v1_offset == 0x55f9,
            r.fx_v1_qty == 16,
            r.resetspd == 2,
    {
        OneSid {
            song,
            name: String::from_str("Commando"),
            author: String::from_str("Rob Hubbard"),
            copyright: String::from_str("1985 Elite"),
            version: 10,
            load_adress: 0x5000,
            song_track_qty: 3,
            song_list_offset: 0x56ff,
            song_list_qty: 3,
            patt_ptl_offset: 0x5711,
            patt_pth_offset: 0x573e,
            patt_qty: 45,
            instr_offset: 0x5591,
            instr_qty: 13,
            fx_v1_offset: 0x55f9,
            fx_v1_qty: 16,
            fx_v2_offset: 0x0,
            fx_v2_qty: 0,
            resetspd: 2,
            skydive_v1_when: 2,
            skydive_v1_add: 512,
        }
    }

    /// The hand-identified offsets of "Crazy Comets", over a caller-supplied
    /// player image.
    pub fn get_sid_crazy_comets(song: Vec<u8>) -> (r: OneSid)
        requires
            song@.len() <= 0xFFFF_FFFF,
        ensures
            r.wf(),
            r.song@ == song@,
            r.name@ == "Crazy Comets"@,
            r.author@ == "Rob Hubbard"@,
            r.copyright@ == "1985 Martech"@,
            r.version == 10,
            r.load_adress == 0x5000,
            r.song_track_qty == 3,
            r.song_list_offset == 0x5732,
            r.song_list_qty == 2,
            r.patt_ptl_offset == 0x573e,
            r.patt_pth_offset == 0x5773,
            r.patt_qty == 53,
            r.instr_offset == 0x5574,
            r.instr_qty == 23,
            r.fx_v1_offset == 0x562c,
            r.fx_v1_qty == 1,
            r.resetspd == 2,
    {
        OneSid {
            song,
            name: String::from_str("Crazy Comets"),
            author: String::from_str("Rob Hubbard"),
            copyright: String::from_str("1985 Martech"),
            version: 10,
            load_adress: 0x5000,
            song_track_qty: 3,
            song_list_offset: 0x5732,
            song_list_qty: 2,
            patt_ptl_offset: 0x573e,
            patt_pth_offset: 0x5773,
            patt_qty: 53,
            instr_offset: 0x5574,
            instr_qty: 23,
            fx_v1_offset: 0x562c,
            fx_v1_qty: 1,
            fx_v2_offset: 0x0,
            fx_v2_qty: 0,
            resetspd: 2,
            skydive_v1_when: 16,
            skydive_v1_add: -256,
        }
    }

    /// The hand-identified offsets of "The Last V8", over a caller-supplied
    /// player image.
    pub fn get_sid_last_v8(song: Vec<u8>) -> (r: OneSid)
        requires
            song@.len() <= 0xFFFF_FFFF,
        ensures
            r.wf(),
            r.song@ == song@,
            r.name@ == "The Last V8"@,
            r.author@ == "Rob Hubbard"@,
            r.copyright@ == "1985 MAD/Mastertronic"@,
            r.version == 10,
            r.load_adress == 0x8010,
            r.song_track_qty == 3,
            r.song_list_offset == 0x8797,
            r.song_list_qty == 3,
            r.patt_ptl_offset == 0x87a9,
            r.patt_pth_offset == 0x87c6,
            r.patt_qty == 28,
            r.instr_offset == 0x85a1,
            r.instr_qty == 19,
            r.fx_v1_offset == 0x8699,
            r.fx_v1_qty == 12,
            r.resetspd == 1,
    {
        OneSid {
            song,
            name: String::from_str("The Last V8"),
            author: String::from_str("Rob Hubbard"),
            copyright: String::from_str("1985 MAD/Mastertronic"),
            version: 10,
            load_adress: 0x8010,
            song_track_qty: 3,
            song_list_offset: 0x8797,
            song_list_qty: 3,
            patt_ptl_offset: 0x87a9,
            patt_pth_offset: 0x87c6,
            patt_qty: 28,
            instr_offset: 0x85a1,
            instr_qty: 19,
            fx_v1_offset: 0x8699,
            fx_v1_qty: 12,
            fx_v2_offset: 0x0,
            fx_v2_qty: 0,
            resetspd: 1,
            skydive_v1_when: 0,
            skydive_v1_add: -256,
        }
    }

    /// The hand-identified offsets of "Monty on the Run", over a caller-supplied
    /// player image.
    pub fn get_sid_monty_on_the_run(song: Vec<u8>) -> (r: OneSid)
        requires
            song@.len() <= 0xFFFF_FFFF,
        ensures
            r.wf(),
            r.song@ == song@,
            r.name@ == "Monty on the Run"@,
            r.author@ == "Rob Hubbard"@,
            r.copyright@ == "1985 Gremlin Graphics"@,
            r.version == 10,
            r.load_adress == 0x8000,
            r.song_track_qty == 3,
            r.song_list_offset == 0x856c,
            r.song_list_qty == 3,
            r.patt_ptl_offset == 0x857e,
            r.patt_pth_offset == 0x85cb,
            r.patt_qty == 77,
            r.instr_offset == 0x93b4,
            r.instr_qty == 20,
            r.fx_v1_offset == 0x9454,
            r.fx_v1_qty == 16,
            r.resetspd == 1,
    {
        OneSid {
            song,
            name: String::from_str("Monty on the Run"),
            author: String::from_str("Rob Hubbard"),
            copyright: String::from_str("1985 Gremlin Graphics"),
            version: 10,
            load_adress: 0x8000,
            song_track_qty: 3,
            song_list_offset: 0x856c,
            song_list_qty: 3,
            patt_ptl_offset: 0x857e,
            patt_pth_offset: 0x85cb,
            patt_qty: 77,
            instr_offset: 0x93b4,
            instr_qty: 20,
            fx_v1_offset: 0x9454,
            fx_v1_qty: 16,
            fx_v2_offset: 0x0,
            fx_v2_qty: 0,
            resetspd: 1,
            skydive_v1_when: 0,
            skydive_v1_add: -256,
        }
    }

    /// The hand-identified offsets of "Thing on a Spring", over a caller-supplied
    /// player image.
    pub fn get_sid_thing_on_a_spring(song: Vec<u8>) -> (r: OneSid)
        requires
            song@.len() <= 0xFFFF_FFFF,
        ensures
            r.wf(),
            r.song@ == song@,
            r.name@ == "Thing on a Spring"@,
            r.author@ == "Rob Hubbard"@,
            r.copyright@ == "1985 Gremlin Graphics"@,
            r.version == 10,
            r.load_adress == 0xc000,
            r.song_track_qty == 3,
            r.song_list_offset == 0xc509,
            r.song_list_qty == 1,
            r.patt_ptl_offset == 0xc50f,
            r.patt_pth_offset == 0xc533,
            r.patt_qty == 36,
            r.instr_offset == 0xcd2a,
            r.instr_qty == 45,
            r.fx_v1_offset == 0xce92,
            r.fx_v1_qty == 1,
            r.resetspd == 1,
    {
        OneSid {
            song,
            name: String::from_str("Thing on a Spring"),
            author: String::from_str("Rob Hubbard"),
            copyright: String::from_str("1985 Gremlin Graphics"),
            version: 10,
            load_adress: 0xc000,
            song_track_qty: 3,
            song_list_offset: 0xc509,
            song_list_qty: 1,
            patt_ptl_offset: 0xc50f,
            patt_pth_offset: 0xc533,
            patt_qty: 36,
            instr_offset: 0xcd2a,
            instr_qty: 45,
            fx_v1_offset: 0xce92,
            fx_v1_qty: 1,
            fx_v2_offset: 0x0,
            fx_v2_qty: 0,
            resetspd: 1,
            skydive_v1_when: 0,
            skydive_v1_add: 0,
        }
    }

    /// The hand-identified offsets of "Zoids", over a caller-supplied
    /// player image.
    pub fn get_sid_zoid(song: Vec<u8>) -> (r: OneSid)
        requires
            song@.len() <= 0xFFFF_FFFF,
        ensures
            r.wf(),
            r.song@ == song@,
            r.name@ == "Zoids"@,
            r.author@ == "Rob Hubbard"@,
            r.copyright@ == "1986 Martech"@,
            r.version == 10,
            r.load_adress == 0x1000,
            r.song_track_qty == 3,
            r.song_list_offset == 0x14fc,
            r.song_list_qty == 3,
            r.patt_ptl_offset == 0x150e,
            r.patt_pth_offset == 0x152d,
            r.patt_qty == 31,
            r.instr_offset == 0x147e,
            r.instr_qty == 15,
            r.fx_v1_offset == 0x0,
            r.fx_v1_qty == 0,
            r.resetspd == 1,
    {
        OneSid {
            song,
            name: String::from_str("Zoids"),
            author: String::from_str("Rob Hubbard"),
            copyright: String::from_str("1986 Martech"),
            version: 10,
            load_adress: 0x1000,
            song_track_qty: 3,
            song_list_offset: 0x14fc,
            song_list_qty: 3,
            patt_ptl_offset: 0x150e,
            patt_pth_offset: 0x152d,
            patt_qty: 31,
            instr_offset: 0x147e,
            instr_qty: 15,
            fx_v1_offset: 0x0,
            fx_v1_qty: 0,
            fx_v2_offset: 0x0,
            fx_v2_qty: 0,
            resetspd: 1,
            skydive_v1_when: 0,
            skydive_v1_add: 0,
        }
    }

    /// The hand-identified offsets of "ACE II", over a caller-supplied
    /// player image.
    pub fn get_sid_ace_2(song: Vec<u8>) -> (r: OneSid)
        requires
            song@.len() <= 0xFFFF_FFFF,
        ensures
            r.wf(),
            r.song@ == song@,
            r.name@ == "ACE II"@,
            r.author@ == "Rob Hubbard"@,
            r.copyright@ == "1987 Arcade"@,
            r.version == 20,
            r.load_adress == 0xe000,
            r.song_track_qty == 3,
            r.song_list_offset == 0xe67c,
            r.song_list_qty == 1,
            r.patt_ptl_offset == 0xe682,
            r.patt_pth_offset == 0xe6a8,
            r.patt_qty == 38,
            r.instr_offset == 0xe5cb,
            r.instr_qty == 10,
            r.fx_v1_offset == 0x0,
            r.fx_v1_qty == 0,
            r.resetspd == 1,
    {
        OneSid {
            song,
            name: String::from_str("ACE II"),
            author: String::from_str("Rob Hubbard"),
            copyright: String::from_str("1987 Arcade"),
            version: 20,
            load_adress: 0xe000,
            song_track_qty: 3,
            song_list_offset: 0xe67c,
            song_list_qty: 1,
            patt_ptl_offset: 0xe682,
            patt_pth_offset: 0xe6a8,
            patt_qty: 38,
            instr_offset: 0xe5cb,
            instr_qty: 10,
            fx_v1_offset: 0x0,
            fx_v1_qty: 0,
            fx_v2_offset: 0x0,
            fx_v2_qty: 0,
            resetspd: 1,
            skydive_v1_when: 0,
            skydive_v1_add: 0,
        }
    }

    /// The hand-identified offsets of "Delta", over a caller-supplied
    /// player image.
    pub fn get_sid_delta(song: Vec<u8>) -> (r: OneSid)
        requires
            song@.len() <= 0xFFFF_FFFF,
        ensures
            r.wf(),
            r.song@ == song@,
            r.name@ == "Delta"@,
            r.author@ == "Rob Hubbard"@,
            r.copyright@ == "1987 Thalamus"@,
            r.version == 30,
            r.load_adress == 0xbc00,
            r.song_track_qty == 3,
            r.song_list_offset == 0xc4f4,
            r.song_list_qty == 13,
            r.patt_ptl_offset == 0xc542,
            r.patt_pth_offset == 0xc5af,
            r.patt_qty == 109,
            r.instr_offset == 0xc38e,
            r.instr_qty == 22,
            r.fx_v1_offset == 0x0,
            r.fx_v1_qty == 0,
            r.resetspd == 1,
    {
        OneSid {
            song,
            name: String::from_str("Delta"),
            author: String::from_str("Rob Hubbard"),
            copyright: String::from_str("1987 Thalamus"),
            version: 30,
            load_adress: 0xbc00,
            song_track_qty: 3,
            song_list_offset: 0xc4f4,
            song_list_qty: 13,
            patt_ptl_offset: 0xc542,
            patt_pth_offset: 0xc5af,
            patt_qty: 109,
            instr_offset: 0xc38e,
            instr_qty: 22,
            fx_v1_offset: 0x0,
            fx_v1_qty: 0,
            fx_v2_offset: 0xc43e,
            fx_v2_qty: 22,
            resetspd: 1,
            skydive_v1_when: 0,
            skydive_v1_add: 0,
        }
    }

    /// The hand-identified offsets of "The Human Race", over a caller-supplied
    /// player image.
    pub fn get_sid_human_race(song: Vec<u8>) -> (r: OneSid)
        requires
            song@.len() <= 0xFFFF_FFFF,
        ensures
            r.wf(),
            r.song@ == song@,
            r.name@ == "The Human Race"@,
            r.author@ == "Rob Hubbard"@,
            r.copyright@ == "1985 Mastertronic"@,
            r.version == 20,
            r.load_adress == 0x980,
            r.song_track_qty == 2,
            r.song_list_offset == 0xe9f,
            r.song_list_qty == 3,
            r.patt_ptl_offset == 0xeb3,
            r.patt_pth_offset == 0xf02,
            r.patt_qty == 58,
            r.instr_offset == 0xde3,
            r.instr_qty == 23,
            r.fx_v1_offset == 0x0,
            r.fx_v1_qty == 0,
            r.resetspd == 3,
    {
        OneSid {
            song,
            name: String::from_str("The Human Race"),
            author: String::from_str("Rob Hubbard"),
            copyright: String::from_str("1985 Mastertronic"),
            version: 20,
            load_adress: 0x980,
            song_track_qty: 2,
            song_list_offset: 0xe9f,
            song_list_qty: 3,
            patt_ptl_offset: 0xeb3,
            patt_pth_offset: 0xf02,
            patt_qty: 58,
            instr_offset: 0xde3,
            instr_qty: 23,
            fx_v1_offset: 0x0,
            fx_v1_qty: 0,
            fx_v2_offset: 0x0,
            fx_v2_qty: 0,
            resetspd: 3,
            skydive_v1_when: 0,
            skydive_v1_add: -256,
        }
    }

    /// The hand-identified offsets of "International Karate", over a caller-supplied
    /// player image.
    pub fn get_sid_international_karate(song: Vec<u8>) -> (r: OneSid)
        requires
            song@.len() <= 0xFFFF_FFFF,
        ensures
            r.wf(),
            r.song@ == song@,
            r.name@ == "International Karate"@,
            r.author@ == "Rob Hubbard"@,
            r.copyright@ == "1986 System 3"@,
            r.version == 20,
            r.load_adress == 0xae00,
            r.song_track_qty == 3,
            r.song_list_offset == 0xb3b0,
            r.song_list_qty == 1,
            r.patt_ptl_offset == 0xb3b6,
            r.patt_pth_offset == 0xb3eb,
            r.patt_qty == 53,
            r.instr_offset == 0xb308,
            r.instr_qty == 20,
            r.fx_v1_offset == 0x0,
            r.fx_v1_qty == 0,
            r.resetspd == 2,
    {
        OneSid {
            song,
            name: String::from_str("International Karate"),
            author: String::from_str("Rob Hubbard"),
            copyright: String::from_str("1986 System 3"),
            version: 20,
            load_adress: 0xae00,
            song_track_qty: 3,
            song_list_offset: 0xb3b0,
            song_list_qty: 1,
            patt_ptl_offset: 0xb3b6,
            patt_pth_offset: 0xb3eb,
            patt_qty: 53,
            instr_offset: 0xb308,
            instr_qty: 20,
            fx_v1_offset: 0x0,
            fx_v1_qty: 0,
            fx_v2_offset: 0x0,
            fx_v2_qty: 0,
            resetspd: 2,
            skydive_v1_when: 0,
            skydive_v1_add: 0,
        }
    }

    /// The hand-identified offsets of "Lightforce", over a caller-supplied
    /// player image.
    pub fn get_sid_lightforce(song: Vec<u8>) -> (r: OneSid)
        requires
            song@.len() <= 0xFFFF_FFFF,
        ensures
            r.wf(),
            r.song@ == song@,
            r.name@ == "Lightforce"@,
            r.author@ == "Rob Hubbard"@,
            r.copyright@ == "1986 Faster Than Light (FTL)"@,
            r.version == 20,
            r.load_adress == 0xf000,
            r.song_track_qty == 3,
            r.song_list_offset == 0xf778,
            r.song_list_qty == 1,
            r.patt_ptl_offset == 0xf77e,
            r.patt_pth_offset == 0xf79d,
            r.patt_qty == 31,
            r.instr_offset == 0xf618,
            r.instr_qty == 22,
            r.fx_v1_offset == 0x0,
            r.fx_v1_qty == 0,
            r.resetspd == 2,
    {
        OneSid {
            song,
            name: String::from_str("Lightforce"),
            author: String::from_str("Rob Hubbard"),
            copyright: String::from_str("1986 Faster Than Light (FTL)"),
            version: 20,
            load_adress: 0xf000,
            song_track_qty: 3,
            song_list_offset: 0xf778,
            song_list_qty: 1,
            patt_ptl_offset: 0xf77e,
            patt_pth_offset: 0xf79d,
            patt_qty: 31,
            instr_offset: 0xf618,
            instr_qty: 22,
            fx_v1_offset: 0x0,
            fx_v1_qty: 0,
            fx_v2_offset: 0xf6c8,
            fx_v2_qty: 22,
            resetspd: 2,
            skydive_v1_when: 0,
            skydive_v1_add: 0,
        }
    }

    /// The hand-identified offsets of "Sanxion Song 1", over a caller-supplied
    /// player image.
    pub fn get_sid_sanxion_song_1(song: Vec<u8>) -> (r: OneSid)
        requires
            song@.len() <= 0xFFFF_FFFF,
        ensures
            r.wf(),
            r.song@ == song@,
            r.name@ == "Sanxion Song 1"@,
            r.author@ == "Rob Hubbard"@,
            r.copyright@ == "1986 Thalamus"@,
            r.version == 20,
            r.load_adress == 0xb000,
            r.song_track_qty == 3,
            r.song_list_offset == 0xb73c,
            r.song_list_qty == 1,
            r.patt_ptl_offset == 0xb742,
            r.patt_pth_offset == 0xb75d,
            r.patt_qty == 27,
            r.instr_offset == 0xb56c,
            r.instr_qty == 29,
            r.fx_v1_offset == 0x0,
            r.fx_v1_qty == 0,
            r.resetspd == 2,
    {
        OneSid {
            song,
            name: String::from_str("Sanxion Song 1"),
            author: String::from_str("Rob Hubbard"),
            copyright: String::from_str("1986 Thalamus"),
            version: 20,
            load_adress: 0xb000,
            song_track_qty: 3,
            song_list_offset: 0xb73c,
            song_list_qty: 1,
            patt_ptl_offset: 0xb742,
            patt_pth_offset: 0xb75d,
            patt_qty: 27,
            instr_offset: 0xb56c,
            instr_qty: 29,
            fx_v1_offset: 0x0,
            fx_v1_qty: 0,
            fx_v2_offset: 0xb654,
            fx_v2_qty: 29,
            resetspd: 2,
            skydive_v1_when: 0,
            skydive_v1_add: 0,
        }
    }

    /// The hand-identified offsets of "Sanxion Song 2", over a caller-supplied
    /// player image.
    pub fn get_sid_sanxion_song_2(song: Vec<u8>) -> (r: OneSid)
        requires
            song@.len() <= 0xFFFF_FFFF,
        ensures
            r.wf(),
            r.song@ == song@,
            r.name@ == "Sanxion Song 2"@,
            r.author@ == "Rob Hubbard"@,
            r.copyright@ == "1986 Thalamus"@,
            r.version == 20,
            r.load_adress == 0xb000,
            r.song_track_qty == 3,
            r.song_list_offset == 0xc5f5,
            r.song_list_qty == 1,
            r.patt_ptl_offset == 0xc5fb,
            r.patt_pth_offset == 0xc633,
            r.patt_qty == 56,
            r.instr_offset == 0xc4b5,
            r.instr_qty == 20,
            r.fx_v1_offset == 0x0,
            r.fx_v1_qty == 0,
            r.resetspd == 2,
    {
        OneSid {
            song,
            name: String::from_str("Sanxion Song 2"),
            author: String::from_str("Rob Hubbard"),
            copyright: String::from_str("1986 Thalamus"),
            version: 20,
            load_adress: 0xb000,
            song_track_qty: 3,
            song_list_offset: 0xc5f5,
            song_list_qty: 1,
            patt_ptl_offset: 0xc5fb,
            patt_pth_offset: 0xc633,
            patt_qty: 56,
            instr_offset: 0xc4b5,
            instr_qty: 20,
            fx_v1_offset: 0x0,
            fx_v1_qty: 0,
            fx_v2_offset: 0xc5f5,
            fx_v2_qty: 20,
            resetspd: 2,
            skydive_v1_when: 0,
            skydive_v1_add: 0,
        }
    }

    /// The hand-identified offsets of "Spellbound", over a caller-supplied
    /// player image.
    pub fn get_sid_spellbound(song: Vec<u8>) -> (r: OneSid)
        requires
            song@.len() <= 0xFFFF_FFFF,
        ensures
            r.wf(),
            r.song@ == song@,
            r.name@ == "Spellbound"@,
            r.author@ == "Rob Hubbard"@,
            r.copyright@ == "1986 MAD/Mastertronic"@,
            r.version == 15,
            r.load_adress == 0xe000,
            r.song_track_qty == 3,
            r.song_list_offset == 0xe6b6,
            r.song_list_qty == 3,
            r.patt_ptl_offset == 0xe6c8,
            r.patt_pth_offset == 0xe6f2,
            r.patt_qty == 42,
            r.instr_offset == 0xe548,
            r.instr_qty == 25,
            r.fx_v1_offset == 0xe610,
            r.fx_v1_qty == 16,
            r.resetspd == 1,
    {
        OneSid {
            song,
            name: String::from_str("Spellbound"),
            author: String::from_str("Rob Hubbard"),
            copyright: String::from_str("1986 MAD/Mastertronic"),
            version: 15,
            load_adress: 0xe000,
            song_track_qty: 3,
            song_list_offset: 0xe6b6,
            song_list_qty: 3,
            patt_ptl_offset: 0xe6c8,
            patt_pth_offset: 0xe6f2,
            patt_qty: 42,
            instr_offset: 0xe548,
            instr_qty: 25,
            fx_v1_offset: 0xe610,
            fx_v1_qty: 16,
            fx_v2_offset: 0x0,
            fx_v2_qty: 0,
            resetspd: 1,
            skydive_v1_when: 0,
            skydive_v1_add: 256,
        }
    }

}

} // verus!
