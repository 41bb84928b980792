//! A whole extracted dump as songs of the unified representation.

use vstd::prelude::*;

use vstd::utf8::decode_utf8;
use vstd::utf8::valid_utf8;

use crate::fixedstr::push_decimal;
use crate::fixedstr::spec_decimal_bytes;
use crate::fixedstr::string_from_utf8_checked;
use crate::instr_robsid::InstrRobSid;
use crate::module::Module;
use crate::period_helper::FrequencyType;
use vstd::string::StrSliceExecFns;
use vstd::utf8::encode_utf8;

use super::instr_helper::InstrHelper;
use super::one_sid::OneSid;
use super::pattern_helper::PatternHelper;
use super::sound_fx::SoundFx;

verus! {

/// One dump with its decoded song structure, instruments and sound
/// effects.
#[derive(Clone, Debug, PartialEq)]
pub struct SidModule {
    /// The dump and its offsets.
    pub sid: OneSid,
    /// The decoded song structure.
    pub pattern_helper: PatternHelper,
    /// The decoded instruments.
    pub instruments: Vec<InstrRobSid>,
    /// The decoded sound effects.
    pub soundfx: Vec<SoundFx>,
}

/// The bytes of a song title: the dump's name, a space, and the song
/// number in decimal.
pub open spec fn spec_titled_bytes(name: Seq<char>, n: int) -> Seq<u8> {
    encode_utf8(name) + seq![0x20u8] + spec_decimal_bytes(n)
}

/// Build a numbered song title.
fn make_title(name: &String, n: u16) -> (r: String)
    ensures
        r@ == decode_utf8(spec_titled_bytes(name@, n as int)),
{
    let mut bytes: Vec<u8> = name.as_str().as_bytes_vec();
    let ghost enc = bytes@;
    bytes.push(0x20);
    push_decimal(&mut bytes, n);
    proof {
        crate::fixedstr::lemma_decimal_bytes_ascii(n as int);
        let tail = bytes@.skip(enc.len() as int);
        assert(bytes@ =~= enc + tail);
        assert(forall|i: int| 0 <= i < tail.len() ==> tail[i] < 0x80);
        crate::fixedstr::lemma_ascii_bytes_valid_utf8(tail);
        vstd::utf8::encode_utf8_valid_utf8(name@);
        vstd::utf8::valid_utf8_concat(enc, tail);
        assert(valid_utf8(bytes@));
        assert(bytes@ =~= spec_titled_bytes(name@, n as int));
    }
    string_from_utf8_checked(bytes)
}

impl SidModule {
    /// Convert every song of the dump to a module: one module per song,
    /// with the dump's patterns de-duplicated into a pattern order, and
    /// either the raw SID instruments or playable approximations.
    pub fn to_modules(&self, original_instruments: bool) -> (r: Vec<Module>)
        requires
            self.sid.resetspd < 65535,
            forall|i: int| 0 <= i < self.instruments@.len() ==> (#[trigger] self.instruments@[i]).wf(),
        ensures
            r@.len() == self.pattern_helper.songs@.len(),
            forall|i: int|
                0 <= i < r@.len() ==> {
                    &&& (#[trigger] r@[i]).default_tempo as int == 1 + self.sid.resetspd
                    &&& r@[i].frequency_type == FrequencyType::LinearFrequencies
                    &&& r@[i].instrument@.len() == self.instruments@.len()
                },
    {
        let mut modules: Vec<Module> = Vec::new();
        let n_songs = self.pattern_helper.songs.len();
        let mut song_number: usize = 0;
        while song_number < n_songs
            invariant
                n_songs == self.pattern_helper.songs@.len(),
                self.sid.resetspd < 65535,
                forall|i: int|
                    0 <= i < self.instruments@.len() ==> (#[trigger] self.instruments@[i]).wf(),
                song_number <= n_songs,
                modules@.len() == song_number,
                forall|i: int|
                    0 <= i < song_number ==> {
                        &&& (#[trigger] modules@[i]).default_tempo as int == 1 + self.sid.resetspd
                        &&& modules@[i].frequency_type == FrequencyType::LinearFrequencies
                        &&& modules@[i].instrument@.len() == self.instruments@.len()
                    },
            decreases n_songs - song_number,
        {
            let name = make_title(&self.sid.name, song_number as u16);
            let patterns0 = self.pattern_helper.get_patterns(song_number);
            let (patterns, order) = PatternHelper::cleanup_patterns(&patterns0);
            let mut pattern_order: Vec<usize> = Vec::new();
            let n_ord = order.len();
            let mut k: usize = 0;
            while k < n_ord
                invariant
                    n_ord == order@.len(),
                    k <= n_ord,
                    pattern_order@.len() == k,
                decreases n_ord - k,
            {
                pattern_order.push(order[k]);
                k = k + 1;
            }
            let idst = InstrHelper::irss_to_instruments(&self.instruments, original_instruments);
            let module = Module {
                name,
                comment: crate::fixedstr::clone_string(&self.sid.copyright),
                frequency_type: FrequencyType::LinearFrequencies,
                restart_position: 0,
                default_tempo: (1 + self.sid.resetspd) as u16,
                default_bpm: 125,
                pattern_order,
                pattern: patterns,
                instrument: idst,
            };
            modules.push(module);
            song_number = song_number + 1;
        }
        modules
    }
}

impl SidModule {
    /// Decode a caller-supplied player image of this title.
    pub fn get_sid_commando(song: Vec<u8>) -> (r: SidModule)
        requires
            song@.len() <= 0xFFFF_FFFF,
        ensures
            r.instruments@.len() > 0 ==> r.instruments@[0].wf(),
    {
        let sid = OneSid::get_sid_commando(song);
        sid.to_sidmodule()
    }

    /// Decode a caller-supplied player image of this title.
    pub fn get_sid_crazy_comets(song: Vec<u8>) -> (r: SidModule)
        requires
            song@.len() <= 0xFFFF_FFFF,
        ensures
            r.instruments@.len() > 0 ==> r.instruments@[0].wf(),
    {
        let sid = OneSid::get_sid_crazy_comets(song);
        sid.to_sidmodule()
    }

    /// Decode a caller-supplied player image of this title.
    pub fn get_sid_last_v8(song: Vec<u8>) -> (r: SidModule)
        requires
            song@.len() <= 0xFFFF_FFFF,
        ensures
            r.instruments@.len() > 0 ==> r.instruments@[0].wf(),
    {
        let sid = OneSid::get_sid_last_v8(song);
        sid.to_sidmodule()
    }

    /// Decode a caller-supplied player image of this title.
    pub fn get_sid_monty_on_the_run(song: Vec<u8>) -> (r: SidModule)
        requires
            song@.len() <= 0xFFFF_FFFF,
        ensures
            r.instruments@.len() > 0 ==> r.instruments@[0].wf(),
    {
        let sid = OneSid::get_sid_monty_on_the_run(song);
        sid.to_sidmodule()
    }

    /// Decode a caller-supplied player image of this title.
    pub fn get_sid_thing_on_a_spring(song: Vec<u8>) -> (r: SidModule)
        requires
            song@.len() <= 0xFFFF_FFFF,
        ensures
            r.instruments@.len() > 0 ==> r.instruments@[0].wf(),
    {
        let sid = OneSid::get_sid_thing_on_a_spring(song);
        sid.to_sidmodule()
    }

    /// Decode a caller-supplied player image of this title.
    pub fn get_sid_zoid(song: Vec<u8>) -> (r: SidModule)
        requires
            song@.len() <= 0xFFFF_FFFF,
        ensures
            r.instruments@.len() > 0 ==> r.instruments@[0].wf(),
    {
        let sid = OneSid::get_sid_zoid(song);
        sid.to_sidmodule()
    }

    /// Decode a caller-supplied player image of this title.
    pub fn get_sid_ace_2(song: Vec<u8>) -> (r: SidModule)
        requires
            song@.len() <= 0xFFFF_FFFF,
        ensures
            r.instruments@.len() > 0 ==> r.instruments@[0].wf(),
    {
        let sid = OneSid::get_sid_ace_2(song);
        sid.to_sidmodule()
    }

    /// Decode a caller-supplied player image of this title.
    pub fn get_sid_delta(song: Vec<u8>) -> (r: SidModule)
        requires
            song@.len() <= 0xFFFF_FFFF,
        ensures
            r.instruments@.len() > 0 ==> r.instruments@[0].wf(),
    {
        let sid = OneSid::get_sid_delta(song);
        sid.to_sidmodule()
    }

    /// Decode a caller-supplied player image of this title.
    pub fn get_sid_human_race(song: Vec<u8>) -> (r: SidModule)
        requires
            song@.len() <= 0xFFFF_FFFF,
        ensures
            r.instruments@.len() > 0 ==> r.instruments@[0].wf(),
    {
        let sid = OneSid::get_sid_human_race(song);
        sid.to_sidmodule()
    }

    /// Decode a caller-supplied player image of this title.
    pub fn get_sid_international_karate(song: Vec<u8>) -> (r: SidModule)
        requires
            song@.len() <= 0xFFFF_FFFF,
        ensures
            r.instruments@.len() > 0 ==> r.instruments@[0].wf(),
    {
        let sid = OneSid::get_sid_international_karate(song);
        sid.to_sidmodule()
    }

    /// Decode a caller-supplied player image of this title.
    pub fn get_sid_lightforce(song: Vec<u8>) -> (r: SidModule)
        requires
            song@.len() <= 0xFFFF_FFFF,
        ensures
            r.instruments@.len() > 0 ==> r.instruments@[0].wf(),
    {
        let sid = OneSid::get_sid_lightforce(song);
        sid.to_sidmodule()
    }

    /// Decode a caller-supplied player image of this title.
    pub fn get_sid_sanxion_song_1(song: Vec<u8>) -> (r: SidModule)
        requires
            song@.len() <= 0xFFFF_FFFF,
        ensures
            r.instruments@.len() > 0 ==> r.instruments@[0].wf(),
    {
        let sid = OneSid::get_sid_sanxion_song_1(song);
        sid.to_sidmodule()
    }

    /// Decode a caller-supplied player image of this title.
    pub fn get_sid_sanxion_song_2(song: Vec<u8>) -> (r: SidModule)
        requires
            song@.len() <= 0xFFFF_FFFF,
        ensures
            r.instruments@.len() > 0 ==> r.instruments@[0].wf(),
    {
        let sid = OneSid::get_sid_sanxion_song_2(song);
        sid.to_sidmodule()
    }

    /// Decode a caller-supplied player image of this title.
    pub fn get_sid_spellbound(song: Vec<u8>) -> (r: SidModule)
        requires
            song@.len() <= 0xFFFF_FFFF,
        ensures
            r.instruments@.len() > 0 ==> r.instruments@[0].wf(),
    {
        let sid = OneSid::get_sid_spellbound(song);
        sid.to_sidmodule()
    }

}

} // verus!
