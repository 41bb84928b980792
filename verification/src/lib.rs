//! A soundtracker module interchange library.
//!
//! The crate defines a unified in-memory representation of a tracker song
//! (instruments, samples, envelopes, patterns) together with codecs for
//! historical binary module formats: the Fast Tracker 2 "XM" format
//! (load and save), the Scream Tracker 3 "S3M" format (load only) and the
//! Amiga "MOD" family (load only), plus the framing of a small versioned
//! container for the representation itself.
//!
//! All codecs are pure transformations over in-memory byte buffers: callers
//! hand in bytes and receive a `Module`, or hand in a module and receive
//! bytes.

pub mod amiga;
pub mod container;
pub mod cursor;
pub mod envelope;
pub mod error;
pub mod fixedstr;
pub mod instr_default;
pub mod instr_ekn;
pub mod instr_midi;
pub mod instr_opl;
pub mod instr_robsid;
pub mod instr_sid;
pub mod instr_vibrato;
pub mod instrument;
pub mod module;
pub mod note;
pub mod patternslot;
pub mod period_helper;
pub mod prelude;
pub mod s3m;
pub mod sample;
pub mod sid;
pub mod vibrato;

pub mod xm;
