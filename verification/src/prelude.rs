//! One import for the commonly used parts of the library.

pub use crate::envelope::Envelope;
pub use crate::envelope::EnvelopePoint;
pub use crate::error::CodecError;
pub use crate::instr_default::InstrDefault;
pub use crate::instr_ekn::InstrEkn;
pub use crate::instr_midi::InstrMidi;
pub use crate::instr_opl::InstrOpl;
pub use crate::instr_opl::MdiInstr;
pub use crate::instr_opl::MdiOpl;
pub use crate::instr_robsid::InstrRobSid;
pub use crate::instr_sid::InstrSid;
pub use crate::instrument::Instrument;
pub use crate::instrument::InstrumentType;
pub use crate::module::MAX_NUM_ROWS;
pub use crate::module::Module;
pub use crate::module::Pattern;
pub use crate::module::Row;
pub use crate::note::Note;
pub use crate::patternslot::PatternSlot;
pub use crate::period_helper::FrequencyType;
pub use crate::period_helper::PeriodHelper;
pub use crate::sample::LoopType;
pub use crate::sample::Sample;
pub use crate::sample::SampleDataType;
