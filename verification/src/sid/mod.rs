//! Consume Rob Hubbard C64 music-engine dumps into the unified
//! representation.

pub mod instr_helper;
pub mod one_sid;
pub mod pattern_helper;
pub mod sid_module;
pub mod sound_fx;
