//! Load historical Amiga MOD modules.

pub mod amiga_module;
pub mod amiga_sample;
pub mod element;
