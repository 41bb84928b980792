//! Load and save historical Fast Tracker 2 XM modules.

pub mod helper;
pub mod xi_instrument;
pub mod xmheader;
pub mod xminstrument;
pub mod xmmodule;
pub mod xmpattern;
pub mod xmpatternslot;
pub mod xmsample;
pub mod xp_pattern;
pub mod xt_track;
