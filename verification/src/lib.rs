//! Roaring bitmaps for Valkey: the verified core of the `R.*` and `R64.*`
//! command families.
use vstd::prelude::*;

pub mod bitmap_type;
pub mod bitmap32;
pub mod bitmap64;
pub mod commands_bitop;
pub mod error;
pub mod parse;
pub mod commands;
pub mod stats;
pub mod laws;
pub mod stat_laws;
pub mod test_util;
