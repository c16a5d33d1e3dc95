//! Time-indexed memory: what was stored at an address at a given tick.

pub mod byte;
pub mod laws;

pub use byte::{HistMem, MCell, OutOfOrderWrite};
