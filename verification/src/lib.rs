//! Trace analysis engine: decodes an emulator's instruction-level trace and
//! answers questions about memory history, symbols and call depth.

pub mod analyzer;
pub mod arch;
pub mod binary;
pub mod dis;
pub mod host;
pub mod mem;
pub mod rstate;
pub mod search;
pub mod serve;
pub mod state;
pub mod syms;
pub mod text;
pub mod tracer;
