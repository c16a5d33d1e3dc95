//! The analysis of a trace: call depth and memory history, step by step.

pub mod backtrace;
pub mod dump;
pub mod syscall;

use crate::dis::Instruction;
use crate::state::{Instrumentation, Step};
use crate::syms::SymbolTable;
use vstd::prelude::*;

verus! {

/// The result of an analysis: the steps of the trace, what was found out
/// about each of them, and the symbols of the images that were loaded.
#[derive(Clone, Debug)]
pub struct Analysis<STEP: Step> {
    pub trace: Vec<STEP>,
    pub insns: Vec<Instruction>,
    pub instrumentations: Vec<Instrumentation>,
    /// The call depth at each step.
    pub bt_lens: Vec<usize>,
    pub table: SymbolTable,
}

} // verus!
