//! Tracers: how a traced program is started, and how its trace is read.

pub mod parser;
pub mod qemu;
pub mod qiling;
pub mod wire;

use crate::text::str_eq;
use vstd::prelude::*;

verus! {

/// The port at which the analysis listens for the trace.
pub const TRACE_PORT: &'static str = "1337";

/// What a traced process left behind when it ended.
#[derive(Debug, Clone)]
pub struct ProcessOutput {
    /// The exit code, if the process ended by itself.
    pub status: Option<i32>,
    pub stdout: Vec<u8>,
    pub stderr: Vec<u8>,
}

/// One record of a trace.
#[derive(Debug)]
pub enum ParsedStep<STEP> {
    /// The module map: names with the range of addresses at which each was loaded.
    LibLoad(Vec<(String, (u64, u64))>),
    TraceStep(STEP),
    /// The traced process has ended.
    Final(ProcessOutput),
}

/// The kinds of records of a trace.
#[derive(Debug, Clone, Copy, PartialEq, Eq, Structural)]
pub enum RecordKind {
    LibLoad,
    TraceStep,
    Final,
}

/// How far a trace has been read.
#[derive(Debug, Clone, Copy, PartialEq, Eq, Structural)]
pub enum Phase {
    /// Nothing was read: the module map comes first.
    Start,
    /// The module map was read: steps follow, up to the final record.
    Steps,
    /// The final record was read: nothing may follow.
    Done,
}

/// Why a sequence of records is no trace.
#[derive(Debug, Clone, Copy, PartialEq, Eq, Structural)]
pub enum ProtocolError {
    /// The trace does not start with the module map.
    ExpectedLibLoad,
    /// A module map stands among the steps.
    UnexpectedLibLoad,
    /// A record follows on the final one.
    AfterFinal,
}

impl<STEP> ParsedStep<STEP> {
    /// The kind of the record.
    pub open spec fn kind_of(&self) -> RecordKind {
        match self {
            ParsedStep::LibLoad(_) => RecordKind::LibLoad,
            ParsedStep::TraceStep(_) => RecordKind::TraceStep,
            ParsedStep::Final(_) => RecordKind::Final,
        }
    }

    /// The kind of the record.
    pub fn kind(&self) -> (k: RecordKind)
        ensures
            k == self.kind_of(),
    {
        match self {
            ParsedStep::LibLoad(_) => RecordKind::LibLoad,
            ParsedStep::TraceStep(_) => RecordKind::TraceStep,
            ParsedStep::Final(_) => RecordKind::Final,
        }
    }
}

impl Phase {
    /// The phase after one more record: a trace is the module map, then
    /// steps, then the final record, and nothing else.
    pub open spec fn after(self, record: RecordKind) -> Result<Phase, ProtocolError> {
        match (self, record) {
            (Phase::Start, RecordKind::LibLoad) => Ok(Phase::Steps),
            (Phase::Start, _) => Err(ProtocolError::ExpectedLibLoad),
            (Phase::Steps, RecordKind::LibLoad) => Err(ProtocolError::UnexpectedLibLoad),
            (Phase::Steps, RecordKind::TraceStep) => Ok(Phase::Steps),
            (Phase::Steps, RecordKind::Final) => Ok(Phase::Done),
            (Phase::Done, _) => Err(ProtocolError::AfterFinal),
        }
    }

    /// Moves on by one record, or tells why the record may not stand here.
    pub fn next(self, record: RecordKind) -> (r: Result<Phase, ProtocolError>)
        ensures
            r == self.after(record),
    {
        match (self, record) {
            (Phase::Start, RecordKind::LibLoad) => Ok(Phase::Steps),
            (Phase::Start, _) => Err(ProtocolError::ExpectedLibLoad),
            (Phase::Steps, RecordKind::LibLoad) => Err(ProtocolError::UnexpectedLibLoad),
            (Phase::Steps, RecordKind::TraceStep) => Ok(Phase::Steps),
            (Phase::Steps, RecordKind::Final) => Ok(Phase::Done),
            (Phase::Done, _) => Err(ProtocolError::AfterFinal),
        }
    }
}

/// The command that starts a tracer on a program.
#[derive(Debug, Clone)]
pub struct TracerCmd {
    pub program: String,
    pub args: Vec<String>,
}

/// The tracers that can produce a trace.
#[derive(Debug, Clone, Copy, PartialEq, Eq, Structural)]
pub enum TraceTypes {
    Qemu,
    Qiling,
}

impl TraceTypes {
    /// The tracer that a name stands for.
    pub open spec fn named(name: Seq<char>) -> Option<TraceTypes> {
        if name == "qemu"@ {
            Some(TraceTypes::Qemu)
        } else if name == "qiling"@ {
            Some(TraceTypes::Qiling)
        } else {
            None
        }
    }

    /// The tracer that a name from the command line stands for.
    pub fn from_str(name: &str) -> (r: Option<Self>)
        ensures
            r == Self::named(name@),
    {
        if str_eq(name, "qemu") {
            Some(TraceTypes::Qemu)
        } else if str_eq(name, "qiling") {
            Some(TraceTypes::Qiling)
        } else {
            None
        }
    }
}

} // verus!
