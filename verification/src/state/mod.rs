//! Steps of a trace: what one executed instruction left behind.

pub mod aarch64;
pub mod x64;

pub use aarch64::{Aarch64Flags, Aarch64State, Aarch64Step};
pub use x64::{X64Flags, X64State, X64Step};

use crate::arch::Arch;
use crate::tracer::parser::{Message, MessageView, RegisterMessage};
use vstd::prelude::*;
use vstd::string::StringExecFns;

verus! {

/// A register snapshot of some architecture.
pub trait State: Sized {
    /// The program counter.
    spec fn pc_of(&self) -> u64;

    /// The general-purpose registers.
    spec fn regs_of(&self) -> Seq<u64>;

    /// The raw flags register.
    spec fn flag_bits(&self) -> u32;

    /// The flags that have a name, with their bits.
    spec fn named_flags() -> Seq<(&'static str, u32)>;

    /// The number of general-purpose registers.
    spec fn count() -> nat;

    /// The name of the register at place `i` of a snapshot.
    spec fn reg_name(i: int) -> Seq<char>;

    /// The program counter.
    fn pc(&self) -> (pc: u64)
        ensures
            pc == self.pc_of(),
    ;

    /// The general-purpose registers.
    fn regs(&self) -> (regs: &[u64])
        ensures
            regs@ == self.regs_of(),
            regs@.len() == Self::count(),
    ;

    /// The raw flags register.
    fn flags(&self) -> (bits: u32)
        ensures
            bits == self.flag_bits(),
    ;

    /// The flags that have a name, with their bits.
    fn flag_names() -> (names: Vec<(&'static str, u32)>)
        ensures
            names@ == Self::named_flags(),
    ;

    /// The number of general-purpose registers.
    fn register_count() -> (n: usize)
        ensures
            n == Self::count(),
    ;

    /// The name of the register at place `i` of a snapshot.
    fn reg_name_idx(i: usize) -> (name: &'static str)
        requires
            i < Self::count(),
        ensures
            name@ == Self::reg_name(i as int),
    ;
}

/// Tells how an instruction branches, knowing the step that executed it.
pub trait Instrument {
    /// The branch that `insn` is: a call, a return, or neither.
    spec fn classifies(&self, insn: &crate::dis::Instruction) -> Option<Branching>;

    /// The branch that `insn` is: a call with its target and return
    /// address, a return, or neither.
    fn recover_branch(&self, insn: &crate::dis::Instruction) -> (r: Option<Branching>)
        ensures
            r == self.classifies(insn),
    ;
}

/// One step of a trace: an executed instruction and what it left behind.
pub trait Step: Sized {
    /// The register snapshots of the step's architecture.
    type STATE: State;

    /// What classifies the instructions of the step's architecture.
    type INSTRUMENT: Instrument;

    /// What the step holds.
    spec fn summary(&self) -> StepView;

    /// The branch that the step's instruction `insn` is, given the
    /// registers of the step.
    spec fn branch(&self, insn: &crate::dis::Instruction) -> Option<Branching>;

    /// The architecture that steps of this kind come from: it is the same
    /// for every step of the kind.
    spec fn architecture() -> Arch;

    /// The architecture of the step.
    fn arch(&self) -> (arch: Arch)
        ensures
            arch == Self::architecture(),
    ;

    /// The bytes of the instruction.
    fn code(&self) -> (code: &[u8])
        ensures
            code@ == self.summary().code,
    ;

    /// The registers after the step.
    fn state(&self) -> (state: &Self::STATE)
        ensures
            state.pc_of() == self.summary().pc,
            state.regs_of() == self.summary().regs,
            state.flag_bits() as u64 == self.summary().flags,
    ;

    /// The address of the instruction.
    fn address(&self) -> (address: u64)
        ensures
            address == self.summary().address,
    ;

    /// The system call that the step made, with its result.
    fn strace(&self) -> (text: Option<&str>)
        ensures
            match text {
                Some(t) => self.summary().strace == Some(t@),
                None => self.summary().strace is None,
            },
    ;

    /// The memory accesses of the step, in their order.
    fn memory_ops(&self) -> (ops: &[MemoryOp])
        ensures
            ops@ == self.summary().memory_ops,
    ;

    /// What classifies the step's instruction, from the registers of the step.
    fn instrument(&self) -> (i: Self::INSTRUMENT)
        ensures
            forall|insn: &crate::dis::Instruction|
                #[trigger] i.classifies(insn) == self.branch(insn),
    ;
}

/// How an instruction leaves the straight line of execution.
#[derive(Debug, Clone, Copy, PartialEq, Eq, Structural)]
pub enum Branching {
    /// A call: where it goes to, and where it will return to.
    Call(u64, u64),
    Return,
}

/// What the analysis notes about one step.
#[derive(Debug, Clone, PartialEq, Eq)]
pub struct Instrumentation {
    pub branch: Option<Branching>,
    pub disassembly: String,
}

impl Default for Instrumentation {
    fn default() -> (r: Self)
        ensures
            r.branch is None,
            r.disassembly@.len() == 0,
    {
        Instrumentation { branch: None, disassembly: String::new() }
    }
}

/// The direction of a memory access.
#[derive(Clone, Copy, Debug, PartialEq, Eq, Structural)]
pub enum MemoryOpKind {
    Read,
    Write,
}

/// A value read or written, with its width.
#[derive(Clone, Copy, Debug, PartialEq, Eq, Structural)]
pub enum MemoryValue {
    Byte(u8),
    Word(u16),
    Dword(u32),
    Qword(u64),
}

impl MemoryValue {
    /// The value, widened to 64 bits.
    pub open spec fn value(self) -> u64 {
        match self {
            MemoryValue::Byte(b) => b as u64,
            MemoryValue::Word(w) => w as u64,
            MemoryValue::Dword(d) => d as u64,
            MemoryValue::Qword(q) => q,
        }
    }

    /// The number of bytes of the value.
    pub open spec fn width(self) -> nat {
        match self {
            MemoryValue::Byte(_) => 1,
            MemoryValue::Word(_) => 2,
            MemoryValue::Dword(_) => 4,
            MemoryValue::Qword(_) => 8,
        }
    }

    /// The value of `size` bytes that the low bytes of `raw` are, if `size`
    /// is one of 1, 2, 4 and 8.
    pub open spec fn sized(raw: u64, size: u8) -> Option<MemoryValue> {
        if size == 1 {
            Some(MemoryValue::Byte((raw % 0x100) as u8))
        } else if size == 2 {
            Some(MemoryValue::Word((raw % 0x1_0000) as u16))
        } else if size == 4 {
            Some(MemoryValue::Dword((raw % 0x1_0000_0000) as u32))
        } else if size == 8 {
            Some(MemoryValue::Qword(raw))
        } else {
            None
        }
    }

    /// The value, widened to 64 bits.
    pub fn as_u64(&self) -> (v: u64)
        ensures
            v == self.value(),
    {
        match &self {
            MemoryValue::Byte(b) => *b as u64,
            MemoryValue::Word(w) => *w as u64,
            MemoryValue::Dword(d) => *d as u64,
            MemoryValue::Qword(q) => *q,
        }
    }

    /// The value of `size` bytes taken from the low bytes of `raw`.
    pub fn from_raw(raw: u64, size: u8) -> (r: Option<MemoryValue>)
        ensures
            r == Self::sized(raw, size),
    {
        match size {
            1 => Some(MemoryValue::Byte((raw % 0x100) as u8)),
            2 => Some(MemoryValue::Word((raw % 0x1_0000) as u16)),
            4 => Some(MemoryValue::Dword((raw % 0x1_0000_0000) as u32)),
            8 => Some(MemoryValue::Qword(raw)),
            _ => None,
        }
    }
}

/// One memory access of a step.
#[derive(Clone, Copy, Debug, PartialEq, Eq, Structural)]
pub struct MemoryOp {
    pub address: u64,
    pub kind: MemoryOpKind,
    pub value: MemoryValue,
}

/// Why a batch of messages is no step.
#[derive(Clone, Copy, Debug, PartialEq, Eq, Structural)]
pub enum StepError {
    /// A load or store has a size other than 1, 2, 4 or 8 bytes.
    UnknownValueSize(u8),
    /// The batch holds a separate flags message, which no tracer sends.
    UnsupportedFlags,
    /// The batch holds a module map entry or a separator.
    Misplaced,
    /// The batch has no address.
    MissingAddress,
    /// The batch has no code.
    MissingCode,
    /// The batch has no registers.
    MissingRegisters,
    /// The number of registers is not that of the architecture.
    RegisterCount(usize),
    /// The number of code bytes is not that of the architecture.
    CodeLength(usize),
}

/// A register snapshot, as plain mathematical values.
pub struct Registers {
    pub pc: u64,
    pub flags: u64,
    pub regs: Seq<u64>,
}

/// A step while its messages are being gathered.
pub struct Draft {
    pub address: Option<u64>,
    pub code: Option<Seq<u8>>,
    pub state: Option<Registers>,
    pub strace: Option<Seq<char>>,
    pub strace_result: Option<Seq<char>>,
    pub memory_ops: Seq<MemoryOp>,
}

/// What a step holds, as plain mathematical values.
pub struct StepView {
    pub address: u64,
    pub code: Seq<u8>,
    pub pc: u64,
    pub flags: u64,
    pub regs: Seq<u64>,
    pub strace: Option<Seq<char>>,
    pub memory_ops: Seq<MemoryOp>,
}

/// A draft that has seen no message.
pub open spec fn blank() -> Draft {
    Draft {
        address: None,
        code: None,
        state: None,
        strace: None,
        strace_result: None,
        memory_ops: Seq::empty(),
    }
}

/// The memory access that a load or store message describes.
pub open spec fn access(
    kind: MemoryOpKind,
    address: u64,
    raw: u64,
    size: u8,
) -> Result<MemoryOp, StepError> {
    match MemoryValue::sized(raw, size) {
        Some(value) => Ok(MemoryOp { address, kind, value }),
        None => Err(StepError::UnknownValueSize(size)),
    }
}

/// The draft after one more message. A later address, code or syscall text
/// replaces an earlier one; of several register messages the first is kept;
/// memory accesses are gathered in order.
pub open spec fn absorb(d: Draft, m: MessageView) -> Result<Draft, StepError> {
    match m {
        MessageView::Address(a) => Ok(Draft { address: Some(a), ..d }),
        MessageView::Code(c) => Ok(Draft { code: Some(c), ..d }),
        MessageView::Registers(pc, flags, regs) => if d.state is Some {
            Ok(d)
        } else {
            Ok(Draft { state: Some(Registers { pc, flags, regs }), ..d })
        },
        MessageView::Flags(_) => Err(StepError::UnsupportedFlags),
        MessageView::Load(address, raw, size) => match access(
            MemoryOpKind::Read,
            address,
            raw,
            size,
        ) {
            Ok(op) => Ok(Draft { memory_ops: d.memory_ops.push(op), ..d }),
            Err(e) => Err(e),
        },
        MessageView::Store(address, raw, size) => match access(
            MemoryOpKind::Write,
            address,
            raw,
            size,
        ) {
            Ok(op) => Ok(Draft { memory_ops: d.memory_ops.push(op), ..d }),
            Err(e) => Err(e),
        },
        MessageView::Syscall(text) => Ok(Draft { strace: Some(text), ..d }),
        MessageView::SyscallResult(text) => Ok(Draft { strace_result: Some(text), ..d }),
        MessageView::Debug(_) => Ok(d),
        MessageView::LibLoad(_, _, _) => Err(StepError::Misplaced),
        MessageView::Separator => Err(StepError::Misplaced),
    }
}

/// The draft after a batch of messages, or the error of the first message
/// that no step can hold.
pub open spec fn drafted(msgs: Seq<MessageView>) -> Result<Draft, StepError>
    decreases msgs.len(),
{
    if msgs.len() == 0 {
        Ok(blank())
    } else {
        match drafted(msgs.drop_last()) {
            Err(e) => Err(e),
            Ok(d) => absorb(d, msgs.last()),
        }
    }
}

/// The step that a finished draft is. The syscall text is the syscall
/// followed by its result.
pub open spec fn finished(d: Draft) -> Result<StepView, StepError> {
    if d.address is None {
        Err(StepError::MissingAddress)
    } else if d.code is None {
        Err(StepError::MissingCode)
    } else if d.state is None {
        Err(StepError::MissingRegisters)
    } else {
        Ok(
            StepView {
                address: d.address->0,
                code: d.code->0,
                pc: d.state->0.pc,
                flags: d.state->0.flags,
                regs: d.state->0.regs,
                strace: match d.strace {
                    Some(text) => Some(
                        text + (match d.strace_result {
                            Some(result) => result,
                            None => Seq::empty(),
                        }),
                    ),
                    None => None,
                },
                memory_ops: d.memory_ops,
            },
        )
    }
}

/// The step that a batch of messages describes.
pub open spec fn assembled(msgs: Seq<MessageView>) -> Result<StepView, StepError> {
    match drafted(msgs) {
        Err(e) => Err(e),
        Ok(d) => finished(d),
    }
}

/// The views of a list of messages.
pub open spec fn views(msgs: Seq<Message>) -> Seq<MessageView> {
    Seq::new(msgs.len(), |i: int| msgs[i]@)
}

/// A step of any architecture: the registers are as many as came over the wire.
#[derive(Clone, Debug)]
pub struct GenericStep {
    pub state: RegisterMessage,
    pub code: Vec<u8>,
    pub address: u64,
    pub strace: Option<String>,
    pub memory_ops: Vec<MemoryOp>,
}

impl View for GenericStep {
    type V = StepView;

    open spec fn view(&self) -> StepView {
        StepView {
            address: self.address,
            code: self.code@,
            pc: self.state.pc,
            flags: self.state.flags,
            regs: self.state.regs@,
            strace: match self.strace {
                Some(text) => Some(text@),
                None => None,
            },
            memory_ops: self.memory_ops@,
        }
    }
}

fn copy_bytes(bytes: &Vec<u8>) -> (copy: Vec<u8>)
    ensures
        copy@ == bytes@,
{
    vstd::slice::slice_to_vec(bytes.as_slice())
}

fn copy_words(words: &Vec<u64>) -> (copy: Vec<u64>)
    ensures
        copy@ == words@,
{
    vstd::slice::slice_to_vec(words.as_slice())
}

impl GenericStep {
    /// Gathers the messages of one batch into a step.
    ///
    /// Fails at the first message that a step cannot hold, then if the
    /// address, the code or the registers are missing.
    ///
    /// Every batch is answered: a separate flags message, a module map
    /// entry or a separator among the messages, and a missing address, code
    /// or register message are told as errors. The messages come from the
    /// tracer, and whether they make up a step is known only once they are
    /// gathered; `get_next_step` hands the error on, and the run ends there.
    pub fn try_from(value: &[Message]) -> (r: Result<Self, StepError>)
        ensures
            r matches Ok(step) ==> assembled(views(value@)) == Ok::<StepView, StepError>(step@),
            r matches Err(e) ==> assembled(views(value@)) == Err::<StepView, StepError>(e),
    {
        let mut s_state: Option<RegisterMessage> = None;
        let mut s_address: Option<u64> = None;
        let mut s_code: Option<Vec<u8>> = None;
        let mut strace: Option<String> = None;
        let mut strace_result: Option<String> = None;
        let mut memory_ops: Vec<MemoryOp> = Vec::new();
        let ghost all = views(value@);
        let mut i: usize = 0;
        while i < value.len()
            invariant
                i <= value.len(),
                all == views(value@),
                drafted(all.subrange(0, i as int)) == Ok::<Draft, StepError>(
                    Draft {
                        address: s_address,
                        code: match s_code {
                            Some(c) => Some(c@),
                            None => None,
                        },
                        state: match s_state {
                            Some(r) => Some(Registers { pc: r.pc, flags: r.flags, regs: r.regs@ }),
                            None => None,
                        },
                        strace: match strace {
                            Some(t) => Some(t@),
                            None => None,
                        },
                        strace_result: match strace_result {
                            Some(t) => Some(t@),
                            None => None,
                        },
                        memory_ops: memory_ops@,
                    },
                ),
            decreases value.len() - i,
        {
            let m = &value[i];
            proof {
                let next = all.subrange(0, i + 1);
                assert(next.drop_last() =~= all.subrange(0, i as int));
                assert(next.last() == m@);
            }
            let ghost before = drafted(all.subrange(0, i as int))->Ok_0;
            let mut failure: Option<StepError> = None;
            match m {
                Message::Address(a) => {
                    s_address = Some(*a);
                },
                Message::Code(c) => {
                    s_code = Some(copy_bytes(c));
                },
                Message::Registers(regs) => {
                    if s_state.is_none() {
                        s_state =
                        Some(
                            RegisterMessage {
                                pc: regs.pc,
                                flags: regs.flags,
                                regs: copy_words(&regs.regs),
                            },
                        );
                    }
                },
                Message::Flags(_) => {
                    failure = Some(StepError::UnsupportedFlags);
                },
                Message::Load(adr, raw, size) => {
                    match MemoryValue::from_raw(*raw, *size) {
                        Some(v) => {
                            memory_ops.push(
                                MemoryOp { address: *adr, kind: MemoryOpKind::Read, value: v },
                            );
                        },
                        None => {
                            failure = Some(StepError::UnknownValueSize(*size));
                        },
                    }
                },
                Message::Store(adr, raw, size) => {
                    match MemoryValue::from_raw(*raw, *size) {
                        Some(v) => {
                            memory_ops.push(
                                MemoryOp { address: *adr, kind: MemoryOpKind::Write, value: v },
                            );
                        },
                        None => {
                            failure = Some(StepError::UnknownValueSize(*size));
                        },
                    }
                },
                Message::Syscall(s) => {
                    strace = Some(s.clone());
                },
                Message::SyscallResult(s) => {
                    strace_result = Some(s.clone());
                },
                Message::Debug(_) => {},
                Message::LibLoad(_, _, _) => {
                    failure = Some(StepError::Misplaced);
                },
                Message::Separator => {
                    failure = Some(StepError::Misplaced);
                },
            }
            if let Some(e) = failure {
                proof {
                    assert(drafted(all.subrange(0, i + 1)) == Err::<Draft, StepError>(e));
                    lemma_drafted_fails(all, i + 1);
                }
                return Err(e);
            }
            i += 1;
        }
        assert(all.subrange(0, i as int) =~= all);
        let address = match s_address {
            Some(a) => a,
            None => {
                return Err(StepError::MissingAddress);
            },
        };
        let code = match s_code {
            Some(c) => c,
            None => {
                return Err(StepError::MissingCode);
            },
        };
        let state = match s_state {
            Some(s) => s,
            None => {
                return Err(StepError::MissingRegisters);
            },
        };
        let strace = match strace {
            Some(mut text) => {
                match strace_result {
                    Some(result) => {
                        text.append(result.as_str());
                    },
                    None => {
                        assert(text@ + Seq::<char>::empty() =~= text@);
                    },
                }
                Some(text)
            },
            None => None,
        };
        Ok(GenericStep { state, code, address, strace, memory_ops })
    }
}

/// Of several register messages in a batch the first is kept.
pub proof fn lemma_first_registers_kept(msgs: Seq<MessageView>, i: int)
    requires
        0 <= i < msgs.len(),
        msgs[i] is Registers,
        forall|j: int| 0 <= j < i ==> !(#[trigger] msgs[j] is Registers),
    ensures
        drafted(msgs) matches Ok(d) ==> d.state == Some(
            Registers { pc: msgs[i]->Registers_0, flags: msgs[i]->Registers_1, regs: msgs[i]->Registers_2 },
        ),
    decreases msgs.len(),
{
    let front = msgs.drop_last();
    if i < msgs.len() - 1 {
        assert(front[i] == msgs[i]);
        assert forall|j: int| 0 <= j < i implies !(#[trigger] front[j] is Registers) by {
            assert(front[j] == msgs[j]);
        }
        lemma_first_registers_kept(front, i);
    } else {
        assert forall|j: int| 0 <= j < front.len() implies !(#[trigger] front[j] is Registers) by {
            assert(front[j] == msgs[j]);
        }
        lemma_no_registers(front);
    }
}

/// A batch without a register message leaves the registers open.
pub proof fn lemma_no_registers(msgs: Seq<MessageView>)
    requires
        forall|j: int| 0 <= j < msgs.len() ==> !(#[trigger] msgs[j] is Registers),
    ensures
        drafted(msgs) matches Ok(d) ==> d.state is None,
    decreases msgs.len(),
{
    if msgs.len() > 0 {
        let front = msgs.drop_last();
        assert forall|j: int| 0 <= j < front.len() implies !(#[trigger] front[j] is Registers) by {
            assert(front[j] == msgs[j]);
        }
        lemma_no_registers(front);
        assert(!(msgs[msgs.len() - 1] is Registers));
    }
}

/// Of several address messages in a batch the last counts.
pub proof fn lemma_last_address_counts(msgs: Seq<MessageView>, i: int)
    requires
        0 <= i < msgs.len(),
        msgs[i] is Address,
        forall|j: int| i < j < msgs.len() ==> !(#[trigger] msgs[j] is Address),
    ensures
        drafted(msgs) matches Ok(d) ==> d.address == Some(msgs[i]->Address_0),
    decreases msgs.len(),
{
    if i < msgs.len() - 1 {
        let front = msgs.drop_last();
        assert(front[i] == msgs[i]);
        assert forall|j: int| i < j < front.len() implies !(#[trigger] front[j] is Address) by {
            assert(front[j] == msgs[j]);
        }
        lemma_last_address_counts(front, i);
        assert(!(msgs[msgs.len() - 1] is Address));
    }
}

/// Once a prefix of a batch fails, the whole batch fails with the same error.
pub proof fn lemma_drafted_fails(msgs: Seq<MessageView>, upto: int)
    requires
        0 <= upto <= msgs.len(),
        drafted(msgs.subrange(0, upto)) is Err,
    ensures
        drafted(msgs) == drafted(msgs.subrange(0, upto)),
    decreases msgs.len() - upto,
{
    if upto < msgs.len() {
        let next = msgs.subrange(0, upto + 1);
        assert(next.drop_last() =~= msgs.subrange(0, upto));
        lemma_drafted_fails(msgs, upto + 1);
    } else {
        assert(msgs.subrange(0, upto) =~= msgs);
    }
}

} // verus!
