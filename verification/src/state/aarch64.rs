//! Steps of AArch64 traces.

use super::{
    assembled, views, Branching, GenericStep, Instrument, MemoryOp, State, Step, StepError,
    StepView,
};
use crate::arch::Arch;
use crate::dis::regs::Aarch64Reg;
use crate::dis::{Instruction, Operand};
use crate::text::str_eq;
use crate::tracer::parser::{Message, RegisterMessage};
use vstd::prelude::*;

verus! {

/// Negative condition flag.
pub const NEGATIVE: u32 = 1 << 31;

/// Zero condition flag.
pub const ZERO: u32 = 1 << 30;

/// Carry condition flag.
pub const CARRY: u32 = 1 << 29;

/// Overflow condition flag.
pub const OVERFLOW: u32 = 1 << 28;

/// Cumulative saturation.
pub const CUMULATIVE_SATURATION: u32 = 1 << 27;

/// Speculative store bypass safe.
pub const SSBS: u32 = 1 << 23;

/// Privileged access never.
pub const PAN: u32 = 1 << 22;

/// Data independent timing.
pub const DIT: u32 = 1 << 21;

/// Greater than or equal flag, bit 19.
pub const GE_0: u32 = 1 << 19;

/// Greater than or equal flag, bit 18.
pub const GE_1: u32 = 1 << 18;

/// Greater than or equal flag, bit 17.
pub const GE_2: u32 = 1 << 17;

/// Greater than or equal flag, bit 16.
pub const GE_3: u32 = 1 << 16;

/// 0 for little endian, 1 for big endian.
pub const ENDIANNESS: u32 = 1 << 9;

/// Masks SError interrupts.
pub const A: u32 = 1 << 8;

/// Masks IRQ exceptions.
pub const IRQ: u32 = 1 << 7;

/// Masks FIQ exceptions.
pub const FIQ: u32 = 1 << 6;

/// Processor mode, bit 3.
pub const PE_0: u32 = 1 << 3;

/// Processor mode, bit 2.
pub const PE_1: u32 = 1 << 2;

/// Processor mode, bit 1.
pub const PE_2: u32 = 1 << 1;

/// Processor mode, bit 0.
pub const PE_3: u32 = 1 << 0;

/// Every flag that has a name.
pub const ALL: u32 = 0xf8ef_03cf;

/// The number of general-purpose registers in a snapshot.
pub const REGISTERS: usize = 32;

/// The number of bytes of an instruction.
pub const INSTRUCTION_LEN: usize = 4;

/// The processor state flags of AArch64.
#[derive(Clone, Copy, Debug, PartialEq, Eq, Structural)]
pub struct Aarch64Flags {
    pub bits: u32,
}

impl Aarch64Flags {
    /// No flag set.
    pub fn empty() -> (f: Self)
        ensures
            f.bits == 0,
    {
        Aarch64Flags { bits: 0 }
    }

    /// Every named flag set.
    pub fn all() -> (f: Self)
        ensures
            f.bits == ALL,
    {
        Aarch64Flags { bits: ALL }
    }

    /// The flags of a raw register value; bits without a name are kept.
    pub fn from_bits_retain(bits: u32) -> (f: Self)
        ensures
            f.bits == bits,
    {
        Aarch64Flags { bits }
    }

    /// The raw register value.
    pub fn bits(&self) -> (bits: u32)
        ensures
            bits == self.bits,
    {
        self.bits
    }

    /// Whether every bit of `flag` is set.
    pub fn contains(&self, flag: u32) -> (r: bool)
        ensures
            r == (self.bits & flag == flag),
    {
        self.bits & flag == flag
    }

    /// The named flags, in the order of their declaration: highest bit first.
    pub open spec fn named() -> Seq<(&'static str, u32)> {
        seq![
            ("NEGATIVE", NEGATIVE),
            ("ZERO", ZERO),
            ("CARRY", CARRY),
            ("OVERFLOW", OVERFLOW),
            ("CUMULATIVE_SATURATION", CUMULATIVE_SATURATION),
            ("SSBS", SSBS),
            ("PAN", PAN),
            ("DIT", DIT),
            ("GE_0", GE_0),
            ("GE_1", GE_1),
            ("GE_2", GE_2),
            ("GE_3", GE_3),
            ("ENDIANNESS", ENDIANNESS),
            ("A", A),
            ("IRQ", IRQ),
            ("FIQ", FIQ),
            ("PE_0", PE_0),
            ("PE_1", PE_1),
            ("PE_2", PE_2),
            ("PE_3", PE_3),
        ]
    }

    /// The named flags, in the order of their declaration: highest bit first.
    pub fn names() -> (names: Vec<(&'static str, u32)>)
        ensures
            names@ == Self::named(),
    {
        let mut names: Vec<(&'static str, u32)> = Vec::new();
        names.push(("NEGATIVE", NEGATIVE));
        names.push(("ZERO", ZERO));
        names.push(("CARRY", CARRY));
        names.push(("OVERFLOW", OVERFLOW));
        names.push(("CUMULATIVE_SATURATION", CUMULATIVE_SATURATION));
        names.push(("SSBS", SSBS));
        names.push(("PAN", PAN));
        names.push(("DIT", DIT));
        names.push(("GE_0", GE_0));
        names.push(("GE_1", GE_1));
        names.push(("GE_2", GE_2));
        names.push(("GE_3", GE_3));
        names.push(("ENDIANNESS", ENDIANNESS));
        names.push(("A", A));
        names.push(("IRQ", IRQ));
        names.push(("FIQ", FIQ));
        names.push(("PE_0", PE_0));
        names.push(("PE_1", PE_1));
        names.push(("PE_2", PE_2));
        names.push(("PE_3", PE_3));
        assert(names@ =~= Self::named());
        names
    }
}

/// The registers of AArch64 after a step.
#[derive(Clone, Copy, Debug, PartialEq, Eq)]
pub struct Aarch64State {
    pub regs: [u64; 32],
    pub pc: u64,
    pub flags: Aarch64Flags,
}

/// The value of the register with the disassembler's number `id`, if the
/// register has a place in the snapshot.
pub open spec fn reg_value(regs: Seq<u64>, id: u16) -> Option<u64> {
    if exists|r: Aarch64Reg| r.num_of() == id {
        let r = choose|r: Aarch64Reg| r.num_of() == id;
        match r.idx_of() {
            Some(i) => Some(regs[i as int]),
            None => None,
        }
    } else {
        None
    }
}

/// Where a call goes to: `bl` to its immediate operand, `blr` to the value
/// of its register operand in the registers of the call's own step.
pub open spec fn call_target(regs: Seq<u64>, mnemonic: Option<Seq<char>>, operand: Operand) -> Option<
    u64,
> {
    if mnemonic == Some("bl"@) {
        match operand {
            Operand::Imm(imm) => Some(imm as u64),
            _ => None,
        }
    } else if mnemonic == Some("blr"@) {
        match operand {
            Operand::Reg(id) => reg_value(regs, id),
            _ => None,
        }
    } else {
        None
    }
}

/// The branch that an instruction is, given the registers of its step.
///
/// A call has one operand; it returns to the address behind the call.
/// An instruction that is marked both as call and as return, a call with
/// another number of operands or another mnemonic than `bl` and `blr`, one
/// whose target cannot be read and one at the very end of the address space
/// are not classified.
pub open spec fn branch_of(
    regs: Seq<u64>,
    address: u64,
    len: usize,
    mnemonic: Option<Seq<char>>,
    operands: Seq<Operand>,
    call: bool,
    ret: bool,
) -> Option<Branching> {
    if call && ret {
        None
    } else if call {
        if operands.len() != 1 || address + len > u64::MAX {
            None
        } else {
            match call_target(regs, mnemonic, operands[0]) {
                Some(target) => Some(Branching::Call(target, (address + len) as u64)),
                None => None,
            }
        }
    } else if ret {
        Some(Branching::Return)
    } else {
        None
    }
}

/// The name of the register at place `i` of a snapshot.
pub open spec fn place_name(i: int) -> Seq<char> {
    (choose|r: Aarch64Reg| r.idx_of() == Some(i as usize)).name()
}

/// Two registers with the same place in the snapshot are the same register.
pub proof fn lemma_place_decides(a: Aarch64Reg, b: Aarch64Reg)
    requires
        a.idx_of() is Some,
        a.idx_of() == b.idx_of(),
    ensures
        a == b,
{
}

/// Two registers with the same number are the same register.
pub proof fn lemma_num_decides(a: Aarch64Reg, b: Aarch64Reg)
    requires
        a.num_of() == b.num_of(),
    ensures
        a == b,
{
}

impl State for Aarch64State {
    open spec fn pc_of(&self) -> u64 {
        self.pc
    }

    open spec fn regs_of(&self) -> Seq<u64> {
        self.regs@
    }

    open spec fn flag_bits(&self) -> u32 {
        self.flags.bits
    }

    open spec fn named_flags() -> Seq<(&'static str, u32)> {
        Aarch64Flags::named()
    }

    open spec fn count() -> nat {
        32
    }

    open spec fn reg_name(i: int) -> Seq<char> {
        place_name(i)
    }

    fn pc(&self) -> (pc: u64) {
        self.pc
    }

    fn regs(&self) -> (regs: &[u64]) {
        self.regs.as_slice()
    }

    fn flags(&self) -> (bits: u32) {
        self.flags.bits
    }

    fn register_count() -> (n: usize) {
        REGISTERS
    }

    fn reg_name_idx(i: usize) -> (name: &'static str) {
        match Aarch64Reg::from_idx(i) {
            Some(r) => {
                proof {
                    let other = choose|r: Aarch64Reg| r.idx_of() == Some(i);
                    lemma_place_decides(r, other);
                }
                r.as_str()
            },
            None => "",
        }
    }

    fn flag_names() -> (names: Vec<(&'static str, u32)>) {
        Aarch64Flags::names()
    }
}

impl Aarch64State {
    /// The value of the register with the disassembler's number `reg_id`.
    pub fn read_reg(&self, reg_id: u16) -> (r: Option<u64>)
        ensures
            r == reg_value(self.regs@, reg_id),
    {
        let reg = match Aarch64Reg::from_num(reg_id) {
            Some(reg) => reg,
            None => {
                return None;
            },
        };
        proof {
            let chosen = choose|r: Aarch64Reg| r.num_of() == reg_id;
            lemma_num_decides(reg, chosen);
        }
        match reg.idx() {
            Some(i) => Some(self.regs[i]),
            None => None,
        }
    }

    /// The snapshot that a register message holds. Fails unless the message
    /// has thirty-two registers. Of the flags, the low 32 bits are kept.
    pub fn try_from(value: RegisterMessage) -> (r: Result<Self, StepError>)
        ensures
            match r {
                Ok(state) => value.regs@.len() == REGISTERS && state.regs@ == value.regs@
                    && state.pc == value.pc && state.flags.bits == value.flags as u32,
                Err(e) => value.regs@.len() != REGISTERS && e == StepError::RegisterCount(
                    value.regs@.len() as usize,
                ),
            },
    {
        if value.regs.len() != REGISTERS {
            return Err(StepError::RegisterCount(value.regs.len()));
        }
        let mut regs = [0u64;32];
        let mut i: usize = 0;
        while i < REGISTERS
            invariant
                i <= REGISTERS,
                value.regs@.len() == REGISTERS,
                forall|j: int| 0 <= j < i ==> regs@[j] == value.regs@[j],
            decreases REGISTERS - i,
        {
            regs[i] = value.regs[i];
            i += 1;
        }
        assert(regs@ =~= value.regs@);
        Ok(
            Aarch64State {
                regs,
                pc: value.pc,
                flags: Aarch64Flags::from_bits_retain(#[verifier::truncate] (value.flags as u32)),
            },
        )
    }
}

/// One step of an AArch64 trace.
#[derive(Clone, Debug)]
pub struct Aarch64Step {
    state: Aarch64State,
    code: [u8; 4],
    address: u64,
    strace: Option<String>,
    memory_ops: Vec<MemoryOp>,
}

impl View for Aarch64Step {
    type V = StepView;

    closed spec fn view(&self) -> StepView {
        StepView {
            address: self.address,
            code: self.code@,
            pc: self.state.pc,
            flags: self.state.flags.bits as u64,
            regs: self.state.regs@,
            strace: match self.strace {
                Some(text) => Some(text@),
                None => None,
            },
            memory_ops: self.memory_ops@,
        }
    }
}

/// The AArch64 step that a step of any architecture is, if it has
/// thirty-two registers and four bytes of code; of the flags the low 32 bits
/// are kept.
pub open spec fn shaped(generic: StepView) -> Result<StepView, StepError> {
    if generic.regs.len() != REGISTERS {
        Err(StepError::RegisterCount(generic.regs.len() as usize))
    } else if generic.code.len() != INSTRUCTION_LEN {
        Err(StepError::CodeLength(generic.code.len() as usize))
    } else {
        Ok(StepView { flags: (generic.flags as u32) as u64, ..generic })
    }
}

impl Step for Aarch64Step {
    type STATE = Aarch64State;

    type INSTRUMENT = Aarch64Instrument;

    open spec fn summary(&self) -> StepView {
        self@
    }

    open spec fn branch(&self, insn: &Instruction) -> Option<Branching> {
        branch_of(
            self@.regs,
            insn.address,
            insn.len,
            match insn.mnemonic {
                Some(m) => Some(m@),
                None => None,
            },
            insn.operands@,
            insn.marked_call(),
            insn.marked_ret(),
        )
    }

    fn arch(&self) -> (arch: Arch) {
        Arch::ARM64
    }

    open spec fn architecture() -> Arch {
        Arch::ARM64
    }

    fn code(&self) -> (code: &[u8]) {
        self.code.as_slice()
    }

    fn state(&self) -> (state: &Aarch64State) {
        &self.state
    }

    fn address(&self) -> (address: u64) {
        self.address
    }

    fn strace(&self) -> (text: Option<&str>) {
        match &self.strace {
            Some(text) => Some(text.as_str()),
            None => None,
        }
    }

    fn memory_ops(&self) -> (ops: &[MemoryOp]) {
        self.memory_ops.as_slice()
    }

    fn instrument(&self) -> (i: Aarch64Instrument) {
        Aarch64Instrument { step: self.clone_step() }
    }
}

impl Aarch64Step {
    fn clone_step(&self) -> (copy: Self)
        ensures
            copy@ == self@,
    {
        Aarch64Step {
            state: self.state,
            code: self.code,
            address: self.address,
            strace: match &self.strace {
                Some(text) => Some(text.clone()),
                None => None,
            },
            memory_ops: vstd::slice::slice_to_vec(self.memory_ops.as_slice()),
        }
    }

    /// The AArch64 step that a step of any architecture is.
    pub fn from_generic(generic: GenericStep) -> (r: Result<Self, StepError>)
        ensures
            r matches Ok(step) ==> shaped(generic@) == Ok::<StepView, StepError>(step@),
            r matches Err(e) ==> shaped(generic@) == Err::<StepView, StepError>(e),
    {
        let GenericStep { state, code, address, strace, memory_ops } = generic;
        let state = match Aarch64State::try_from(state) {
            Ok(state) => state,
            Err(e) => {
                return Err(e);
            },
        };
        if code.len() != INSTRUCTION_LEN {
            return Err(StepError::CodeLength(code.len()));
        }
        let word = [code[0], code[1], code[2], code[3]];
        assert(word@ =~= code@);
        Ok(Aarch64Step { state, code: word, address, strace, memory_ops })
    }

    /// The step that a batch of messages describes.
    pub fn try_from(input: &[Message]) -> (r: Result<Self, StepError>)
        ensures
            match assembled(views(input@)) {
                Ok(generic) => {
                    &&& r matches Ok(step) ==> shaped(generic) == Ok::<StepView, StepError>(step@)
                    &&& r matches Err(e) ==> shaped(generic) == Err::<StepView, StepError>(e)
                },
                Err(e) => r matches Err(f) && f == e,
            },
    {
        match GenericStep::try_from(input) {
            Ok(generic) => Self::from_generic(generic),
            Err(e) => Err(e),
        }
    }
}

/// Classifies the instruction of an AArch64 step.
pub struct Aarch64Instrument {
    pub step: Aarch64Step,
}

impl Instrument for Aarch64Instrument {
    open spec fn classifies(&self, insn: &Instruction) -> Option<Branching> {
        branch_of(
            self.step@.regs,
            insn.address,
            insn.len,
            match insn.mnemonic {
                Some(m) => Some(m@),
                None => None,
            },
            insn.operands@,
            insn.marked_call(),
            insn.marked_ret(),
        )
    }

    /// Every instruction is answered. An instruction that is marked both
    /// as call and as return, a call with another number of operands than
    /// one, and a call whose target cannot be read from its operand (a
    /// `bl` without an immediate, a `blr` without a register of the
    /// snapshot, a call of another mnemonic) are
    /// answered as neither: what the disassembler says of an instruction
    /// is not known before it is asked, and an instruction that is not
    /// classified only leaves the call depth as it is.
    fn recover_branch(&self, insn: &Instruction) -> (r: Option<Branching>)
    {
        let is_call_insn = insn.is_call();
        let is_ret_insn = insn.is_ret();
        if is_call_insn && is_ret_insn {
            return None;
        }
        if is_call_insn {
            if insn.operands.len() != 1 || insn.len as u128 + insn.address as u128 > u64::MAX as u128 {
                return None;
            }
            let return_address = insn.address + insn.len as u64;
            let mnem = match &insn.mnemonic {
                Some(m) => m.as_str(),
                None => {
                    return None;
                },
            };
            proof {
                reveal_strlit("bl");
                reveal_strlit("blr");
            }
            if str_eq(mnem, "bl") {
                match insn.operands[0] {
                    Operand::Imm(imm) => Some(Branching::Call(imm as u64, return_address)),
                    _ => None,
                }
            } else if str_eq(mnem, "blr") {
                match insn.operands[0] {
                    Operand::Reg(reg) => match self.step.state.read_reg(reg) {
                        Some(target) => Some(Branching::Call(target, return_address)),
                        None => None,
                    },
                    _ => None,
                }
            } else {
                None
            }
        } else if is_ret_insn {
            Some(Branching::Return)
        } else {
            None
        }
    }
}

} // verus!
