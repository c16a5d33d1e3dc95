//! Steps of x86-64 traces.

use super::{
    assembled, views, Branching, GenericStep, Instrument, MemoryOp, State, Step, StepError,
    StepView,
};
use crate::arch::Arch;
use crate::dis::regs::{Reg, X64Reg};
use crate::dis::{Instruction, Operand};
use crate::tracer::parser::{Message, RegisterMessage};
use vstd::prelude::*;

verus! {

/// Carry flag.
pub const CARRY: u32 = 1 << 0;

/// Parity flag.
pub const PARITY: u32 = 1 << 2;

/// Auxiliary carry flag.
pub const AUXILIARY_CARRY: u32 = 1 << 4;

/// Zero flag.
pub const ZERO: u32 = 1 << 6;

/// Sign flag.
pub const SIGN: u32 = 1 << 7;

/// Trap flag.
pub const TRAP: u32 = 1 << 8;

/// Interrupt enable flag.
pub const INTERRUPT_EN: u32 = 1 << 9;

/// Direction flag.
pub const DIRECTION: u32 = 1 << 10;

/// Overflow flag.
pub const OVERFLOW: u32 = 1 << 11;

/// Low bit of the I/O privilege level.
pub const IOPL_0: u32 = 1 << 12;

/// High bit of the I/O privilege level.
pub const IOPL_1: u32 = 1 << 13;

/// Nested task flag.
pub const NESTED_TASK: u32 = 1 << 14;

/// Resume flag.
pub const RESUME: u32 = 1 << 16;

/// Virtual 8086 mode flag.
pub const VIRTUAL_8086: u32 = 1 << 17;

/// Every flag that has a name.
pub const ALL: u32 = 0x37fd5;

/// The number of general-purpose registers in a snapshot.
pub const REGISTERS: usize = 16;

/// The flags register of x86-64.
#[derive(Clone, Copy, Debug, PartialEq, Eq, Structural)]
pub struct X64Flags {
    pub bits: u32,
}

impl X64Flags {
    /// No flag set.
    pub fn empty() -> (f: Self)
        ensures
            f.bits == 0,
    {
        X64Flags { bits: 0 }
    }

    /// Every named flag set.
    pub fn all() -> (f: Self)
        ensures
            f.bits == ALL,
    {
        X64Flags { bits: ALL }
    }

    /// The flags of a raw register value; bits without a name are kept.
    pub fn from_bits_retain(bits: u32) -> (f: Self)
        ensures
            f.bits == bits,
    {
        X64Flags { bits }
    }

    /// The raw register value.
    pub fn bits(&self) -> (bits: u32)
        ensures
            bits == self.bits,
    {
        self.bits
    }

    /// Whether every bit of `flag` is set.
    pub fn contains(&self, flag: u32) -> (r: bool)
        ensures
            r == (self.bits & flag == flag),
    {
        self.bits & flag == flag
    }

    /// The named flags, lowest bit first.
    pub open spec fn named() -> Seq<(&'static str, u32)> {
        seq![
            ("CARRY", CARRY),
            ("PARITY", PARITY),
            ("AUXILIARY_CARRY", AUXILIARY_CARRY),
            ("ZERO", ZERO),
            ("SIGN", SIGN),
            ("TRAP", TRAP),
            ("INTERRUPT_EN", INTERRUPT_EN),
            ("DIRECTION", DIRECTION),
            ("OVERFLOW", OVERFLOW),
            ("IOPL_0", IOPL_0),
            ("IOPL_1", IOPL_1),
            ("NESTED_TASK", NESTED_TASK),
            ("RESUME", RESUME),
            ("VIRTUAL_8086", VIRTUAL_8086),
        ]
    }

    /// The named flags, lowest bit first.
    pub fn names() -> (names: Vec<(&'static str, u32)>)
        ensures
            names@ == Self::named(),
    {
        let mut names: Vec<(&'static str, u32)> = Vec::new();
        names.push(("CARRY", CARRY));
        names.push(("PARITY", PARITY));
        names.push(("AUXILIARY_CARRY", AUXILIARY_CARRY));
        names.push(("ZERO", ZERO));
        names.push(("SIGN", SIGN));
        names.push(("TRAP", TRAP));
        names.push(("INTERRUPT_EN", INTERRUPT_EN));
        names.push(("DIRECTION", DIRECTION));
        names.push(("OVERFLOW", OVERFLOW));
        names.push(("IOPL_0", IOPL_0));
        names.push(("IOPL_1", IOPL_1));
        names.push(("NESTED_TASK", NESTED_TASK));
        names.push(("RESUME", RESUME));
        names.push(("VIRTUAL_8086", VIRTUAL_8086));
        assert(names@ =~= Self::named());
        names
    }
}

/// The registers of x86-64 after a step.
#[derive(Clone, Copy, Debug, PartialEq, Eq)]
pub struct X64State {
    pub regs: [u64; 16],
    pub pc: u64,
    pub flags: X64Flags,
}

/// The value of the register with the disassembler's number `id`: that of
/// the full register it is a part of. The instruction pointer reads as the
/// program counter. Registers outside the snapshot have no value.
pub open spec fn reg_value(regs: Seq<u64>, pc: u64, id: u16) -> Option<u64> {
    if exists|r: X64Reg| r.num_of() == id {
        let r = choose|r: X64Reg| r.num_of() == id;
        if r.canonical_of() == X64Reg::Rip {
            Some(pc)
        } else {
            match r.canonical_of().idx_of() {
                Some(i) => Some(regs[i as int]),
                None => None,
            }
        }
    } else {
        None
    }
}

/// The value of an operand's register: that of the register, or zero where
/// the operand has none.
pub open spec fn part_value(regs: Seq<u64>, pc: u64, id: u16) -> Option<u64> {
    match reg_value(regs, pc, id) {
        Some(v) => Some(v),
        None => if id == 0 {
            Some(0)
        } else {
            None
        },
    }
}

/// Where a call through `operand` goes to, read from the registers of the
/// call's own step.
pub open spec fn call_target(regs: Seq<u64>, pc: u64, operand: Operand) -> Option<u64> {
    match operand {
        Operand::Reg(id) => reg_value(regs, pc, id),
        Operand::Imm(imm) => Some(imm as u64),
        Operand::Mem { segment, base, index, scale, disp } => if segment != 0 {
            None
        } else {
            match (part_value(regs, pc, base), part_value(regs, pc, index)) {
                (Some(b), Some(i)) => Some((b + i * scale + disp) as u64),
                _ => None,
            }
        },
        Operand::Other => None,
    }
}

/// The branch that an instruction is, given the registers of its step.
///
/// A call has one operand; it returns to the address behind the call.
/// An instruction that is marked both as call and as return, a call with
/// another number of operands, one whose target cannot be read and one at
/// the very end of the address space are not classified.
pub open spec fn branch_of(
    regs: Seq<u64>,
    pc: u64,
    address: u64,
    len: usize,
    operands: Seq<Operand>,
    call: bool,
    ret: bool,
) -> Option<Branching> {
    if call && ret {
        None
    } else if call {
        if operands.len() != 1 || address + len > u64::MAX {
            None
        } else {
            match call_target(regs, pc, operands[0]) {
                Some(target) => Some(Branching::Call(target, (address + len) as u64)),
                None => None,
            }
        }
    } else if ret {
        Some(Branching::Return)
    } else {
        None
    }
}

impl State for X64State {
    open spec fn pc_of(&self) -> u64 {
        self.pc
    }

    open spec fn regs_of(&self) -> Seq<u64> {
        self.regs@
    }

    open spec fn flag_bits(&self) -> u32 {
        self.flags.bits
    }

    open spec fn named_flags() -> Seq<(&'static str, u32)> {
        X64Flags::named()
    }

    open spec fn count() -> nat {
        16
    }

    open spec fn reg_name(i: int) -> Seq<char> {
        place_name(i)
    }

    fn pc(&self) -> (pc: u64) {
        self.pc
    }

    fn regs(&self) -> (regs: &[u64]) {
        self.regs.as_slice()
    }

    fn flags(&self) -> (bits: u32) {
        self.flags.bits
    }

    fn register_count() -> (n: usize) {
        REGISTERS
    }

    fn reg_name_idx(i: usize) -> (name: &'static str) {
        match X64Reg::from_idx(i) {
            Some(r) => {
                proof {
                    let other = choose|r: X64Reg| r.idx_of() == Some(i);
                    lemma_place_decides(r, other);
                }
                r.as_str()
            },
            None => "",
        }
    }

    fn flag_names() -> (names: Vec<(&'static str, u32)>) {
        X64Flags::names()
    }
}

impl X64State {
    /// The value of the register with the disassembler's number `reg_id`.
    pub fn read_reg(&self, reg_id: u16) -> (r: Option<u64>)
        ensures
            r == reg_value(self.regs@, self.pc, reg_id),
    {
        let reg = match X64Reg::from_num(reg_id) {
            Some(reg) => reg,
            None => {
                return None;
            },
        };
        proof {
            let chosen = choose|r: X64Reg| r.num_of() == reg_id;
            lemma_num_decides(reg, chosen);
        }
        let reg = reg.canonical();
        if reg == X64Reg::Rip {
            return Some(self.pc);
        }
        match reg.idx() {
            Some(i) => Some(self.regs[i]),
            None => None,
        }
    }

    fn read_part(&self, reg_id: u16) -> (r: Option<u64>)
        ensures
            r == part_value(self.regs@, self.pc, reg_id),
    {
        match self.read_reg(reg_id) {
            Some(v) => Some(v),
            None => if reg_id == 0 {
                Some(0)
            } else {
                None
            },
        }
    }

    /// The snapshot that a register message holds. Fails unless the message
    /// has sixteen registers. Of the flags, the low 32 bits are kept.
    pub fn try_from(value: RegisterMessage) -> (r: Result<Self, StepError>)
        ensures
            match r {
                Ok(state) => value.regs@.len() == REGISTERS && state.regs@ == value.regs@
                    && state.pc == value.pc && state.flags.bits == value.flags as u32,
                Err(e) => value.regs@.len() != REGISTERS && e == StepError::RegisterCount(
                    value.regs@.len() as usize,
                ),
            },
    {
        if value.regs.len() != REGISTERS {
            return Err(StepError::RegisterCount(value.regs.len()));
        }
        let mut regs = [0u64;16];
        let mut i: usize = 0;
        while i < REGISTERS
            invariant
                i <= REGISTERS,
                value.regs@.len() == REGISTERS,
                forall|j: int| 0 <= j < i ==> regs@[j] == value.regs@[j],
            decreases REGISTERS - i,
        {
            regs[i] = value.regs[i];
            i += 1;
        }
        assert(regs@ =~= value.regs@);
        Ok(
            X64State {
                regs,
                pc: value.pc,
                flags: X64Flags::from_bits_retain(#[verifier::truncate] (value.flags as u32)),
            },
        )
    }
}

/// The name of the register at place `i` of a snapshot.
pub open spec fn place_name(i: int) -> Seq<char> {
    (choose|r: X64Reg| r.idx_of() == Some(i as usize)).name()
}

/// Two registers with the same place in the snapshot are the same register.
pub proof fn lemma_place_decides(a: X64Reg, b: X64Reg)
    requires
        a.idx_of() is Some,
        a.idx_of() == b.idx_of(),
    ensures
        a == b,
{
}

/// Two registers with the same number are the same register.
pub proof fn lemma_num_decides(a: X64Reg, b: X64Reg)
    requires
        a.num_of() == b.num_of(),
    ensures
        a == b,
{
}

/// One step of an x86-64 trace.
#[derive(Clone, Debug)]
pub struct X64Step {
    state: X64State,
    code: Vec<u8>,
    address: u64,
    strace: Option<String>,
    memory_ops: Vec<MemoryOp>,
}

impl View for X64Step {
    type V = StepView;

    closed spec fn view(&self) -> StepView {
        StepView {
            address: self.address,
            code: self.code@,
            pc: self.state.pc,
            flags: self.state.flags.bits as u64,
            regs: self.state.regs@,
            strace: match self.strace {
                Some(text) => Some(text@),
                None => None,
            },
            memory_ops: self.memory_ops@,
        }
    }
}

/// The x86-64 step that a step of any architecture is, if it has sixteen
/// registers; of the flags the low 32 bits are kept.
pub open spec fn shaped(generic: StepView) -> Result<StepView, StepError> {
    if generic.regs.len() == REGISTERS {
        Ok(StepView { flags: (generic.flags as u32) as u64, ..generic })
    } else {
        Err(StepError::RegisterCount(generic.regs.len() as usize))
    }
}

impl Step for X64Step {
    type STATE = X64State;

    type INSTRUMENT = X64Instrument;

    open spec fn summary(&self) -> StepView {
        self@
    }

    open spec fn branch(&self, insn: &Instruction) -> Option<Branching> {
        branch_of(
            self@.regs,
            self@.pc,
            insn.address,
            insn.len,
            insn.operands@,
            insn.marked_call(),
            insn.marked_ret(),
        )
    }

    fn arch(&self) -> (arch: Arch) {
        Arch::X86_64
    }

    open spec fn architecture() -> Arch {
        Arch::X86_64
    }

    fn code(&self) -> (code: &[u8]) {
        self.code.as_slice()
    }

    fn state(&self) -> (state: &X64State) {
        &self.state
    }

    fn address(&self) -> (address: u64) {
        self.address
    }

    fn strace(&self) -> (text: Option<&str>) {
        match &self.strace {
            Some(text) => Some(text.as_str()),
            None => None,
        }
    }

    fn memory_ops(&self) -> (ops: &[MemoryOp]) {
        self.memory_ops.as_slice()
    }

    fn instrument(&self) -> (i: X64Instrument) {
        X64Instrument { step: self.clone_step() }
    }
}

impl X64Step {
    fn clone_step(&self) -> (copy: Self)
        ensures
            copy@ == self@,
    {
        X64Step {
            state: self.state,
            code: vstd::slice::slice_to_vec(self.code.as_slice()),
            address: self.address,
            strace: match &self.strace {
                Some(text) => Some(text.clone()),
                None => None,
            },
            memory_ops: vstd::slice::slice_to_vec(self.memory_ops.as_slice()),
        }
    }

    /// The x86-64 step that a step of any architecture is.
    pub fn from_generic(generic: GenericStep) -> (r: Result<Self, StepError>)
        ensures
            r matches Ok(step) ==> shaped(generic@) == Ok::<StepView, StepError>(step@),
            r matches Err(e) ==> shaped(generic@) == Err::<StepView, StepError>(e),
    {
        let GenericStep { state, code, address, strace, memory_ops } = generic;
        let state = match X64State::try_from(state) {
            Ok(state) => state,
            Err(e) => {
                return Err(e);
            },
        };
        Ok(X64Step { state, code, address, strace, memory_ops })
    }

    /// The step that a batch of messages describes.
    pub fn try_from(input: &[Message]) -> (r: Result<Self, StepError>)
        ensures
            match assembled(views(input@)) {
                Ok(generic) => {
                    &&& r matches Ok(step) ==> shaped(generic) == Ok::<StepView, StepError>(step@)
                    &&& r matches Err(e) ==> shaped(generic) == Err::<StepView, StepError>(e)
                },
                Err(e) => r matches Err(f) && f == e,
            },
    {
        match GenericStep::try_from(input) {
            Ok(generic) => Self::from_generic(generic),
            Err(e) => Err(e),
        }
    }
}

/// Classifies the instruction of an x86-64 step.
pub struct X64Instrument {
    pub step: X64Step,
}

impl Instrument for X64Instrument {
    open spec fn classifies(&self, insn: &Instruction) -> Option<Branching> {
        branch_of(
            self.step@.regs,
            self.step@.pc,
            insn.address,
            insn.len,
            insn.operands@,
            insn.marked_call(),
            insn.marked_ret(),
        )
    }

    /// Every instruction is answered. An instruction that is marked both
    /// as call and as return, a call with another number of operands than
    /// one, and a call whose target cannot be read from its operand are
    /// answered as neither: what the disassembler says of an instruction
    /// is not known before it is asked, and an instruction that is not
    /// classified only leaves the call depth as it is.
    fn recover_branch(&self, insn: &Instruction) -> (r: Option<Branching>)
    {
        let is_call_insn = insn.is_call();
        let is_ret_insn = insn.is_ret();
        if is_call_insn && is_ret_insn {
            return None;
        }
        if is_call_insn {
            if insn.operands.len() != 1 || insn.len as u128 + insn.address as u128 > u64::MAX as u128 {
                return None;
            }
            let return_address = insn.address + insn.len as u64;
            let state = &self.step.state;
            match insn.operands[0] {
                Operand::Reg(reg) => match state.read_reg(reg) {
                    Some(address) => Some(Branching::Call(address, return_address)),
                    None => None,
                },
                Operand::Imm(imm) => Some(Branching::Call(imm as u64, return_address)),
                Operand::Mem { segment, base, index, scale, disp } => {
                    if segment != 0 {
                        return None;
                    }
                    let base = match state.read_part(base) {
                        Some(v) => v,
                        None => {
                            return None;
                        },
                    };
                    let index = match state.read_part(index) {
                        Some(v) => v,
                        None => {
                            return None;
                        },
                    };
                    assert(-0x8000_0000_0000_0000_0000_0000 <= index as int * scale as int
                        <= 0x8000_0000_0000_0000_0000_0000) by (nonlinear_arith)
                        requires
                            0 <= index as int <= 0xffff_ffff_ffff_ffff,
                            -0x8000_0000 <= scale as int <= 0x7fff_ffff,
                    ;
                    let target: i128 = base as i128 + index as i128 * scale as i128 + disp as i128;
                    Some(Branching::Call(target as u64, return_address))
                },
                Operand::Other => None,
            }
        } else if is_ret_insn {
            Some(Branching::Return)
        } else {
            None
        }
    }
}

} // verus!
