//! Disassembly, and what the analysis reads of a disassembled instruction.
//!
//! The disassembler is capstone. It hands over an instruction with its
//! groups and registers as numbers; here the numbers become groups and
//! registers that do not depend on the disassembler.

pub mod groups;
pub mod regs;

use crate::arch::Arch;
use capstone::arch::arm64::Arm64OperandType;
use capstone::arch::x86::X86OperandType;
use capstone::arch::{ArchOperand, BuildsCapstone, DetailsArchInsn};
use capstone::Capstone;
use groups::Group;
use regs::Reg;
use vstd::prelude::*;

verus! {

/// An operand of an instruction, as far as the analysis reads it.
#[derive(Clone, Copy, Debug, PartialEq, Eq, Structural)]
pub enum Operand {
    /// A register, by the disassembler's number.
    Reg(u16),
    /// An immediate value.
    Imm(i64),
    /// A memory operand: segment, base and index registers by number (0 where
    /// there is none), the scale of the index, and the displacement.
    Mem { segment: u16, base: u16, index: u16, scale: i32, disp: i64 },
    /// An operand of a kind that no branch goes through.
    Other,
}

/// An instruction as the disassembler hands it over.
#[derive(Clone, Debug)]
pub struct RawInstruction {
    pub len: usize,
    pub address: u64,
    pub read: Vec<u16>,
    pub write: Vec<u16>,
    pub mnemonic: Option<String>,
    pub op_str: Option<String>,
    pub operands: Vec<Operand>,
    pub groups: Vec<u8>,
}

/// A disassembled instruction.
#[derive(Clone, Debug)]
pub struct Instruction {
    pub len: usize,
    pub address: u64,
    /// The registers that the instruction reads.
    pub read: Vec<Reg>,
    /// The registers that the instruction writes.
    pub write: Vec<Reg>,
    pub mnemonic: Option<String>,
    pub op_str: Option<String>,
    pub operands: Vec<Operand>,
    pub groups: Vec<Group>,
}

/// Why an instruction could not be taken over.
#[derive(Clone, Copy, Debug, PartialEq, Eq, Structural)]
pub enum DisError {
    /// The disassembler failed, or found no instruction in the bytes.
    Capstone,
    /// The disassembler named a group that is not known.
    NoGroup(u8),
    /// The disassembler named a register that is not known.
    NoReg(u16),
}

/// The number is that of a group of the architecture.
pub open spec fn known_group(arch: Arch, num: u8) -> bool {
    exists|g: Group| g.arch_of() == arch && g.num_of() == num
}

/// The number is that of a register of the architecture.
pub open spec fn known_reg(arch: Arch, num: u16) -> bool {
    exists|r: Reg| r.arch_of() == arch && r.num_of() == num
}

/// The groups are those of the numbers, one for one.
pub open spec fn groups_match(arch: Arch, groups: Seq<Group>, nums: Seq<u8>) -> bool {
    &&& groups.len() == nums.len()
    &&& forall|i: int|
        0 <= i < groups.len() ==> (#[trigger] groups[i]).arch_of() == arch && groups[i].num_of()
            == nums[i]
}

/// The registers are those of the numbers, one for one.
pub open spec fn regs_match(arch: Arch, regs: Seq<Reg>, nums: Seq<u16>) -> bool {
    &&& regs.len() == nums.len()
    &&& forall|i: int|
        0 <= i < regs.len() ==> (#[trigger] regs[i]).arch_of() == arch && regs[i].num_of()
            == nums[i]
}

/// Every number before `upto` is that of a group of the architecture.
pub open spec fn groups_known(arch: Arch, nums: Seq<u8>, upto: int) -> bool {
    forall|i: int| 0 <= i < upto ==> known_group(arch, #[trigger] nums[i])
}

/// Every number before `upto` is that of a register of the architecture.
pub open spec fn regs_known(arch: Arch, nums: Seq<u16>, upto: int) -> bool {
    forall|i: int| 0 <= i < upto ==> known_reg(arch, #[trigger] nums[i])
}

/// The number `n` is the first among `nums` that is of no group of the architecture.
pub open spec fn first_unknown_group(arch: Arch, nums: Seq<u8>, n: u8) -> bool {
    exists|i: int|
        0 <= i < nums.len() && #[trigger] nums[i] == n && !known_group(arch, n) && groups_known(
            arch,
            nums,
            i,
        )
}

/// The number `n` is the first among `nums` that is of no register of the architecture.
pub open spec fn first_unknown_reg(arch: Arch, nums: Seq<u16>, n: u16) -> bool {
    exists|i: int|
        0 <= i < nums.len() && #[trigger] nums[i] == n && !known_reg(arch, n) && regs_known(
            arch,
            nums,
            i,
        )
}

/// Why an instruction is not taken over: for its first unknown group or,
/// if all groups are known, for the first unknown register that it reads
/// or, if those are known too, that it writes.
pub open spec fn refused(arch: Arch, raw: RawInstruction, e: DisError) -> bool {
    match e {
        DisError::NoGroup(n) => first_unknown_group(arch, raw.groups@, n),
        DisError::NoReg(n) => groups_known(arch, raw.groups@, raw.groups@.len() as int) && (
        first_unknown_reg(arch, raw.read@, n) || (regs_known(
            arch,
            raw.read@,
            raw.read@.len() as int,
        ) && first_unknown_reg(arch, raw.write@, n))),
        DisError::Capstone => false,
    }
}

fn map_groups(arch: Arch, nums: &Vec<u8>) -> (r: Result<Vec<Group>, DisError>)
    ensures
        r matches Ok(groups) ==> groups_match(arch, groups@, nums@),
        r matches Err(e) ==> e matches DisError::NoGroup(n) && first_unknown_group(arch, nums@, n),
{
    let mut groups: Vec<Group> = Vec::new();
    let mut i: usize = 0;
    while i < nums.len()
        invariant
            i <= nums.len(),
            groups_match(arch, groups@, nums@.subrange(0, i as int)),
            groups_known(arch, nums@, i as int),
        decreases nums.len() - i,
    {
        match Group::from_num(arch, nums[i]) {
            Some(g) => {
                groups.push(g);
            },
            None => {
                assert(!known_group(arch, nums@[i as int]));
                assert(first_unknown_group(arch, nums@, nums@[i as int]));
                return Err(DisError::NoGroup(nums[i]));
            },
        }
        i += 1;
    }
    assert(nums@.subrange(0, i as int) =~= nums@);
    Ok(groups)
}

fn map_regs(arch: Arch, nums: &Vec<u16>) -> (r: Result<Vec<Reg>, DisError>)
    ensures
        r matches Ok(regs) ==> regs_match(arch, regs@, nums@),
        r matches Err(e) ==> e matches DisError::NoReg(n) && first_unknown_reg(arch, nums@, n),
{
    let mut regs: Vec<Reg> = Vec::new();
    let mut i: usize = 0;
    while i < nums.len()
        invariant
            i <= nums.len(),
            regs_match(arch, regs@, nums@.subrange(0, i as int)),
            regs_known(arch, nums@, i as int),
        decreases nums.len() - i,
    {
        match Reg::from_num(arch, nums[i]) {
            Some(r) => {
                regs.push(r);
            },
            None => {
                assert(!known_reg(arch, nums@[i as int]));
                assert(first_unknown_reg(arch, nums@, nums@[i as int]));
                return Err(DisError::NoReg(nums[i]));
            },
        }
        i += 1;
    }
    assert(nums@.subrange(0, i as int) =~= nums@);
    Ok(regs)
}

impl Instruction {
    /// Takes over an instruction from the disassembler: the numbers of its
    /// groups and registers become groups and registers of `arch`.
    ///
    /// Fails at the first unknown group; if all groups are known, at the first
    /// unknown register that is read, then at the first that is written.
    pub fn from_raw(arch: Arch, raw: RawInstruction) -> (r: Result<Instruction, DisError>)
        ensures
            r matches Ok(insn) ==> {
                &&& insn.len == raw.len
                &&& insn.address == raw.address
                &&& insn.mnemonic == raw.mnemonic
                &&& insn.op_str == raw.op_str
                &&& insn.operands == raw.operands
                &&& groups_match(arch, insn.groups@, raw.groups@)
                &&& regs_match(arch, insn.read@, raw.read@)
                &&& regs_match(arch, insn.write@, raw.write@)
            },
            r matches Err(e) ==> refused(arch, raw, e),
            r is Ok <==> groups_known(arch, raw.groups@, raw.groups@.len() as int) && regs_known(
                arch,
                raw.read@,
                raw.read@.len() as int,
            ) && regs_known(arch, raw.write@, raw.write@.len() as int),
    {
        let groups = match map_groups(arch, &raw.groups) {
            Ok(groups) => groups,
            Err(e) => {
                return Err(e);
            },
        };
        proof {
            lemma_groups_known(arch, groups@, raw.groups@);
        }
        let read = match map_regs(arch, &raw.read) {
            Ok(regs) => regs,
            Err(e) => {
                return Err(e);
            },
        };
        proof {
            lemma_regs_known(arch, read@, raw.read@);
        }
        let write = match map_regs(arch, &raw.write) {
            Ok(regs) => regs,
            Err(e) => {
                return Err(e);
            },
        };
        proof {
            lemma_regs_known(arch, write@, raw.write@);
        }
        Ok(
            Instruction {
                len: raw.len,
                address: raw.address,
                read,
                write,
                mnemonic: raw.mnemonic,
                op_str: raw.op_str,
                operands: raw.operands,
                groups,
            },
        )
    }

    /// One of the instruction's groups marks calls.
    pub open spec fn marked_call(&self) -> bool {
        exists|i: int| 0 <= i < self.groups@.len() && (#[trigger] self.groups@[i]).marks_call()
    }

    /// One of the instruction's groups marks returns.
    pub open spec fn marked_ret(&self) -> bool {
        exists|i: int| 0 <= i < self.groups@.len() && (#[trigger] self.groups@[i]).marks_ret()
    }

    /// Whether one of the instruction's groups marks calls.
    pub fn is_call(&self) -> (r: bool)
        ensures
            r == self.marked_call(),
    {
        let mut i: usize = 0;
        while i < self.groups.len()
            invariant
                i <= self.groups.len(),
                forall|j: int| 0 <= j < i ==> !(#[trigger] self.groups@[j]).marks_call(),
            decreases self.groups.len() - i,
        {
            if self.groups[i].is_call() {
                return true;
            }
            i += 1;
        }
        false
    }

    /// Whether one of the instruction's groups marks returns.
    pub fn is_ret(&self) -> (r: bool)
        ensures
            r == self.marked_ret(),
    {
        let mut i: usize = 0;
        while i < self.groups.len()
            invariant
                i <= self.groups.len(),
                forall|j: int| 0 <= j < i ==> !(#[trigger] self.groups@[j]).marks_ret(),
            decreases self.groups.len() - i,
        {
            if self.groups[i].is_ret() {
                return true;
            }
            i += 1;
        }
        false
    }
}

/// Numbers for which groups were found are known.
pub proof fn lemma_groups_known(arch: Arch, groups: Seq<Group>, nums: Seq<u8>)
    requires
        groups_match(arch, groups, nums),
    ensures
        groups_known(arch, nums, nums.len() as int),
{
    assert forall|i: int| 0 <= i < nums.len() implies known_group(arch, #[trigger] nums[i]) by {
        assert(groups[i].arch_of() == arch && groups[i].num_of() == nums[i]);
    }
}

/// Numbers for which registers were found are known.
pub proof fn lemma_regs_known(arch: Arch, regs: Seq<Reg>, nums: Seq<u16>)
    requires
        regs_match(arch, regs, nums),
    ensures
        regs_known(arch, nums, nums.len() as int),
{
    assert forall|i: int| 0 <= i < nums.len() implies known_reg(arch, #[trigger] nums[i]) by {
        assert(regs[i].arch_of() == arch && regs[i].num_of() == nums[i]);
    }
}


/// capstone's handle of a disassembler.
#[verifier::external_type_specification]
#[verifier::external_body]
pub struct ExCapstone(Capstone);

/// capstone's error.
#[verifier::external_type_specification]
#[verifier::external_body]
pub struct ExCapstoneError(capstone::Error);

/// Builds a capstone disassembler for AArch64 with instruction details:
/// `Capstone::new().arm64()`, with `mode`, `detail` and `build`. Nothing is
/// claimed of the result.
#[verifier::external_body]
fn capstone_arm64() -> Result<Capstone, capstone::Error> {
    Capstone::new().arm64().mode(capstone::arch::arm64::ArchMode::Arm).detail(true).build()
}

/// Builds a capstone disassembler for x86-64 with instruction details:
/// `Capstone::new().x86()`, with `mode`, `detail` and `build`. Nothing is
/// claimed of the result.
#[verifier::external_body]
fn capstone_x86_64() -> Result<Capstone, capstone::Error> {
    Capstone::new().x86().mode(capstone::arch::x86::ArchMode::Mode64).detail(true).build()
}

/// What capstone finds at the start of `code`, which stands at the address
/// `pc`, when it disassembles for `arch` with instruction details: the
/// first instruction as `Capstone::disasm_count` and `Capstone::insn_detail`
/// give it; `None` where either fails or there is no instruction.
pub uninterp spec fn capstone_first(arch: Arch, code: Seq<u8>, pc: u64) -> Option<RawInstruction>;

/// `found` holds what `raw` holds, its operands aside.
pub open spec fn same_but_operands(found: RawInstruction, raw: RawInstruction) -> bool {
    &&& found.len == raw.len
    &&& found.address == raw.address
    &&& found.mnemonic == raw.mnemonic
    &&& found.op_str == raw.op_str
    &&& found.read@ == raw.read@
    &&& found.write@ == raw.write@
    &&& found.groups@ == raw.groups@
}

/// Disassembles the first instruction of `code` with `Capstone::disasm_count`
/// and copies out what `Insn` and `Capstone::insn_detail` tell of it; the
/// operands are left empty. The contract only says that the outcome is
/// decided by the architecture of the disassembler, the bytes and the
/// address.
#[verifier::external_body]
fn first_instruction(dis: &Dis, code: &[u8], pc: u64) -> (r: Result<
    Option<RawInstruction>,
    capstone::Error,
>)
    ensures
        r matches Ok(Some(found)) ==> capstone_first(dis.arch, code@, pc) is Some
            && same_but_operands(found, capstone_first(dis.arch, code@, pc)->0),
        !(r matches Ok(Some(_))) ==> capstone_first(dis.arch, code@, pc) is None,
{
    let insns = dis.cs.disasm_count(code, pc, 1)?;
    let Some(insn) = insns.iter().next() else { return Ok(None) };
    let detail = dis.cs.insn_detail(insn)?;
    Ok(Some(RawInstruction {
        len: insn.len(),
        address: insn.address(),
        read: detail.regs_read().iter().map(|id| id.0).collect(),
        write: detail.regs_write().iter().map(|id| id.0).collect(),
        mnemonic: insn.mnemonic().map(str::to_string),
        op_str: insn.op_str().map(str::to_string),
        operands: Vec::new(),
        groups: detail.groups().iter().map(|id| id.0).collect(),
    }))
}

/// Disassembles the first instruction of `code` with `Capstone::disasm_count`
/// and copies out its operands, from `InsnDetail::arch_detail`, telling the
/// kinds of x86 operands apart. The contract only says that, for a
/// disassembler of x86-64, these are the operands of what capstone finds.
#[verifier::external_body]
fn x86_operands(dis: &Dis, code: &[u8], pc: u64) -> (r: Option<Vec<Operand>>)
    ensures
        dis.arch == Arch::X86_64 ==> (r is Some <==> capstone_first(dis.arch, code@, pc) is Some),
        dis.arch == Arch::X86_64 && r is Some ==> r->0@ == capstone_first(
            dis.arch,
            code@,
            pc,
        )->0.operands@,
{
    let insns = dis.cs.disasm_count(code, pc, 1).ok()?;
    let detail = dis.cs.insn_detail(insns.iter().next()?).ok()?;
    Some(detail.arch_detail().operands().iter().map(|o| match o {
        ArchOperand::X86Operand(o) => match o.op_type {
            X86OperandType::Reg(r) => Operand::Reg(r.0),
            X86OperandType::Imm(i) => Operand::Imm(i),
            X86OperandType::Mem(m) => Operand::Mem { segment: m.segment().0, base: m.base().0, index: m.index().0, scale: m.scale(), disp: m.disp() },
            X86OperandType::Invalid => Operand::Other,
        },
        _ => Operand::Other,
    }).collect())
}

/// Disassembles the first instruction of `code` with `Capstone::disasm_count`
/// and copies out its operands, from `InsnDetail::arch_detail`, telling
/// registers and immediates apart from the other kinds of AArch64
/// operands. The contract only says that, for a disassembler of AArch64,
/// these are the operands of what capstone finds.
#[verifier::external_body]
fn arm64_operands(dis: &Dis, code: &[u8], pc: u64) -> (r: Option<Vec<Operand>>)
    ensures
        dis.arch == Arch::ARM64 ==> (r is Some <==> capstone_first(dis.arch, code@, pc) is Some),
        dis.arch == Arch::ARM64 && r is Some ==> r->0@ == capstone_first(
            dis.arch,
            code@,
            pc,
        )->0.operands@,
{
    let insns = dis.cs.disasm_count(code, pc, 1).ok()?;
    let detail = dis.cs.insn_detail(insns.iter().next()?).ok()?;
    Some(detail.arch_detail().operands().iter().map(|o| match o {
        ArchOperand::Arm64Operand(o) => match o.op_type {
            Arm64OperandType::Reg(r) => Operand::Reg(r.0),
            Arm64OperandType::Imm(i) => Operand::Imm(i),
            _ => Operand::Other,
        },
        _ => Operand::Other,
    }).collect())
}

impl Arch {
    /// A capstone disassembler for this architecture, with instruction details.
    pub fn make_capstone(&self) -> Result<Capstone, capstone::Error> {
        match self {
            Arch::ARM64 => capstone_arm64(),
            Arch::X86_64 => capstone_x86_64(),
        }
    }
}

/// The disassembler of one architecture. It can only be made by `new`, so
/// its handle is one that capstone built for its architecture.
pub struct Dis {
    arch: Arch,
    cs: Capstone,
}

/// The instruction is what `raw` holds, with its numbers taken as groups
/// and registers of `arch`.
pub open spec fn taken(arch: Arch, insn: Instruction, raw: RawInstruction) -> bool {
    &&& insn.len == raw.len
    &&& insn.address == raw.address
    &&& insn.mnemonic == raw.mnemonic
    &&& insn.op_str == raw.op_str
    &&& insn.operands@ == raw.operands@
    &&& groups_match(arch, insn.groups@, raw.groups@)
    &&& regs_match(arch, insn.read@, raw.read@)
    &&& regs_match(arch, insn.write@, raw.write@)
}

/// Every group and register that `raw` names is known on `arch`.
pub open spec fn all_known(arch: Arch, raw: RawInstruction) -> bool {
    &&& groups_known(arch, raw.groups@, raw.groups@.len() as int)
    &&& regs_known(arch, raw.read@, raw.read@.len() as int)
    &&& regs_known(arch, raw.write@, raw.write@.len() as int)
}

impl Dis {
    /// The architecture that is disassembled.
    pub closed spec fn arch_of(&self) -> Arch {
        self.arch
    }

    /// The architecture that is disassembled.
    pub fn arch(&self) -> (arch: Arch)
        ensures
            arch == self.arch_of(),
    {
        self.arch
    }

    /// A disassembler for `arch`. Whether capstone can be had for it is
    /// capstone's to decide.
    pub fn new(arch: Arch) -> (r: Result<Dis, DisError>)
        ensures
            r matches Ok(dis) ==> dis.arch_of() == arch,
            r matches Err(e) ==> e == DisError::Capstone,
    {
        match arch.make_capstone() {
            Ok(cs) => Ok(Dis { arch, cs }),
            Err(_) => Err(DisError::Capstone),
        }
    }

    /// Disassembles the first instruction of `code`, which stands at the
    /// address `pc`.
    ///
    /// Gives what capstone finds, with the numbers of its groups and
    /// registers taken over as `Instruction::from_raw` says. Fails with
    /// `Capstone` where capstone fails or finds no instruction, else at the
    /// first group or register that is not known.
    pub fn disassemble_one(&self, code: &[u8], pc: u64) -> (r: Result<Instruction, DisError>)
        ensures
            match capstone_first(self.arch_of(), code@, pc) {
                None => r == Err::<Instruction, DisError>(DisError::Capstone),
                Some(raw) => {
                    &&& r is Ok <==> all_known(self.arch_of(), raw)
                    &&& r matches Ok(insn) ==> taken(self.arch_of(), insn, raw)
                    &&& r matches Err(e) ==> refused(self.arch_of(), raw, e)
                },
            },
    {
        let found = match first_instruction(self, code, pc) {
            Ok(Some(found)) => found,
            _ => {
                return Err(DisError::Capstone);
            },
        };
        let given = match self.arch {
            Arch::X86_64 => x86_operands(self, code, pc),
            Arch::ARM64 => arm64_operands(self, code, pc),
        };
        let operands = match given {
            Some(operands) => operands,
            None => {
                return Err(DisError::Capstone);
            },
        };
        let raw = RawInstruction {
            len: found.len,
            address: found.address,
            read: found.read,
            write: found.write,
            mnemonic: found.mnemonic,
            op_str: found.op_str,
            operands,
            groups: found.groups,
        };
        Instruction::from_raw(self.arch, raw)
    }
}

} // verus!
