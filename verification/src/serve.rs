//! What a finished analysis shows of its steps: one line for each step, and
//! on request the registers and memory accesses of one step.

use crate::analyzer::Analysis;
use crate::arch::Arch;
use crate::dis::regs::Reg;
use crate::dis::Instruction;
use crate::state::{MemoryOp, MemoryOpKind, State, Step};
use crate::syms::rendered;
use vstd::prelude::*;
use vstd::string::StringExecFns;

verus! {

/// The number of steps that are shown at once.
pub const CHUNK: usize = 100;

/// What is shown of one step.
#[derive(Debug, Clone, PartialEq, Eq)]
pub struct StepLine {
    /// The index of the step.
    pub i: usize,
    /// The address of the step.
    pub a: u64,
    /// The text of the instruction.
    pub c: String,
    /// The call depth at the step.
    pub d: usize,
    /// The symbol around the address; empty if there is none.
    pub s: String,
}

/// What is shown of the registers and memory accesses of one step.
#[derive(Debug, Clone, PartialEq, Eq)]
pub struct StepDetail {
    /// Name, value and marks of each register: `r` if the instruction
    /// reads it, `w` if it writes it.
    pub registers: Vec<(&'static str, u64, String)>,
    /// Address and value of each read.
    pub reads: Vec<(u64, u64)>,
    /// Address and value of each write.
    pub writes: Vec<(u64, u64)>,
}

/// The accesses of one direction among the first `upto`, as address and value.
pub open spec fn accesses(ops: Seq<MemoryOp>, kind: MemoryOpKind, upto: int) -> Seq<(u64, u64)>
    decreases upto,
{
    if upto <= 0 {
        Seq::empty()
    } else {
        let front = accesses(ops, kind, upto - 1);
        let op = ops[upto - 1];
        if op.kind == kind {
            front.push((op.address, op.value.value()))
        } else {
            front
        }
    }
}

/// The reads and the writes among some memory accesses, each in their order.
pub fn memory_accesses(ops: &[MemoryOp]) -> (r: (Vec<(u64, u64)>, Vec<(u64, u64)>))
    ensures
        r.0@ == accesses(ops@, MemoryOpKind::Read, ops@.len() as int),
        r.1@ == accesses(ops@, MemoryOpKind::Write, ops@.len() as int),
{
    let mut reads: Vec<(u64, u64)> = Vec::new();
    let mut writes: Vec<(u64, u64)> = Vec::new();
    let mut i: usize = 0;
    while i < ops.len()
        invariant
            i <= ops@.len(),
            reads@ == accesses(ops@, MemoryOpKind::Read, i as int),
            writes@ == accesses(ops@, MemoryOpKind::Write, i as int),
        decreases ops.len() - i,
    {
        let op = &ops[i];
        match op.kind {
            MemoryOpKind::Read => reads.push((op.address, op.value.as_u64())),
            MemoryOpKind::Write => writes.push((op.address, op.value.as_u64())),
        }
        i += 1;
    }
    (reads, writes)
}

/// How often one of the first `upto` registers is, in full, the register at
/// place `place` of a snapshot.
pub open spec fn touches(regs: Seq<Reg>, place: int, upto: int) -> nat
    decreases upto,
{
    if upto <= 0 {
        0
    } else {
        touches(regs, place, upto - 1) + (if regs[upto - 1].canonical_of().idx_of() == Some(
            place as usize,
        ) {
            1nat
        } else {
            0nat
        })
    }
}

/// A mark, repeated.
pub open spec fn repeated(mark: char, count: nat) -> Seq<char> {
    Seq::new(count, |i: int| mark)
}

/// The marks of the register at `place`: an `r` for every register read
/// that is a part of it, then a `w` for every one written.
pub open spec fn marks(insn: Instruction, place: int) -> Seq<char> {
    repeated('r', touches(insn.read@, place, insn.read@.len() as int)) + repeated(
        'w',
        touches(insn.write@, place, insn.write@.len() as int),
    )
}

/// Adds `mark` to the marks of every register of the snapshot that one of
/// `regs` is a part of.
fn mark_all(modifiers: &mut Vec<String>, regs: &Vec<Reg>, mark: &str)
    requires
        mark@.len() == 1,
    ensures
        final(modifiers)@.len() == old(modifiers)@.len(),
        forall|j: int|
            0 <= j < old(modifiers)@.len() ==> (#[trigger] final(modifiers)@[j])@ == old(
                modifiers,
            )@[j]@ + repeated(mark@[0], touches(regs@, j, regs@.len() as int)),
{
    let ghost before = modifiers@;
    let ghost c = mark@[0];
    assert(mark@ =~= seq![c]);
    let mut i: usize = 0;
    while i < regs.len()
        invariant
            i <= regs@.len(),
            mark@ == seq![c],
            c == mark@[0],
            modifiers@.len() == before.len(),
            forall|j: int|
                0 <= j < before.len() ==> (#[trigger] modifiers@[j])@ == before[j]@ + repeated(
                    c,
                    touches(regs@, j, i as int),
                ),
        decreases regs.len() - i,
    {
        let ghost now = modifiers@;
        match regs[i].canonical().idx() {
            Some(idx) => {
                if idx < modifiers.len() {
                    let mut text = String::new();
                    std::mem::swap(&mut text, &mut modifiers[idx]);
                    text.append(mark);
                    modifiers[idx] = text;
                    assert(modifiers@[idx as int]@ =~= before[idx as int]@ + repeated(
                        c,
                        touches(regs@, idx as int, i + 1),
                    ));
                }
            },
            None => {},
        }
        assert forall|j: int| 0 <= j < before.len() implies (#[trigger] modifiers@[j])@
            == before[j]@ + repeated(c, touches(regs@, j, i + 1)) by {
            if regs@[i as int].canonical_of().idx_of() != Some(j as usize) {
                assert(modifiers@[j] == now[j]);
            }
        }
        i += 1;
    }
}

/// The marks of the `count` registers of a snapshot for an instruction.
pub fn register_modifiers(insn: &Instruction, count: usize) -> (r: Vec<String>)
    ensures
        r@.len() == count,
        forall|j: int| 0 <= j < count ==> (#[trigger] r@[j])@ == marks(*insn, j),
{
    let mut modifiers: Vec<String> = Vec::new();
    let mut i: usize = 0;
    while i < count
        invariant
            i <= count,
            modifiers@.len() == i,
            forall|j: int| 0 <= j < i ==> (#[trigger] modifiers@[j])@ == Seq::<char>::empty(),
        decreases count - i,
    {
        modifiers.push(String::new());
        i += 1;
    }
    proof {
        reveal_strlit("r");
        reveal_strlit("w");
        assert("r"@ =~= seq!['r']);
        assert("w"@ =~= seq!['w']);
    }
    mark_all(&mut modifiers, &insn.read, "r");
    mark_all(&mut modifiers, &insn.write, "w");
    assert forall|j: int| 0 <= j < count implies (#[trigger] modifiers@[j])@ == marks(*insn, j) by {
        assert(Seq::<char>::empty() + repeated('r', touches(insn.read@, j, insn.read@.len() as int))
            =~= repeated('r', touches(insn.read@, j, insn.read@.len() as int)));
    }
    modifiers
}

/// `name` is the name of the register at `place` of a snapshot of `arch`.
pub open spec fn names_place(arch: Arch, place: int, name: Seq<char>) -> bool {
    exists|reg: Reg| reg.arch_of() == arch && reg.idx_of() == Some(place as usize) && reg.name() == name
}

impl<STEP: Step> Analysis<STEP> {
    /// The analysis holds one instruction, one note and one depth for every step.
    pub open spec fn complete(&self) -> bool {
        &&& self.insns@.len() == self.trace@.len()
        &&& self.instrumentations@.len() == self.trace@.len()
        &&& self.bt_lens@.len() == self.trace@.len()
    }

    /// What is shown of the step of index `i`.
    pub open spec fn line(&self, i: int) -> (int, u64, Seq<char>, int, Seq<char>) {
        let pc = self.trace@[i].summary().pc;
        (
            i,
            pc,
            self.instrumentations@[i].disassembly@,
            self.bt_lens@[i] as int,
            match self.table.resolve(pc) {
                Some((symbol, offset)) => rendered(symbol.name@, offset),
                None => Seq::empty(),
            },
        )
    }

    /// The line of one step: index, address, instruction text, call depth,
    /// and the symbol around the address.
    pub fn step_line(&self, i: usize) -> (r: Option<StepLine>)
        ensures
            match r {
                Some(l) => i < self.trace@.len() && self.complete() && (
                    l.i as int,
                    l.a,
                    l.c@,
                    l.d as int,
                    l.s@,
                ) == self.line(i as int),
                None => i >= self.trace@.len() || !self.complete(),
            },
    {
        if i >= self.trace.len() || self.insns.len() != self.trace.len()
            || self.instrumentations.len() != self.trace.len() || self.bt_lens.len()
            != self.trace.len() {
            return None;
        }
        let pc = self.trace[i].state().pc();
        let symbol = match self.table.lookup(pc) {
            Some(found) => found.to_string(),
            None => String::new(),
        };
        Some(
            StepLine {
                i,
                a: pc,
                c: self.instrumentations[i].disassembly.clone(),
                d: self.bt_lens[i],
                s: symbol,
            },
        )
    }

    /// The registers of the step of index `idx` with their names and marks,
    /// and its memory accesses.
    pub fn step_detail(&self, idx: usize, arch: Arch) -> (r: Option<StepDetail>)
        ensures
            r is Some <==> idx < self.trace@.len() && self.complete() && self.trace@[idx as int].summary().regs.len()
                == Reg::count(arch),
            r matches Some(d) ==> {
                let step = self.trace@[idx as int].summary();
                &&& d.registers@.len() == step.regs.len()
                &&& forall|j: int|
                    0 <= j < d.registers@.len() ==> {
                        &&& names_place(arch, j, (#[trigger] d.registers@[j]).0@)
                        &&& d.registers@[j].1 == step.regs[j]
                        &&& d.registers@[j].2@ == marks(self.insns@[idx as int], j)
                    }
                &&& d.reads@ == accesses(step.memory_ops, MemoryOpKind::Read, step.memory_ops.len() as int)
                &&& d.writes@ == accesses(
                    step.memory_ops,
                    MemoryOpKind::Write,
                    step.memory_ops.len() as int,
                )
            },
    {
        if idx >= self.trace.len() || self.insns.len() != self.trace.len()
            || self.instrumentations.len() != self.trace.len() || self.bt_lens.len()
            != self.trace.len() {
            return None;
        }
        let step = &self.trace[idx];
        let cur_regs = step.state().regs();
        let modifiers = register_modifiers(&self.insns[idx], cur_regs.len());
        let mut registers: Vec<(&'static str, u64, String)> = Vec::new();
        let mut j: usize = 0;
        while j < cur_regs.len()
            invariant
                j <= cur_regs@.len() == modifiers@.len(),
                idx < self.trace@.len(),
                cur_regs@ == self.trace@[idx as int].summary().regs,
                registers@.len() == j,
                forall|k: int|
                    0 <= k < j ==> {
                        &&& names_place(arch, k, (#[trigger] registers@[k]).0@)
                        &&& registers@[k].1 == cur_regs@[k]
                        &&& registers@[k].2 == modifiers@[k]
                    },
                j <= Reg::count(arch),
            decreases cur_regs.len() - j,
        {
            let name = match Reg::from_idx(arch, j) {
                Some(reg) => {
                    let name = reg.as_str();
                    assert(names_place(arch, j as int, name@));
                    name
                },
                None => {
                    assert(cur_regs@.len() > Reg::count(arch));
                    return None;
                },
            };
            let ghost before = registers@;
            registers.push((name, cur_regs[j], modifiers[j].clone()));
            assert forall|k: int| 0 <= k < j + 1 implies {
                &&& names_place(arch, k, (#[trigger] registers@[k]).0@)
                &&& registers@[k].1 == cur_regs@[k]
                &&& registers@[k].2 == modifiers@[k]
            } by {
                if k < j {
                    assert(registers@[k] == before[k]);
                }
            }
            j += 1;
        }
        if Reg::from_idx(arch, j).is_some() {
            return None;
        }
        let (reads, writes) = memory_accesses(step.memory_ops());
        Some(StepDetail { registers, reads, writes })
    }
}

} // verus!
