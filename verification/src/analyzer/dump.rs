//! One pass over a trace: memory history and call depth for every step.

use super::backtrace::{after_step, depths, stack_at, Backtrace};
use super::syscall::{captures, group_texts, regex_captures, Captures};
use super::Analysis;
use crate::dis::Instruction;
use crate::mem::byte::{accepts, history, store_outcome, stored, Histories, HistMem, OutOfOrderWrite};
use crate::mem::laws::{lemma_store_outcome, lemma_stored_history};
use crate::state::{
    Branching, Instrument, Instrumentation, MemoryOp, MemoryOpKind, MemoryValue, Step, StepView,
};
use crate::syms::{rendered, SymbolTable};
use crate::text::{hexadecimal, parse_u64, push_hex, spelled_u64};
use vstd::prelude::*;
use vstd::string::StringExecFns;

verus! {

/// Why a trace cannot be analysed.
#[derive(Debug, Clone, Copy, PartialEq, Eq, Structural)]
pub enum AnalysisError {
    /// There is not one instruction for every step.
    InstructionCount,
    /// There is not one disassembly text for every step.
    DisassemblyCount,
    /// The trace has more steps than there are ticks.
    TooLong,
}

/// A write that left no mark in the memory history, or not all of it.
#[derive(Debug, Clone, Copy, PartialEq, Eq, Structural)]
pub enum WriteFault {
    /// A byte of the write already had a younger version.
    OutOfOrder(OutOfOrderWrite),
    /// The write reaches beyond the end of the address space.
    BeyondAddressSpace { tick: u32, address: u64 },
}

/// What a memory access of a step at `tick` does to the memory: a write is
/// stored with its width, a read changes nothing.
pub open spec fn after_op(m: Histories, tick: u32, op: MemoryOp) -> Histories {
    if op.kind == MemoryOpKind::Write && op.address + op.value.width() <= u64::MAX + 1 {
        stored(m, tick, op.address as int, op.value.value() as nat, op.value.width())
    } else {
        m
    }
}

/// The fault of a memory access of a step at `tick`, if it has one.
pub open spec fn fault_of(m: Histories, tick: u32, op: MemoryOp) -> Option<WriteFault> {
    if op.kind != MemoryOpKind::Write {
        None
    } else if op.address + op.value.width() > u64::MAX + 1 {
        Some(WriteFault::BeyondAddressSpace { tick, address: op.address })
    } else {
        match store_outcome(m, tick, op.address as int, op.value.width()) {
            Ok(()) => None,
            Err(e) => Some(WriteFault::OutOfOrder(e)),
        }
    }
}

/// The memory after the accesses of a step at `tick`, in their order.
pub open spec fn after_ops(m: Histories, tick: u32, ops: Seq<MemoryOp>) -> Histories
    decreases ops.len(),
{
    if ops.len() == 0 {
        m
    } else {
        after_op(after_ops(m, tick, ops.drop_last()), tick, ops.last())
    }
}

/// The faults of the accesses of a step at `tick`, in their order.
pub open spec fn faults_of(m: Histories, tick: u32, ops: Seq<MemoryOp>) -> Seq<WriteFault>
    decreases ops.len(),
{
    if ops.len() == 0 {
        Seq::empty()
    } else {
        let front = faults_of(m, tick, ops.drop_last());
        match fault_of(after_ops(m, tick, ops.drop_last()), tick, ops.last()) {
            Some(f) => front.push(f),
            None => front,
        }
    }
}

/// What the pass knows after some steps.
pub struct Progress {
    /// The memory history.
    pub mem: Histories,
    /// The pending return addresses.
    pub stack: Seq<u64>,
    /// How the instruction of the last step branched.
    pub previous: Option<Branching>,
    /// The number of steps seen.
    pub ticks: nat,
    /// The call depth at each step.
    pub depths: Seq<usize>,
    /// The writes that the memory refused.
    pub faults: Seq<WriteFault>,
}

/// Before the first step.
pub open spec fn start() -> Progress {
    Progress {
        mem: Map::empty(),
        stack: Seq::empty(),
        previous: None,
        ticks: 0,
        depths: Seq::empty(),
        faults: Seq::empty(),
    }
}

/// The progress after one more step, whose instruction branches as `branch` says.
///
/// The step's writes go into the memory at the step's tick; the stack moves
/// on by the branch of the step before; the new depth is noted. A step beyond
/// the last tick stops the pass. The step stands at its program counter:
/// a step whose address is another is no step of a trace.
pub open spec fn advanced(p: Progress, step: StepView, branch: Option<Branching>) -> Result<
    Progress,
    AnalysisError,
> {
    if p.ticks > u32::MAX {
        Err(AnalysisError::TooLong)
    } else {
        let tick = p.ticks as u32;
        let stack = after_step(p.stack, p.previous, step.pc);
        Ok(
            Progress {
                mem: after_ops(p.mem, tick, step.memory_ops),
                stack,
                previous: branch,
                ticks: p.ticks + 1,
                depths: p.depths.push(stack.len() as usize),
                faults: p.faults + faults_of(p.mem, tick, step.memory_ops),
            },
        )
    }
}

/// The progress after a whole trace.
pub open spec fn analysed(steps: Seq<StepView>, branches: Seq<Option<Branching>>) -> Result<
    Progress,
    AnalysisError,
>
    recommends
        steps.len() == branches.len(),
    decreases steps.len(),
{
    if steps.len() == 0 {
        Ok(start())
    } else {
        match analysed(steps.drop_last(), branches.drop_last()) {
            Err(e) => Err(e),
            Ok(p) => advanced(p, steps.last(), branches[steps.len() - 1]),
        }
    }
}

/// The program counters of some steps.
pub open spec fn pcs(steps: Seq<StepView>) -> Seq<u64> {
    Seq::new(steps.len(), |i: int| steps[i].pc)
}

/// The pass keeps the stack of pending return addresses as the
/// reconstruction of the call depth says: at every step the stack is that
/// of the step before, moved on by the branch of the step before; the depth
/// noted for a step is the height of the stack at that step.
pub proof fn lemma_pass_follows_backtrace(steps: Seq<StepView>, branches: Seq<Option<Branching>>)
    requires
        steps.len() == branches.len(),
    ensures
        analysed(steps, branches) matches Ok(p) ==> {
            &&& p.ticks == steps.len()
            &&& p.stack == stack_at(branches, pcs(steps))
            &&& p.previous == (if steps.len() == 0 {
                None
            } else {
                branches.last()
            })
            &&& p.depths == depths(branches, pcs(steps))
        },
    decreases steps.len(),
{
    if steps.len() > 0 {
        let front = steps.drop_last();
        let turns = branches.drop_last();
        lemma_pass_follows_backtrace(front, turns);
        if let Ok(p) = analysed(steps, branches) {
            let before = analysed(front, turns)->Ok_0;
            assert(pcs(steps).drop_last() =~= pcs(front));
            assert(pcs(steps).last() == steps.last().pc);
            if steps.len() > 1 {
                assert(turns.last() == branches[steps.len() - 2]);
            }
            assert(p.stack == stack_at(branches, pcs(steps)));
            let all = depths(branches, pcs(steps));
            let shorter = depths(turns, pcs(front));
            assert forall|i: int| 0 <= i < p.depths.len() implies p.depths[i] == all[i] by {
                if i < front.len() {
                    assert(p.depths[i] == shorter[i]);
                    assert(turns.subrange(0, i + 1) =~= branches.subrange(0, i + 1));
                    assert(pcs(front).subrange(0, i + 1) =~= pcs(steps).subrange(0, i + 1));
                } else {
                    assert(branches.subrange(0, i + 1) =~= branches);
                    assert(pcs(steps).subrange(0, i + 1) =~= pcs(steps));
                }
            }
            assert(p.depths =~= all);
        }
    } else {
        assert(depths(branches, pcs(steps)) =~= Seq::<usize>::empty());
    }
}

/// No history of the memory has a version at `ticks` or later.
pub open spec fn before(m: Histories, ticks: nat) -> bool {
    forall|a: u64| m.contains_key(a) && m[a].len() > 0 ==> (#[trigger] m[a]).last().0 < ticks
}

/// None of the faults is a write that came out of order.
pub open spec fn in_order(faults: Seq<WriteFault>) -> bool {
    forall|i: int| 0 <= i < faults.len() ==> !(#[trigger] faults[i] is OutOfOrder)
}

/// A write of a step whose tick is not before any recorded version is not
/// refused as out of order, and leaves no version behind that is later than
/// the tick.
pub proof fn lemma_op_in_order(m: Histories, tick: u32, op: MemoryOp)
    requires
        before(m, (tick + 1) as nat),
    ensures
        before(after_op(m, tick, op), (tick + 1) as nat),
        !(fault_of(m, tick, op) matches Some(WriteFault::OutOfOrder(_))),
{
    if op.kind == MemoryOpKind::Write && op.address + op.value.width() <= u64::MAX + 1 {
        let width = op.value.width();
        let value = op.value.value() as nat;
        let after = after_op(m, tick, op);
        assert forall|a: int| op.address <= a < op.address + width implies accepts(
            #[trigger] history(m, a),
            tick,
        ) by {
            if m.contains_key(a as u64) && m[a as u64].len() > 0 {
                assert(m[a as u64].last().0 < tick + 1);
            }
        }
        lemma_store_outcome(m, tick, op.address, width);
        assert forall|a: u64| after.contains_key(a) && after[a].len() > 0 implies (
        #[trigger] after[a]).last().0 < tick + 1 by {
            lemma_stored_history(m, tick, op.address as int, value, width, a as int);
            if history(after, a as int) != history(m, a as int) {
                assert(accepts(history(m, a as int), tick));
            } else if m.contains_key(a) {
                assert(m[a].last().0 < tick + 1);
            }
        }
    }
}

/// The writes of one step are not refused as out of order, if no version
/// is recorded that is later than the step's tick.
pub proof fn lemma_ops_in_order(m: Histories, tick: u32, ops: Seq<MemoryOp>)
    requires
        before(m, (tick + 1) as nat),
    ensures
        before(after_ops(m, tick, ops), (tick + 1) as nat),
        in_order(faults_of(m, tick, ops)),
    decreases ops.len(),
{
    if ops.len() > 0 {
        lemma_ops_in_order(m, tick, ops.drop_last());
        lemma_op_in_order(after_ops(m, tick, ops.drop_last()), tick, ops.last());
    }
}

/// In a pass from the start of a trace the ticks only grow, so no write is
/// ever refused as out of order: the only writes left out of the memory
/// history are those that reach beyond the address space.
pub proof fn lemma_pass_in_order(steps: Seq<StepView>, branches: Seq<Option<Branching>>)
    requires
        steps.len() == branches.len(),
    ensures
        analysed(steps, branches) matches Ok(p) ==> before(p.mem, p.ticks) && in_order(p.faults),
    decreases steps.len(),
{
    if steps.len() > 0 {
        lemma_pass_in_order(steps.drop_last(), branches.drop_last());
        if let Ok(p) = analysed(steps, branches) {
            let q = analysed(steps.drop_last(), branches.drop_last())->Ok_0;
            let tick = q.ticks as u32;
            assert forall|a: u64| q.mem.contains_key(a) && q.mem[a].len() > 0 implies (
            #[trigger] q.mem[a]).last().0 < tick + 1 by {
                assert(q.mem[a].last().0 < q.ticks);
            }
            lemma_ops_in_order(q.mem, tick, steps.last().memory_ops);
        }
    }
}

/// The state of a pass over a trace.
pub struct Tracker {
    mem: HistMem,
    bt: Backtrace,
    previous: Option<Branching>,
    ticks: u64,
    depths: Vec<usize>,
    faults: Vec<WriteFault>,
}

impl View for Tracker {
    type V = Progress;

    closed spec fn view(&self) -> Progress {
        Progress {
            mem: self.mem@,
            stack: self.bt@,
            previous: self.previous,
            ticks: self.ticks as nat,
            depths: self.depths@,
            faults: self.faults@,
        }
    }
}

impl Tracker {
    /// The memory keeps its histories in order.
    pub closed spec fn wf(&self) -> bool {
        self.mem.wf()
    }

    /// A pass that has seen no step.
    pub fn new() -> (t: Self)
        ensures
            t@ == start(),
            t.wf(),
    {
        Tracker {
            mem: HistMem::new(),
            bt: Backtrace::new(),
            previous: None,
            ticks: 0,
            depths: Vec::new(),
            faults: Vec::new(),
        }
    }

    /// A pass that takes up a trace behind its first `skipped` steps, on a
    /// memory that holds what is known of them: no return address is
    /// pending, and the next step has the tick `skipped`.
    pub fn resume(mem: HistMem, skipped: u64) -> (t: Self)
        requires
            mem.wf(),
        ensures
            t@ == (Progress { mem: mem@, ticks: skipped as nat, ..start() }),
            t.wf(),
    {
        Tracker {
            mem,
            bt: Backtrace::new(),
            previous: None,
            ticks: skipped,
            depths: Vec::new(),
            faults: Vec::new(),
        }
    }

    /// The memory history so far.
    pub fn memory(&self) -> (mem: &HistMem)
        ensures
            mem@ == self@.mem,
            self.wf() ==> mem.wf(),
    {
        &self.mem
    }

    /// The call depth at each step so far.
    pub fn depths(&self) -> (depths: &Vec<usize>)
        ensures
            depths@ == self@.depths,
    {
        &self.depths
    }

    /// The writes that the memory refused so far.
    pub fn faults(&self) -> (faults: &Vec<WriteFault>)
        ensures
            faults@ == self@.faults,
    {
        &self.faults
    }

    /// Applies one memory access of the step at `tick`.
    fn apply(&mut self, tick: u32, op: &MemoryOp)
        requires
            old(self).wf(),
        ensures
            final(self).wf(),
            final(self).mem@ == after_op(old(self).mem@, tick, *op),
            final(self).faults@ == (match fault_of(old(self).mem@, tick, *op) {
                Some(f) => old(self).faults@.push(f),
                None => old(self).faults@,
            }),
            final(self).bt == old(self).bt,
            final(self).previous == old(self).previous,
            final(self).ticks == old(self).ticks,
            final(self).depths == old(self).depths,
    {
        match op.kind {
            MemoryOpKind::Read => {},
            MemoryOpKind::Write => {
                let width: u64 = match op.value {
                    MemoryValue::Byte(_) => 1,
                    MemoryValue::Word(_) => 2,
                    MemoryValue::Dword(_) => 4,
                    MemoryValue::Qword(_) => 8,
                };
                if op.address > u64::MAX - (width - 1) {
                    self.faults.push(WriteFault::BeyondAddressSpace { tick, address: op.address });
                } else {
                    let r = match op.value {
                        MemoryValue::Byte(b) => self.mem.store8(tick, op.address, b),
                        MemoryValue::Word(w) => self.mem.store16(tick, op.address, w),
                        MemoryValue::Dword(d) => self.mem.store32(tick, op.address, d),
                        MemoryValue::Qword(q) => self.mem.store64(tick, op.address, q),
                    };
                    if let Err(e) = r {
                        self.faults.push(WriteFault::OutOfOrder(e));
                    }
                }
            },
        }
    }

    /// Takes one more step into account, whose instruction branches as
    /// `branch` says. Gives the call depth at the step.
    ///
    /// The step stands at its program counter. A step whose address is
    /// another shows that the decoding has lost its place in the stream;
    /// nothing that follows can be trusted, and such a step is not taken.
    pub fn step(
        &mut self,
        address: u64,
        pc: u64,
        memory_ops: &[MemoryOp],
        branch: Option<Branching>,
    ) -> (r: Result<usize, AnalysisError>)
        requires
            old(self).wf(),
            address == pc,
        ensures
            final(self).wf(),
            match advanced(
                old(self)@,
                StepView {
                    address,
                    pc,
                    memory_ops: memory_ops@,
                    code: Seq::empty(),
                    flags: 0,
                    regs: Seq::empty(),
                    strace: None,
                },
                branch,
            ) {
                Ok(p) => final(self)@ == p && r == Ok::<usize, AnalysisError>(p.stack.len() as usize),
                Err(e) => final(self)@ == old(self)@ && r == Err::<usize, AnalysisError>(e),
            },
    {
        if self.ticks > 0xffff_ffff {
            return Err(AnalysisError::TooLong);
        }
        let tick = self.ticks as u32;
        let ghost before = self@;
        let mut i: usize = 0;
        while i < memory_ops.len()
            invariant
                i <= memory_ops@.len(),
                self.wf(),
                self.mem@ == after_ops(before.mem, tick, memory_ops@.subrange(0, i as int)),
                self.faults@ == before.faults + faults_of(
                    before.mem,
                    tick,
                    memory_ops@.subrange(0, i as int),
                ),
                self.bt@ == before.stack,
                self.previous == before.previous,
                self.ticks == before.ticks,
                self.depths@ == before.depths,
            decreases memory_ops.len() - i,
        {
            proof {
                let next = memory_ops@.subrange(0, i + 1);
                assert(next.drop_last() =~= memory_ops@.subrange(0, i as int));
                assert(next.last() == memory_ops@[i as int]);
            }
            let ghost faults_before = self.faults@;
            self.apply(tick, &memory_ops[i]);
            proof {
                let done = faults_of(before.mem, tick, memory_ops@.subrange(0, i as int));
                let next = faults_of(before.mem, tick, memory_ops@.subrange(0, i + 1));
                assert(self.faults@ =~= before.faults + next);
            }
            i += 1;
        }
        assert(memory_ops@.subrange(0, i as int) =~= memory_ops@);
        let depth = self.bt.update(self.previous, pc);
        self.previous = branch;
        self.ticks = self.ticks + 1;
        self.depths.push(depth);
        Ok(depth)
    }
}

/// The pattern of an operand text with an address in it: what stands
/// before the last `0x`, the hexadecimal digits behind it, and the rest.
pub const ADDRESS_PATTERN: &'static str = r"(.*)0x([0-9a-fA-F]*)(.*)";

/// How an address is shown: the symbol around it in angle brackets, or,
/// where there is none, the address in hexadecimal.
pub open spec fn address_text(table: SymbolTable, address: u64) -> Seq<char> {
    match table.resolve(address) {
        Some((symbol, offset)) => "<"@ + rendered(symbol.name@, offset) + ">"@,
        None => "0x"@ + hexadecimal(address as nat),
    }
}

/// The operand text with its address replaced by how the address is shown,
/// given the groups of the match of the address pattern. Nothing if the
/// groups are not those of the pattern, or the digits are no 64-bit address.
pub open spec fn symbolized(groups: Seq<Option<Seq<char>>>, table: SymbolTable) -> Option<
    Seq<char>,
> {
    if groups.len() == 4 && groups[1] is Some && groups[2] is Some && groups[3] is Some {
        match spelled_u64(groups[2]->0, 16) {
            Some(address) => Some(groups[1]->0 + address_text(table, address) + groups[3]->0),
            None => None,
        }
    } else {
        None
    }
}

/// The operand text as it is shown: with the symbol for its address, if
/// there is a table and the text holds an address; else as it is.
pub open spec fn operand_text(op: Seq<char>, table: Option<SymbolTable>) -> Seq<char> {
    match (table, regex_captures(ADDRESS_PATTERN@, op)) {
        (Some(t), Captures::Groups(groups)) => match symbolized(groups, t) {
            Some(text) => text,
            None => op,
        },
        _ => op,
    }
}

/// The text of an address: the symbol around it, or the address in hexadecimal.
pub fn show_address(table: &SymbolTable, address: u64) -> (text: String)
    ensures
        text@ == address_text(*table, address),
{
    match table.lookup(address) {
        Some(symbol) => {
            let inner = symbol.to_string();
            String::from_str("<").concat(inner.as_str()).concat(">")
        },
        None => {
            let mut text = String::from_str("0x");
            push_hex(&mut text, address);
            text
        },
    }
}

/// Replaces the address in an operand text by how the address is shown,
/// given the groups of the match of the address pattern.
pub fn symbolize(groups: &Vec<Option<String>>, table: &SymbolTable) -> (r: Option<String>)
    ensures
        match symbolized(group_texts(groups@), *table) {
            Some(text) => r matches Some(t) && t@ == text,
            None => r is None,
        },
{
    if groups.len() != 4 {
        return None;
    }
    match (&groups[1], &groups[2], &groups[3]) {
        (Some(first), Some(digits), Some(last)) => {
            assert(group_texts(groups@)[1] == Some(first@));
            assert(group_texts(groups@)[2] == Some(digits@));
            assert(group_texts(groups@)[3] == Some(last@));
            match parse_u64(digits.as_str(), 16) {
                Some(address) => {
                    let middle = show_address(table, address);
                    Some(first.clone().concat(middle.as_str()).concat(last.as_str()))
                },
                None => None,
            }
        },
        _ => {
            assert(group_texts(groups@)[1] is None || group_texts(groups@)[2] is None
                || group_texts(groups@)[3] is None);
            None
        },
    }
}

/// The text of an instruction: mnemonic and operands, with a symbol in
/// place of an address where the table has one. Nothing if the
/// disassembler gave no mnemonic or no operand text.
pub fn inst_to_str(insn: &Instruction, table: Option<&SymbolTable>) -> (r: Option<String>)
    ensures
        match (insn.mnemonic, insn.op_str) {
            (Some(mn), Some(op)) => r matches Some(text) && text@ == mn@ + " "@ + operand_text(
                op@,
                match table {
                    Some(t) => Some(*t),
                    None => None,
                },
            ),
            _ => r is None,
        },
{
    let mn = match &insn.mnemonic {
        Some(mn) => mn,
        None => {
            return None;
        },
    };
    let op = match &insn.op_str {
        Some(op) => op,
        None => {
            return None;
        },
    };
    let shown = match table {
        Some(table) => match captures(ADDRESS_PATTERN, op.as_str()) {
            Ok(Some(groups)) => match symbolize(&groups, table) {
                Some(text) => text,
                None => op.clone(),
            },
            _ => op.clone(),
        },
        None => op.clone(),
    };
    Some(mn.clone().concat(" ").concat(shown.as_str()))
}

/// Runs the analysis pass.
pub struct TraceDumper {
    /// Whether the steps are to be printed while they are analysed.
    pub print: bool,
}

/// What the steps of a trace hold.
pub open spec fn summaries<STEP: Step>(trace: Seq<STEP>) -> Seq<StepView> {
    Seq::new(trace.len(), |i: int| trace[i].summary())
}

/// How the instruction of each step branches.
pub open spec fn branches<STEP: Step>(trace: Seq<STEP>, insns: Seq<Instruction>) -> Seq<
    Option<Branching>,
> {
    Seq::new(trace.len(), |i: int| trace[i].branch(&insns[i]))
}

/// What is noted about each step: its branch and its disassembly.
pub open spec fn notes(
    branches: Seq<Option<Branching>>,
    disassembly: Seq<String>,
) -> Seq<Instrumentation> {
    Seq::new(
        branches.len(),
        |i: int| Instrumentation { branch: branches[i], disassembly: disassembly[i] },
    )
}

/// Every step stands at its program counter.
pub open spec fn synchronized<STEP: Step>(trace: Seq<STEP>) -> bool {
    forall|i: int|
        0 <= i < trace.len() ==> (#[trigger] trace[i]).summary().address == trace[i].summary().pc
}

/// The first step of a trace that does not stand at its program counter,
/// if there is one: there the decoding has lost its place in the stream.
pub fn first_desynchronized<STEP: Step>(trace: &Vec<STEP>) -> (r: Option<usize>)
    ensures
        r is None <==> synchronized(trace@),
        r matches Some(i) ==> i < trace@.len() && trace@[i as int].summary().address
            != trace@[i as int].summary().pc && synchronized(trace@.subrange(0, i as int)),
{
    let mut i: usize = 0;
    while i < trace.len()
        invariant
            i <= trace@.len(),
            synchronized(trace@.subrange(0, i as int)),
        decreases trace.len() - i,
    {
        let step = &trace[i];
        if step.address() != crate::state::State::pc(step.state()) {
            return Some(i);
        }
        proof {
            let next = trace@.subrange(0, i + 1);
            assert forall|j: int| 0 <= j < next.len() implies (#[trigger] next[j]).summary().address
                == next[j].summary().pc by {
                if j < i {
                    assert(next[j] == trace@.subrange(0, i as int)[j]);
                }
            }
        }
        i += 1;
    }
    assert(trace@.subrange(0, i as int) =~= trace@);
    None
}

/// The part of the progress that only the program counter and memory
/// accesses of a step decide.
pub proof fn lemma_advanced_reads(p: Progress, a: StepView, b: StepView, branch: Option<Branching>)
    requires
        a.pc == b.pc,
        a.memory_ops == b.memory_ops,
    ensures
        advanced(p, a, branch) == advanced(p, b, branch),
{
}

impl TraceDumper {
    /// Analyses a trace.
    ///
    /// `insns` holds the disassembled instruction of each step, and
    /// `disassembly` its text. Every step is classified as call, return or
    /// neither; its writes are recorded in the memory history at the tick
    /// that is the step's index; the call depth at the step is noted.
    ///
    /// Gives the analysis, the memory history, and the writes that the
    /// memory refused. Fails if the instructions or texts are not as many
    /// as the steps, and if there are more steps than ticks.
    ///
    /// Every step stands at its program counter. A trace with a step whose
    /// address is another is no trace: the decoding has lost its place in
    /// the stream, and nothing of it is analysed. `first_desynchronized`
    /// finds such a step.
    pub fn analyze<STEP: Step>(
        &self,
        trace: Vec<STEP>,
        insns: Vec<Instruction>,
        disassembly: Vec<String>,
        table: SymbolTable,
    ) -> (r: Result<(Analysis<STEP>, HistMem, Vec<WriteFault>), AnalysisError>)
        requires
            forall|i: int|
                0 <= i < trace@.len() ==> (#[trigger] trace@[i]).summary().address
                    == trace@[i].summary().pc,
        ensures
            insns@.len() != trace@.len() ==> r matches Err(AnalysisError::InstructionCount),
            insns@.len() == trace@.len() && disassembly@.len() != trace@.len() ==> r matches Err(
                AnalysisError::DisassemblyCount,
            ),
            insns@.len() == trace@.len() && disassembly@.len() == trace@.len() ==> match analysed(
                summaries(trace@),
                branches(trace@, insns@),
            ) {
                Err(e) => r == Err::<(Analysis<STEP>, HistMem, Vec<WriteFault>), AnalysisError>(e),
                Ok(p) => r matches Ok((analysis, mem, faults)) && {
                    &&& analysis.trace == trace
                    &&& analysis.insns == insns
                    &&& analysis.table == table
                    &&& analysis.instrumentations@ == notes(branches(trace@, insns@), disassembly@)
                    &&& analysis.bt_lens@ == p.depths
                    &&& mem@ == p.mem
                    &&& mem.wf()
                    &&& faults@ == p.faults
                },
            },
    {
        if insns.len() != trace.len() {
            return Err(AnalysisError::InstructionCount);
        }
        if disassembly.len() != trace.len() {
            return Err(AnalysisError::DisassemblyCount);
        }
        let ghost steps = summaries(trace@);
        let ghost turns = branches(trace@, insns@);
        let ghost texts = disassembly@;
        let mut remaining = disassembly;
        let mut tracker = Tracker::new();
        let mut instrumentations: Vec<Instrumentation> = Vec::new();
        let mut i: usize = 0;
        while i < trace.len()
            invariant
                i <= trace@.len(),
                insns@.len() == trace@.len(),
                texts == disassembly@,
                remaining@.len() == trace@.len(),
                texts.len() == trace@.len(),
                forall|j: int| i <= j < trace@.len() ==> remaining@[j] == texts[j],
                steps == summaries(trace@),
                synchronized(trace@),
                turns == branches(trace@, insns@),
                tracker.wf(),
                analysed(steps.subrange(0, i as int), turns.subrange(0, i as int)) == Ok::<
                    Progress,
                    AnalysisError,
                >(tracker@),
                instrumentations@ =~= notes(turns, texts).subrange(0, i as int),
            decreases trace.len() - i,
        {
            let step = &trace[i];
            let branch = step.instrument().recover_branch(&insns[i]);
            proof {
                let next = steps.subrange(0, i + 1);
                assert(next.drop_last() =~= steps.subrange(0, i as int));
                assert(turns.subrange(0, i + 1).drop_last() =~= turns.subrange(0, i as int));
                assert(next.last() == step.summary());
                assert(turns.subrange(0, i + 1)[i as int] == branch);
                lemma_advanced_reads(
                    tracker@,
                    step.summary(),
                    StepView {
                        address: step.summary().address,
                        pc: step.summary().pc,
                        memory_ops: step.summary().memory_ops,
                        code: Seq::empty(),
                        flags: 0,
                        regs: Seq::empty(),
                        strace: None,
                    },
                    branch,
                );
            }
            let pc = crate::state::State::pc(step.state());
            match tracker.step(step.address(), pc, step.memory_ops(), branch) {
                Ok(_) => {},
                Err(e) => {
                    proof {
                        lemma_analysed_fails(steps, turns, i + 1);
                    }
                    return Err(e);
                },
            }
            let mut text = String::new();
            std::mem::swap(&mut text, &mut remaining[i]);
            instrumentations.push(Instrumentation { branch, disassembly: text });
            i += 1;
        }
        assert(steps.subrange(0, i as int) =~= steps);
        assert(turns.subrange(0, i as int) =~= turns);
        let Tracker { mem, bt: _, previous: _, ticks: _, depths, faults } = tracker;
        Ok((Analysis { trace, insns, instrumentations, bt_lens: depths, table }, mem, faults))
    }
}

/// Once the pass has stopped at a step, it stays stopped with that error.
pub proof fn lemma_analysed_fails(
    steps: Seq<StepView>,
    branches: Seq<Option<Branching>>,
    upto: int,
)
    requires
        steps.len() == branches.len(),
        0 <= upto <= steps.len(),
        analysed(steps.subrange(0, upto), branches.subrange(0, upto)) is Err,
    ensures
        analysed(steps, branches) == analysed(steps.subrange(0, upto), branches.subrange(0, upto)),
    decreases steps.len() - upto,
{
    if upto < steps.len() {
        assert(steps.subrange(0, upto + 1).drop_last() =~= steps.subrange(0, upto));
        assert(branches.subrange(0, upto + 1).drop_last() =~= branches.subrange(0, upto));
        lemma_analysed_fails(steps, branches, upto + 1);
    } else {
        assert(steps.subrange(0, upto) =~= steps);
        assert(branches.subrange(0, upto) =~= branches);
    }
}

} // verus!
