use rebg::analyzer::backtrace::Backtrace;
use rebg::analyzer::dump::{
    first_desynchronized, inst_to_str, AnalysisError, TraceDumper, Tracker, WriteFault,
};
use rebg::arch::Arch;
use rebg::dis::groups::{Aarch64Group, Group, X64Group};
use rebg::dis::{DisError, Instruction, Operand, RawInstruction};
use rebg::mem::{HistMem, OutOfOrderWrite};
use rebg::serve::{memory_accesses, register_modifiers, StepDetail, StepLine};
use rebg::state::{
    Aarch64Step, Branching, Instrument, MemoryOp, MemoryOpKind, MemoryValue, Step, X64Step,
};
use rebg::syms::{Symbol, SymbolTable};
use rebg::tracer::parser::{Message, RegisterMessage};

#[test]
fn call_then_return_restores_the_depth() {
    let mut bt = Backtrace::new();
    assert_eq!(bt.update(None, 0x0c), 0);
    assert_eq!(bt.update(Some(Branching::Call(0x100, 0x10)), 0x100), 1);
    assert_eq!(bt.update(None, 0x104), 1);
    assert_eq!(bt.update(None, 0x108), 1);
    assert_eq!(bt.update(Some(Branching::Return), 0x10), 0);
    assert_eq!(bt.depth(), 0);
}

#[test]
fn invisible_call_keeps_the_depth() {
    let mut bt = Backtrace::new();
    assert_eq!(bt.update(None, 0x0c), 0);
    assert_eq!(bt.update(Some(Branching::Call(0x100, 0x10)), 0x10), 0);
    assert_eq!(bt.update(None, 0x14), 0);
}

#[test]
fn call_to_somewhere_else_than_its_target_still_counts() {
    let mut bt = Backtrace::new();
    assert_eq!(bt.update(Some(Branching::Call(0x100, 0x10)), 0x555), 1);
    assert_eq!(bt.update(None, 0x10), 0);
}

#[test]
fn return_skips_frames_that_returned_unseen() {
    let mut bt = Backtrace::new();
    bt.update(Some(Branching::Call(0x100, 0x10)), 0x100);
    bt.update(Some(Branching::Call(0x200, 0x110)), 0x200);
    assert_eq!(bt.update(Some(Branching::Call(0x300, 0x210)), 0x300), 3);
    assert_eq!(bt.update(Some(Branching::Return), 0x110), 1);
    assert_eq!(bt.update(Some(Branching::Return), 0x10), 0);
}

#[test]
fn return_to_an_unknown_address_changes_nothing() {
    let mut bt = Backtrace::new();
    bt.update(Some(Branching::Call(0x100, 0x10)), 0x100);
    assert_eq!(bt.update(Some(Branching::Return), 0x9999), 1);
    assert!(!bt.unwind(0x8888));
    assert_eq!(bt.depth(), 1);
    assert!(bt.unwind(0x10));
    assert_eq!(bt.depth(), 0);
}

#[test]
fn unseen_return_is_noticed_at_the_return_address() {
    let mut bt = Backtrace::new();
    bt.update(Some(Branching::Call(0x100, 0x10)), 0x100);
    assert_eq!(bt.update(None, 0x104), 1);
    assert_eq!(bt.update(None, 0x10), 0);
}

#[test]
fn recursion_unwinds_to_the_lowest_pending_frame() {
    let mut bt = Backtrace::new();
    bt.update(Some(Branching::Call(0x100, 0x10)), 0x100);
    bt.update(Some(Branching::Call(0x100, 0x10)), 0x100);
    assert_eq!(bt.update(Some(Branching::Call(0x100, 0x10)), 0x100), 3);
    assert_eq!(bt.update(Some(Branching::Return), 0x10), 0);
}

fn x64_step(address: u64, regs: [u64; 16], ops: Vec<Message>) -> X64Step {
    let mut msgs = vec![
        Message::Address(address),
        Message::Code(vec![0x90]),
        Message::Registers(RegisterMessage { pc: address, flags: 0, regs: regs.to_vec() }),
    ];
    msgs.extend(ops);
    X64Step::try_from(&msgs).unwrap()
}

fn insn(address: u64, len: usize, groups: Vec<Group>, operands: Vec<Operand>) -> Instruction {
    Instruction {
        len,
        address,
        read: vec![],
        write: vec![],
        mnemonic: Some("op".to_string()),
        op_str: Some("".to_string()),
        operands,
        groups,
    }
}

fn x64_call() -> Vec<Group> {
    vec![Group::X64Group(X64Group::Mode64), Group::X64Group(X64Group::Call)]
}

#[test]
fn x64_branches() {
    let mut regs = [0u64; 16];
    regs[0] = 0x7000; // rax
    regs[3] = 0x100; // rbx
    regs[1] = 0x10; // rcx
    let step = x64_step(0x400, regs, vec![]);

    let call = |operand| step.instrument().recover_branch(&insn(0x400, 5, x64_call(), vec![operand]));
    assert_eq!(call(Operand::Imm(0x1234)), Some(Branching::Call(0x1234, 0x405)));
    assert_eq!(call(Operand::Imm(-1)), Some(Branching::Call(u64::MAX, 0x405)));
    // rax is 35, eax 19, rip 41
    assert_eq!(call(Operand::Reg(35)), Some(Branching::Call(0x7000, 0x405)));
    assert_eq!(call(Operand::Reg(19)), Some(Branching::Call(0x7000, 0x405)));
    assert_eq!(call(Operand::Reg(41)), Some(Branching::Call(0x400, 0x405)));
    assert_eq!(call(Operand::Reg(122)), None);
    assert_eq!(call(Operand::Reg(0)), None);
    assert_eq!(call(Operand::Reg(9999)), None);
    assert_eq!(call(Operand::Other), None);
    // [rbx + rcx * 8 - 0x20]: rbx is 37, rcx 38
    assert_eq!(
        call(Operand::Mem { segment: 0, base: 37, index: 38, scale: 8, disp: -0x20 }),
        Some(Branching::Call(0x100 + 0x80 - 0x20, 0x405))
    );
    assert_eq!(
        call(Operand::Mem { segment: 0, base: 41, index: 0, scale: 1, disp: 0x2000 }),
        Some(Branching::Call(0x2400, 0x405))
    );
    assert_eq!(
        call(Operand::Mem { segment: 0, base: 0, index: 0, scale: 1, disp: -8 }),
        Some(Branching::Call(u64::MAX - 7, 0x405))
    );
    assert_eq!(
        call(Operand::Mem { segment: 32, base: 37, index: 0, scale: 1, disp: 0 }),
        None
    );
    assert_eq!(
        call(Operand::Mem { segment: 0, base: 122, index: 0, scale: 1, disp: 0 }),
        None
    );

    let ret = insn(0x400, 1, vec![Group::X64Group(X64Group::Ret)], vec![]);
    assert_eq!(step.instrument().recover_branch(&ret), Some(Branching::Return));
    let plain = insn(0x400, 1, vec![Group::X64Group(X64Group::Jump)], vec![Operand::Imm(1)]);
    assert_eq!(step.instrument().recover_branch(&plain), None);
    let both = insn(
        0x400,
        1,
        vec![Group::X64Group(X64Group::Ret), Group::X64Group(X64Group::Call)],
        vec![Operand::Imm(1)],
    );
    assert_eq!(step.instrument().recover_branch(&both), None);
    let two = insn(0x400, 5, x64_call(), vec![Operand::Imm(1), Operand::Imm(2)]);
    assert_eq!(step.instrument().recover_branch(&two), None);
    let at_end = insn(u64::MAX - 1, 5, x64_call(), vec![Operand::Imm(1)]);
    assert_eq!(step.instrument().recover_branch(&at_end), None);
    assert_eq!(step.instrument().recover_branch(&ret), Some(Branching::Return));
}

#[test]
fn aarch64_branches() {
    let mut regs = [0u64; 32];
    regs[8] = 0x8000;
    regs[30] = 0x3000;
    let msgs = vec![
        Message::Address(0x400),
        Message::Code(vec![0, 0, 0, 0]),
        Message::Registers(RegisterMessage { pc: 0x400, flags: 0, regs: regs.to_vec() }),
    ];
    let step = Aarch64Step::try_from(&msgs).unwrap();
    let call = |mnemonic: &str, operand| {
        let mut i = insn(0x400, 4, vec![Group::Aarch64Group(Aarch64Group::Call)], vec![operand]);
        i.mnemonic = Some(mnemonic.to_string());
        step.instrument().recover_branch(&i)
    };
    assert_eq!(call("bl", Operand::Imm(0x1234)), Some(Branching::Call(0x1234, 0x404)));
    assert_eq!(call("bl", Operand::Reg(226)), None);
    // x8 is 226, lr is 3, w8 is 195
    assert_eq!(call("blr", Operand::Reg(226)), Some(Branching::Call(0x8000, 0x404)));
    assert_eq!(call("blr", Operand::Reg(3)), Some(Branching::Call(0x3000, 0x404)));
    assert_eq!(call("blr", Operand::Reg(195)), None);
    assert_eq!(call("blr", Operand::Imm(1)), None);
    assert_eq!(call("blraa", Operand::Reg(226)), None);
    let mut nameless = insn(0x400, 4, vec![Group::Aarch64Group(Aarch64Group::Call)], vec![Operand::Imm(1)]);
    nameless.mnemonic = None;
    assert_eq!(step.instrument().recover_branch(&nameless), None);
    let ret = insn(0x400, 4, vec![Group::Aarch64Group(Aarch64Group::Return)], vec![]);
    assert_eq!(step.instrument().recover_branch(&ret), Some(Branching::Return));
    let plain = insn(0x400, 4, vec![], vec![]);
    assert_eq!(step.instrument().recover_branch(&plain), None);
}

#[test]
fn instruction_from_the_disassembler() {
    let raw = RawInstruction {
        len: 5,
        address: 0x400,
        read: vec![44],
        write: vec![44, 19],
        mnemonic: Some("call".to_string()),
        op_str: Some("0x1234".to_string()),
        operands: vec![Operand::Imm(0x1234)],
        groups: vec![2, 145],
    };
    let i = Instruction::from_raw(Arch::X86_64, raw.clone()).unwrap();
    assert_eq!(i.len, 5);
    assert_eq!(i.address, 0x400);
    assert_eq!(i.groups, vec![Group::X64Group(X64Group::Call), Group::X64Group(X64Group::Mode64)]);
    assert_eq!(i.read.len(), 1);
    assert_eq!(i.read[0].as_str(), "rsp");
    assert_eq!(i.write[1].as_str(), "eax");
    assert_eq!(i.write[1].canonical().idx(), Some(0));
    assert!(i.is_call());
    assert!(!i.is_ret());
    let mut bad = raw.clone();
    bad.groups = vec![2, 200];
    bad.read = vec![9999];
    assert_eq!(Instruction::from_raw(Arch::X86_64, bad).err(), Some(DisError::NoGroup(200)));
    let mut bad = raw.clone();
    bad.read = vec![44, 246];
    bad.write = vec![300];
    assert_eq!(Instruction::from_raw(Arch::X86_64, bad).err(), Some(DisError::NoReg(246)));
    let mut bad = raw.clone();
    bad.write = vec![0];
    assert_eq!(Instruction::from_raw(Arch::X86_64, bad).err(), Some(DisError::NoReg(0)));
    let on_arm = Instruction::from_raw(Arch::ARM64, raw.clone()).unwrap();
    assert_eq!(on_arm.groups[1], Group::Aarch64Group(Aarch64Group::Sve2Sha3));
    assert_eq!(on_arm.read[0].as_str(), "d1");
    let mut bad = raw;
    bad.groups = vec![2, 5];
    assert_eq!(Instruction::from_raw(Arch::ARM64, bad).err(), Some(DisError::NoGroup(5)));
}

fn store(adr: u64, value: u64, size: u8) -> Message {
    Message::Store(adr, value, size)
}

#[test]
fn analysis_of_a_small_trace() {
    let regs = [0u64; 16];
    let trace = vec![
        x64_step(0x0b, regs, vec![store(0x1000, 0x1122_3344_5566_7788, 8)]),
        x64_step(0x100, regs, vec![store(0x1004, 0xaabb, 2), Message::Load(0x1000, 1, 1)]),
        x64_step(0x101, regs, vec![]),
        x64_step(0x10, regs, vec![store(0x1000, 0xff, 1)]),
    ];
    let insns = vec![
        insn(0x0b, 5, x64_call(), vec![Operand::Imm(0x100)]),
        insn(0x100, 1, vec![], vec![]),
        insn(0x101, 1, vec![Group::X64Group(X64Group::Ret)], vec![]),
        insn(0x10, 1, vec![], vec![]),
    ];
    let texts = vec!["call 0x100".to_string(), "nop ".to_string(), "ret ".to_string(), "nop ".to_string()];
    let table = SymbolTable { symbols: vec![], offsets: vec![], fallback: None, binary_path: "/bin/a".to_string() };
    let (analysis, mem, faults) =
        TraceDumper { print: false }.analyze(trace, insns, texts, table).unwrap();
    assert_eq!(analysis.bt_lens, vec![0, 1, 1, 0]);
    assert_eq!(analysis.trace.len(), 4);
    assert_eq!(analysis.insns.len(), 4);
    assert_eq!(analysis.instrumentations.len(), 4);
    assert_eq!(analysis.instrumentations[0].branch, Some(Branching::Call(0x100, 0x10)));
    assert_eq!(analysis.instrumentations[0].disassembly, "call 0x100");
    assert_eq!(analysis.instrumentations[1].branch, None);
    assert_eq!(analysis.instrumentations[2].branch, Some(Branching::Return));
    assert_eq!(analysis.instrumentations[2].disassembly, "ret ");
    assert_eq!(analysis.table.binary_path, "/bin/a");
    assert!(faults.is_empty());
    assert_eq!(mem.load64(0, 0x1000), Some(0x1122_3344_5566_7788));
    assert_eq!(mem.load64(1, 0x1000), Some(0x1122_3344_aabb_7788));
    assert_eq!(mem.load64(2, 0x1000), Some(0x1122_3344_aabb_7788));
    assert_eq!(mem.load64(3, 0x1000), Some(0xff22_3344_aabb_7788));
    assert_eq!(mem.load8(0, 0x1008), None);
}

#[test]
fn analysis_errors() {
    let regs = [0u64; 16];
    let table = || SymbolTable { symbols: vec![], offsets: vec![], fallback: None, binary_path: String::new() };
    let dumper = TraceDumper { print: false };
    let r = dumper.analyze(vec![x64_step(1, regs, vec![])], vec![], vec![String::new()], table());
    assert_eq!(r.err(), Some(AnalysisError::InstructionCount));
    let r = dumper.analyze(vec![x64_step(1, regs, vec![])], vec![insn(1, 1, vec![], vec![])], vec![], table());
    assert_eq!(r.err(), Some(AnalysisError::DisassemblyCount));

    let desynced = X64Step::try_from(&[
        Message::Address(0x500),
        Message::Code(vec![0x90]),
        Message::Registers(RegisterMessage { pc: 0x504, flags: 0, regs: vec![0; 16] }),
    ])
    .unwrap();
    assert_eq!(first_desynchronized(&vec![x64_step(1, regs, vec![]), desynced.clone()]), Some(1));
    assert_eq!(first_desynchronized(&vec![desynced.clone(), desynced]), Some(0));
    assert_eq!(first_desynchronized(&vec![x64_step(1, regs, vec![]), x64_step(2, regs, vec![])]), None);
    assert_eq!(first_desynchronized::<X64Step>(&vec![]), None);
}

#[test]
fn refused_writes_are_reported_and_the_pass_goes_on() {
    let mut t = Tracker::new();
    let write = |address, value| MemoryOp { address, kind: MemoryOpKind::Write, value };
    assert_eq!(t.step(1, 1, &[write(u64::MAX - 2, MemoryValue::Dword(7))], None), Ok(0));
    assert_eq!(t.step(2, 2, &[write(0x10, MemoryValue::Byte(7))], Some(Branching::Call(9, 3))), Ok(0));
    assert_eq!(t.step(9, 9, &[], None), Ok(1));
    assert_eq!(t.depths(), &vec![0, 0, 1]);
    assert_eq!(t.faults(), &vec![WriteFault::BeyondAddressSpace { tick: 0, address: u64::MAX - 2 }]);
    assert_eq!(t.memory().load8(1, 0x10), Some(7));
    assert_eq!(t.memory().load8(0, u64::MAX - 2), None);
}

#[test]
fn instruction_text_names_the_symbol_of_its_address() {
    let table = SymbolTable {
        symbols: vec![Symbol { name: "main".to_string(), from: 0x1000, to: 0x1fff }],
        offsets: vec![],
        fallback: None,
        binary_path: "/bin/a".to_string(),
    };
    let mut i = insn(0x400, 5, vec![], vec![]);
    i.mnemonic = Some("call".to_string());
    i.op_str = Some("0x1000".to_string());
    assert_eq!(inst_to_str(&i, Some(&table)).unwrap(), "call <main>");
    assert_eq!(inst_to_str(&i, None).unwrap(), "call 0x1000");
    i.op_str = Some("qword ptr [rip + 0x1010]".to_string());
    assert_eq!(inst_to_str(&i, Some(&table)).unwrap(), "call qword ptr [rip + <main+16>]");
    i.op_str = Some("0x00ABCDEF".to_string());
    assert_eq!(inst_to_str(&i, Some(&table)).unwrap(), "call 0xabcdef");
    i.op_str = Some("rax".to_string());
    assert_eq!(inst_to_str(&i, Some(&table)).unwrap(), "call rax");
    i.op_str = Some("0x".to_string());
    assert_eq!(inst_to_str(&i, Some(&table)).unwrap(), "call 0x");
    i.op_str = Some("0x11112222333344445".to_string());
    assert_eq!(inst_to_str(&i, Some(&table)).unwrap(), "call 0x11112222333344445");
    i.op_str = Some("0x10, 0x1004".to_string());
    assert_eq!(inst_to_str(&i, Some(&table)).unwrap(), "call 0x10, <main+4>");
    i.op_str = None;
    assert_eq!(inst_to_str(&i, Some(&table)), None);
}

#[test]
fn what_is_shown_of_the_steps() {
    let mut regs = [0u64; 16];
    regs[0] = 0xaa;
    regs[4] = 0x7ffe;
    let trace = vec![
        x64_step(0x1000, regs, vec![store(0x20, 7, 4), Message::Load(0x30, 0x1_0000_0009, 4)]),
        x64_step(0x9000, regs, vec![]),
    ];
    let mut call = Instruction::from_raw(
        Arch::X86_64,
        RawInstruction {
            len: 5,
            address: 0x1000,
            read: vec![44, 19, 3],
            write: vec![44, 41],
            mnemonic: Some("call".to_string()),
            op_str: Some("rax".to_string()),
            operands: vec![Operand::Reg(35)],
            groups: vec![2],
        },
    )
    .unwrap();
    call.len = 5;
    let insns = vec![call, insn(0x9000, 1, vec![], vec![])];
    let texts = vec!["call rax".to_string(), "nop ".to_string()];
    let table = SymbolTable {
        symbols: vec![Symbol { name: "main".to_string(), from: 0x1000, to: 0x1fff }],
        offsets: vec![],
        fallback: None,
        binary_path: "/bin/a".to_string(),
    };
    let (analysis, _, _) = TraceDumper { print: false }.analyze(trace, insns, texts, table).unwrap();
    assert_eq!(
        analysis.step_line(0),
        Some(StepLine { i: 0, a: 0x1000, c: "call rax".to_string(), d: 0, s: "main".to_string() })
    );
    assert_eq!(
        analysis.step_line(1),
        Some(StepLine { i: 1, a: 0x9000, c: "nop ".to_string(), d: 1, s: String::new() })
    );
    assert_eq!(analysis.step_line(2), None);
    let copy = analysis.clone();
    assert_eq!(copy.step_line(0), analysis.step_line(0));
    assert_eq!(copy.bt_lens, analysis.bt_lens);
    assert!(format!("{:?}", copy).contains("bt_lens"));

    let detail: StepDetail = analysis.step_detail(0, Arch::X86_64).unwrap();
    assert_eq!(detail.registers.len(), 16);
    assert_eq!(detail.registers[0], ("rax", 0xaa, "rr".to_string()));
    assert_eq!(detail.registers[1], ("rcx", 0, String::new()));
    assert_eq!(detail.registers[4], ("rsp", 0x7ffe, "rw".to_string()));
    assert_eq!(detail.registers[15], ("r15", 0, String::new()));
    assert_eq!(detail.reads, vec![(0x30, 9)]);
    assert_eq!(detail.writes, vec![(0x20, 7)]);
    assert!(analysis.step_detail(1, Arch::X86_64).is_some());
    assert!(analysis.step_detail(2, Arch::X86_64).is_none());
    assert!(analysis.step_detail(0, Arch::ARM64).is_none());

    let marks = register_modifiers(&analysis.insns[0], 3);
    assert_eq!(marks, vec!["rr", "", ""]);
    let ops = [
        MemoryOp { address: 1, kind: MemoryOpKind::Write, value: MemoryValue::Byte(2) },
        MemoryOp { address: 3, kind: MemoryOpKind::Read, value: MemoryValue::Qword(4) },
        MemoryOp { address: 5, kind: MemoryOpKind::Write, value: MemoryValue::Word(6) },
    ];
    assert_eq!(memory_accesses(&ops), (vec![(3, 4)], vec![(1, 2), (5, 6)]));
}

#[test]
fn pass_on_a_memory_with_a_history() {
    let write = |address, value| MemoryOp { address, kind: MemoryOpKind::Write, value };
    let mut mem = HistMem::new();
    mem.store8(10, 0x102, 0xee).unwrap();
    let mut t = Tracker::resume(mem, 5);
    assert_eq!(
        t.step(1, 1, &[write(0x100, MemoryValue::Dword(0xa1a2a3a4)), write(0x200, MemoryValue::Byte(1))], None),
        Ok(0)
    );
    assert_eq!(
        t.faults(),
        &vec![WriteFault::OutOfOrder(OutOfOrderWrite { tick: 5, address: 0x102 })]
    );
    assert_eq!(t.memory().load8(5, 0x100), Some(0xa1));
    assert_eq!(t.memory().load8(5, 0x101), Some(0xa2));
    assert_eq!(t.memory().load8(5, 0x102), None);
    assert_eq!(t.memory().load8(5, 0x200), Some(1));
    assert_eq!(t.memory().load8(10, 0x102), Some(0xee));
}

#[test]
fn there_are_no_more_steps_than_ticks() {
    let mut t = Tracker::resume(HistMem::new(), u32::MAX as u64);
    let write = MemoryOp { address: 8, kind: MemoryOpKind::Write, value: MemoryValue::Byte(3) };
    assert_eq!(t.step(1, 1, &[write], None), Ok(0));
    assert_eq!(t.memory().load8(u32::MAX, 8), Some(3));
    assert_eq!(t.memory().load8(u32::MAX - 1, 8), None);
    assert_eq!(t.step(2, 2, &[], None), Err(AnalysisError::TooLong));
    assert_eq!(t.depths(), &vec![0]);
}
