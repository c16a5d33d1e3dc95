use rebg::rstate::{diff, RDiff};
use rebg::state::aarch64;
use rebg::state::x64;
use rebg::state::{
    Aarch64Flags, Aarch64State, Aarch64Step, GenericStep, MemoryOp, MemoryOpKind, MemoryValue,
    State, Step, StepError, X64Flags, X64State, X64Step,
};
use rebg::tracer::parser::{Message, RegisterMessage};

#[test]
fn single_diff() {
    let i0 = 0;
    let i1 = 5;
    let i2 = 5;

    let d1 = RDiff::make(i0, i1);
    let d2 = RDiff::make(i1, i2);

    assert_eq!(d1, RDiff::Changed { from: 0, to: 5 });
    assert_eq!(d2, RDiff::Unchanged { value: 5 });
}

#[test]
fn aarch64_aarch64_state_deser() {
    let input = RegisterMessage {
        pc: 0,
        flags: 0,
        regs: [0x1234; 32].into(),
    };

    let result = Aarch64State::try_from(input);

    assert!(result.is_ok());

    assert_eq!(
        result.unwrap(),
        Aarch64State {
            regs: [0x1234; 32],
            pc: 0,
            flags: Aarch64Flags::empty(),
        }
    );
}

#[test]
fn x64_aarch64_state_deser() {
    let input = RegisterMessage {
        pc: 0,
        flags: 0,
        regs: [0x4321; 16].into(),
    };

    let result = X64State::try_from(input);

    assert!(result.is_ok());

    assert_eq!(
        result.unwrap(),
        X64State {
            regs: [0x4321; 16],
            pc: 0,
            flags: X64Flags::empty(),
        }
    );
}

#[test]
fn state_with_the_wrong_number_of_registers_is_refused() {
    let short = RegisterMessage { pc: 1, flags: 2, regs: vec![0; 15] };
    assert_eq!(X64State::try_from(short), Err(StepError::RegisterCount(15)));
    let long = RegisterMessage { pc: 1, flags: 2, regs: vec![0; 33] };
    assert_eq!(Aarch64State::try_from(long), Err(StepError::RegisterCount(33)));
}

#[test]
fn flags_keep_the_low_32_bits() {
    let input = RegisterMessage { pc: 7, flags: 0x1_0000_0041, regs: vec![0; 16] };
    let state = X64State::try_from(input).unwrap();
    assert_eq!(state.flags.bits(), 0x41);
    assert!(state.flags.contains(x64::CARRY));
    assert!(state.flags.contains(x64::ZERO));
    assert!(!state.flags.contains(x64::SIGN));
    assert_eq!(X64Flags::all().bits(), 0x37fd5);
    assert_eq!(Aarch64Flags::all().bits(), 0xf8ef03cf);
    assert_eq!(X64Flags::from_bits_retain(0xffff_ffff).bits(), 0xffff_ffff);
}

#[test]
fn memory_value_widens() {
    assert_eq!(MemoryValue::Byte(0xff).as_u64(), 0xff);
    assert_eq!(MemoryValue::Word(0xffee).as_u64(), 0xffee);
    assert_eq!(MemoryValue::Dword(0xffee_ddcc).as_u64(), 0xffee_ddcc);
    assert_eq!(MemoryValue::Qword(u64::MAX).as_u64(), u64::MAX);
    assert_eq!(MemoryValue::from_raw(0x1122_3344_5566_7788, 1), Some(MemoryValue::Byte(0x88)));
    assert_eq!(MemoryValue::from_raw(0x1122_3344_5566_7788, 2), Some(MemoryValue::Word(0x7788)));
    assert_eq!(
        MemoryValue::from_raw(0x1122_3344_5566_7788, 4),
        Some(MemoryValue::Dword(0x5566_7788))
    );
    assert_eq!(
        MemoryValue::from_raw(0x1122_3344_5566_7788, 8),
        Some(MemoryValue::Qword(0x1122_3344_5566_7788))
    );
    assert_eq!(MemoryValue::from_raw(1, 3), None);
    assert_eq!(MemoryValue::from_raw(1, 0), None);
}

fn registers(n: usize, pc: u64) -> Message {
    Message::Registers(RegisterMessage { pc, flags: 0, regs: vec![9; n] })
}

#[test]
fn step_is_gathered_from_its_messages() {
    let msgs = vec![
        Message::Address(0x1000),
        Message::Code(vec![1, 2, 3, 4]),
        registers(16, 0x1000),
        Message::Load(0x20, 0xaabb, 2),
        Message::Debug("ignored".to_string()),
        Message::Store(0x30, 0x1_0000_00cc, 1),
        Message::Syscall("write(1, 2, 3)".to_string()),
        Message::SyscallResult(" = 3".to_string()),
        registers(16, 0x9999),
        Message::Address(0x1004),
    ];
    let step = GenericStep::try_from(&msgs).unwrap();
    assert_eq!(step.address, 0x1004);
    assert_eq!(step.code, vec![1, 2, 3, 4]);
    assert_eq!(step.state.pc, 0x1000);
    assert_eq!(step.strace.as_deref(), Some("write(1, 2, 3) = 3"));
    assert_eq!(
        step.memory_ops,
        vec![
            MemoryOp { address: 0x20, kind: MemoryOpKind::Read, value: MemoryValue::Word(0xaabb) },
            MemoryOp { address: 0x30, kind: MemoryOpKind::Write, value: MemoryValue::Byte(0xcc) },
        ]
    );
}

#[test]
fn syscall_without_result_stands_alone_and_result_alone_is_dropped() {
    let with = vec![
        Message::Address(1),
        Message::Code(vec![0]),
        registers(16, 1),
        Message::Syscall("exit(0)".to_string()),
    ];
    assert_eq!(GenericStep::try_from(&with).unwrap().strace.as_deref(), Some("exit(0)"));
    let without = vec![
        Message::Address(1),
        Message::Code(vec![0]),
        registers(16, 1),
        Message::SyscallResult(" = 0".to_string()),
    ];
    assert_eq!(GenericStep::try_from(&without).unwrap().strace, None);
}

#[test]
fn every_step_error_has_its_input() {
    let ok = vec![Message::Address(1), Message::Code(vec![0]), registers(16, 1)];
    assert!(GenericStep::try_from(&ok).is_ok());
    let e = |msgs: Vec<Message>| GenericStep::try_from(&msgs).err();
    assert_eq!(e(vec![Message::Code(vec![0]), registers(16, 1)]), Some(StepError::MissingAddress));
    assert_eq!(e(vec![Message::Address(1), registers(16, 1)]), Some(StepError::MissingCode));
    assert_eq!(
        e(vec![Message::Address(1), Message::Code(vec![0])]),
        Some(StepError::MissingRegisters)
    );
    assert_eq!(e(vec![]), Some(StepError::MissingAddress));
    assert_eq!(e(vec![Message::Load(1, 2, 3)]), Some(StepError::UnknownValueSize(3)));
    assert_eq!(e(vec![Message::Store(1, 2, 16)]), Some(StepError::UnknownValueSize(16)));
    assert_eq!(e(vec![Message::Flags(1)]), Some(StepError::UnsupportedFlags));
    assert_eq!(e(vec![Message::Separator]), Some(StepError::Misplaced));
    assert_eq!(
        e(vec![Message::Address(1), Message::LibLoad("a".to_string(), 1, 2)]),
        Some(StepError::Misplaced)
    );
    assert_eq!(
        e(vec![Message::Flags(1), Message::Load(1, 2, 3)]),
        Some(StepError::UnsupportedFlags)
    );
    assert_eq!(
        X64Step::try_from(&[Message::Address(1), Message::Code(vec![0]), registers(32, 1)]).err(),
        Some(StepError::RegisterCount(32))
    );
    assert_eq!(
        Aarch64Step::try_from(&[Message::Address(1), Message::Code(vec![0]), registers(32, 1)])
            .err(),
        Some(StepError::CodeLength(1))
    );
    assert_eq!(
        Aarch64Step::try_from(&[Message::Address(1), Message::Code(vec![0; 4]), registers(16, 1)])
            .err(),
        Some(StepError::RegisterCount(16))
    );
}

#[test]
fn steps_of_both_architectures_show_what_they_hold() {
    let msgs = vec![
        Message::Address(0x40),
        Message::Code(vec![0xd6, 0x5f, 0x03, 0xc0]),
        registers(32, 0x40),
        Message::Store(8, 7, 8),
    ];
    let a = Aarch64Step::try_from(&msgs).unwrap();
    assert_eq!(a.address(), 0x40);
    assert_eq!(a.state().pc(), 0x40);
    assert_eq!(a.state().regs().len(), 32);
    assert_eq!(a.code(), &[0xd6, 0x5f, 0x03, 0xc0]);
    assert_eq!(a.strace(), None);
    assert_eq!(a.memory_ops().len(), 1);
    assert_eq!(a.arch(), rebg::arch::Arch::ARM64);
    let msgs = vec![Message::Address(0x40), Message::Code(vec![0xc3]), registers(16, 0x40)];
    let x = X64Step::try_from(&msgs).unwrap();
    assert_eq!(x.code(), &[0xc3]);
    assert_eq!(x.state().regs(), &[9; 16]);
    assert_eq!(x.arch(), rebg::arch::Arch::X86_64);
}

#[test]
fn diff_of_two_states() {
    let mut before = X64State { regs: [0; 16], pc: 0x40000, flags: X64Flags::from_bits_retain(0x40) };
    let mut after = before;
    before.regs[1] = 2;
    after.regs[1] = 3;
    after.pc = 0x40004;
    after.flags = X64Flags::from_bits_retain(0x01);
    let d = diff(&before, &after);
    assert_eq!(d.regs.len(), 16);
    assert_eq!(d.regs[0], RDiff::Unchanged { value: 0 });
    assert_eq!(d.regs[1], RDiff::Changed { from: 2, to: 3 });
    assert_eq!(d.pc, RDiff::Changed { from: 0x40000, to: 0x40004 });
    assert_eq!(d.flags.len(), 14);
    assert_eq!(d.flags[0], ("CARRY", RDiff::Changed { from: false, to: true }));
    assert_eq!(d.flags[1], ("PARITY", RDiff::Unchanged { value: false }));
    assert_eq!(d.flags[3], ("ZERO", RDiff::Changed { from: true, to: false }));
    let a = Aarch64State { regs: [0; 32], pc: 0, flags: Aarch64Flags::from_bits_retain(aarch64::ZERO) };
    let d = diff(&a, &a);
    assert_eq!(d.flags.len(), 20);
    assert_eq!(d.flags[0], ("NEGATIVE", RDiff::Unchanged { value: false }));
    assert_eq!(d.flags[1], ("ZERO", RDiff::Unchanged { value: true }));
    assert_eq!(d.flags[19], ("PE_3", RDiff::Unchanged { value: false }));
}

#[test]
fn difference_is_told_line_by_line() {
    let mut before = X64State { regs: [0; 16], pc: 0x40000, flags: X64Flags::from_bits_retain(0x40) };
    let mut after = before;
    before.regs[1] = 2;
    after.regs[1] = 0x3f;
    after.regs[15] = 0xabc;
    after.pc = 0x40004;
    after.flags = X64Flags::from_bits_retain(0x01);
    let (lines, changed) = diff(&before, &after).lines::<X64State>();
    assert!(changed);
    assert_eq!(
        lines,
        vec!["rcx <- 3f (prev 2)", "r15 <- abc (prev 0)", "pc <- 40004", "flags +CARRY", "flags -ZERO"]
    );
    let mut moved = before;
    moved.pc = 0x40008;
    let (lines, changed) = diff(&before, &moved).lines::<X64State>();
    assert!(!changed);
    assert_eq!(lines, vec!["pc <- 40008"]);
    let (lines, changed) = diff(&before, &before).lines::<X64State>();
    assert!(!changed);
    assert!(lines.is_empty());
    let a = Aarch64State { regs: [0; 32], pc: 0, flags: Aarch64Flags::empty() };
    let mut b = a;
    b.regs[29] = 1;
    b.regs[30] = 2;
    b.regs[31] = 3;
    b.flags = Aarch64Flags::from_bits_retain(aarch64::NEGATIVE);
    let (lines, changed) = diff(&a, &b).lines::<Aarch64State>();
    assert!(changed);
    assert_eq!(
        lines,
        vec!["fp <- 1 (prev 0)", "lr <- 2 (prev 0)", "sp <- 3 (prev 0)", "flags +NEGATIVE"]
    );
}

#[test]
fn register_names_by_place() {
    assert_eq!(X64State::reg_name_idx(0), "rax");
    assert_eq!(X64State::reg_name_idx(4), "rsp");
    assert_eq!(X64State::reg_name_idx(15), "r15");
    assert_eq!(Aarch64State::reg_name_idx(0), "x0");
    assert_eq!(Aarch64State::reg_name_idx(28), "x28");
    assert_eq!(Aarch64State::reg_name_idx(31), "sp");
}
