use capstone::{InsnGroupId, RegId};
use rebg::arch::Arch;
use rebg::dis::groups::{Aarch64Group, Group, X64Group};
use rebg::dis::regs::{Aarch64Reg, X64Reg};
use rebg::dis::{Dis, DisError, Operand};
use rebg::state::{Aarch64Step, Branching, Instrument, Step, X64Step};
use rebg::tracer::parser::{Message, RegisterMessage};

#[test]
fn aarch64_group_names() {
    let arch = Arch::ARM64;
    let cs = arch.make_capstone().unwrap();

    for i in 0..=u8::MAX {
        let i = InsnGroupId(i);
        let cs_name = cs.group_name(i);
        let dis_name = Aarch64Group::from_num(i.0)
            .map(|x| Aarch64Group::as_str(&x))
            .map(str::to_string);
        if cs_name != dis_name {
            panic!("{cs_name:?} != {dis_name:?}")
        }
    }
}

#[test]
fn x64_group_names() {
    let arch = Arch::X86_64;
    let cs = arch.make_capstone().unwrap();

    for i in 0..=u8::MAX {
        let i = InsnGroupId(i);
        let cs_name = cs.group_name(i);
        let dis_name = X64Group::from_num(i.0)
            .map(|x| X64Group::as_str(&x))
            .map(str::to_string);
        if cs_name != dis_name {
            panic!("{cs_name:?} != {dis_name:?}")
        }
    }
}

#[test]
fn aarch64_reg_names() {
    let arch = Arch::ARM64;
    let cs = arch.make_capstone().unwrap();

    for i in 0..=u16::MAX {
        let i = RegId(i);

        let cs_name = cs.reg_name(i);
        let our_name = Aarch64Reg::from_num(i.0).map(|reg| reg.as_str().to_string());

        if cs_name != our_name {
            panic!("{cs_name:?} != {our_name:?}")
        }
    }
}

#[test]
fn x64_reg_names() {
    let arch = Arch::X86_64;
    let cs = arch.make_capstone().unwrap();

    for i in 0..=u16::MAX {
        let i = RegId(i);

        let cs_name = cs.reg_name(i);
        let our_name = X64Reg::from_num(i.0).map(|reg| reg.as_str().to_string());

        if cs_name != our_name {
            panic!("{cs_name:?} != {our_name:?}")
        }
    }
}

fn x64_step(address: u64, regs: [u64; 16]) -> X64Step {
    X64Step::try_from(&[
        Message::Address(address),
        Message::Code(vec![0x90]),
        Message::Registers(RegisterMessage { pc: address, flags: 0, regs: regs.to_vec() }),
    ])
    .unwrap()
}

#[test]
fn x64_instructions_are_disassembled_and_classified() {
    let dis = Dis::new(Arch::X86_64).unwrap();
    assert_eq!(dis.arch(), Arch::X86_64);
    let mut regs = [0u64; 16];
    regs[0] = 0x7000;
    regs[3] = 0x100;
    let step = x64_step(0x1000, regs);

    // call rax
    let call = dis.disassemble_one(&[0xff, 0xd0], 0x1000).unwrap();
    assert_eq!(call.len, 2);
    assert_eq!(call.address, 0x1000);
    assert_eq!(call.mnemonic.as_deref(), Some("call"));
    assert_eq!(call.op_str.as_deref(), Some("rax"));
    assert_eq!(call.operands, vec![Operand::Reg(35)]);
    assert!(call.groups.contains(&Group::X64Group(X64Group::Call)));
    assert!(call.is_call());
    assert!(!call.is_ret());
    assert!(call.read.iter().any(|r| r.as_str() == "rax"));
    assert!(call.write.iter().any(|r| r.as_str() == "rsp"));
    assert_eq!(step.instrument().recover_branch(&call), Some(Branching::Call(0x7000, 0x1002)));

    // call 0x1105
    let call = dis.disassemble_one(&[0xe8, 0x00, 0x01, 0x00, 0x00], 0x1000).unwrap();
    assert_eq!(call.operands, vec![Operand::Imm(0x1105)]);
    assert_eq!(step.instrument().recover_branch(&call), Some(Branching::Call(0x1105, 0x1005)));

    // call qword ptr [rbx + 8]
    let call = dis.disassemble_one(&[0xff, 0x53, 0x08], 0x1000).unwrap();
    assert_eq!(
        call.operands,
        vec![Operand::Mem { segment: 0, base: 37, index: 0, scale: 1, disp: 8 }]
    );
    assert_eq!(step.instrument().recover_branch(&call), Some(Branching::Call(0x108, 0x1003)));

    // ret, followed by what is not looked at
    let ret = dis.disassemble_one(&[0xc3, 0xff, 0xff], 0x2000).unwrap();
    assert_eq!(ret.len, 1);
    assert!(ret.is_ret());
    assert_eq!(step.instrument().recover_branch(&ret), Some(Branching::Return));

    // mov rax, rbx
    let mov = dis.disassemble_one(&[0x48, 0x89, 0xd8], 0x3000).unwrap();
    assert_eq!(mov.mnemonic.as_deref(), Some("mov"));
    assert_eq!(mov.operands, vec![Operand::Reg(35), Operand::Reg(37)]);
    assert_eq!(step.instrument().recover_branch(&mov), None);

    assert_eq!(dis.disassemble_one(&[], 0x1000).err(), Some(DisError::Capstone));
    assert_eq!(dis.disassemble_one(&[0x06], 0x1000).err(), Some(DisError::Capstone));
}

#[test]
fn aarch64_instructions_are_disassembled_and_classified() {
    let dis = Dis::new(Arch::ARM64).unwrap();
    let mut regs = [0u64; 32];
    regs[8] = 0x8000;
    let step = Aarch64Step::try_from(&[
        Message::Address(0x1000),
        Message::Code(vec![0; 4]),
        Message::Registers(RegisterMessage { pc: 0x1000, flags: 0, regs: regs.to_vec() }),
    ])
    .unwrap();

    // bl 0x1010
    let bl = dis.disassemble_one(&[0x04, 0x00, 0x00, 0x94], 0x1000).unwrap();
    assert_eq!(bl.len, 4);
    assert_eq!(bl.mnemonic.as_deref(), Some("bl"));
    assert_eq!(bl.operands, vec![Operand::Imm(0x1010)]);
    assert!(bl.groups.contains(&Group::Aarch64Group(Aarch64Group::Call)));
    assert_eq!(step.instrument().recover_branch(&bl), Some(Branching::Call(0x1010, 0x1004)));

    // blr x8
    let blr = dis.disassemble_one(&[0x00, 0x01, 0x3f, 0xd6], 0x1000).unwrap();
    assert_eq!(blr.mnemonic.as_deref(), Some("blr"));
    assert_eq!(blr.operands, vec![Operand::Reg(226)]);
    assert_eq!(step.instrument().recover_branch(&blr), Some(Branching::Call(0x8000, 0x1004)));

    // ret
    let ret = dis.disassemble_one(&[0xc0, 0x03, 0x5f, 0xd6], 0x1000).unwrap();
    assert!(ret.is_ret());
    assert_eq!(step.instrument().recover_branch(&ret), Some(Branching::Return));

    // add x0, x1, x2
    let add = dis.disassemble_one(&[0x20, 0x00, 0x02, 0x8b], 0x1000).unwrap();
    assert_eq!(add.mnemonic.as_deref(), Some("add"));
    assert_eq!(step.instrument().recover_branch(&add), None);
    assert_eq!(step.arch(), Arch::ARM64);

    assert_eq!(dis.disassemble_one(&[0x00, 0x01], 0x1000).err(), Some(DisError::Capstone));
}
