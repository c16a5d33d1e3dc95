use rebg::arch::Arch;
use rebg::dis::groups::{Aarch64Group, Group, X64Group};
use rebg::dis::regs::{Aarch64Reg, Reg, X64Reg};
use rebg::state::{Aarch64State, State, X64State};

#[test]
fn aarch64_canon() {
    assert_eq!(Aarch64Reg::W0.canonical(), Aarch64Reg::X0);
    assert_eq!(Aarch64Reg::X5.canonical(), Aarch64Reg::X5);
    assert_eq!(Aarch64Reg::Sp.canonical(), Aarch64Reg::Sp);
    assert_eq!(Aarch64Reg::Xzr.canonical(), Aarch64Reg::Xzr);
    assert_eq!(Aarch64Reg::Lr.canonical(), Aarch64Reg::Lr);
    assert_eq!(Aarch64Reg::W30.canonical(), Aarch64Reg::Lr);
}

#[test]
fn aarch64_idxs() {
    for i in 0..32 {
        let r = Aarch64Reg::from_idx(i);
        assert!(r.is_some(), "no reg with idx {}", i);

        let r = r.unwrap();
        assert_eq!(r.as_str(), Aarch64State::reg_name_idx(i));
    }

    assert_eq!(Aarch64Reg::from_idx(32), None);
}

#[test]
fn x64_idxs() {
    for i in 0..16 {
        let r = X64Reg::from_idx(i);
        assert!(r.is_some(), "no reg with idx {}", i);

        let r = r.unwrap();
        assert_eq!(r.as_str(), X64State::reg_name_idx(i));
    }

    assert_eq!(X64Reg::from_idx(16), None);
}

#[test]
fn register_numbers_names_and_places() {
    assert_eq!(Aarch64Reg::from_num(0), None);
    assert_eq!(Aarch64Reg::from_num(1), Some(Aarch64Reg::Ffr));
    assert_eq!(Aarch64Reg::from_num(218), Some(Aarch64Reg::X0));
    assert_eq!(Aarch64Reg::from_num(341), Some(Aarch64Reg::V31));
    assert_eq!(Aarch64Reg::from_num(342), None);
    assert_eq!(Aarch64Reg::X28.as_str(), "x28");
    assert_eq!(Aarch64Reg::Fp.idx(), Some(29));
    assert_eq!(Aarch64Reg::Lr.idx(), Some(30));
    assert_eq!(Aarch64Reg::Sp.idx(), Some(31));
    assert_eq!(Aarch64Reg::W3.idx(), None);
    assert_eq!(X64Reg::from_num(0), None);
    assert_eq!(X64Reg::from_num(35), Some(X64Reg::Rax));
    assert_eq!(X64Reg::from_num(245), Some(X64Reg::Bnd3));
    assert_eq!(X64Reg::from_num(246), None);
    assert_eq!(X64Reg::Eax.canonical(), X64Reg::Rax);
    assert_eq!(X64Reg::R10B.canonical(), X64Reg::R10);
    assert_eq!(X64Reg::Eip.canonical(), X64Reg::Rip);
    assert_eq!(X64Reg::Rsp.idx(), Some(4));
    assert_eq!(X64Reg::St3.as_str(), "st(3)");
    assert_eq!(X64Reg::from_idx(7), Some(X64Reg::Rdi));
}

#[test]
fn every_register_number_comes_back_from_its_register() {
    let mut aarch64 = 0;
    let mut x64 = 0;
    for num in 0..=u16::MAX {
        if let Some(r) = Aarch64Reg::from_num(num) {
            aarch64 += 1;
            assert_eq!(r.canonical().canonical(), r.canonical());
            if let Some(i) = r.idx() {
                assert_eq!(Aarch64Reg::from_idx(i), Some(r));
            }
        }
        if let Some(r) = X64Reg::from_num(num) {
            x64 += 1;
            assert_eq!(r.canonical().canonical(), r.canonical());
            if let Some(i) = r.idx() {
                assert_eq!(X64Reg::from_idx(i), Some(r));
            }
        }
    }
    assert_eq!(aarch64, 341);
    assert_eq!(x64, 245);
}

#[test]
fn registers_by_architecture() {
    assert_eq!(Reg::from_num(Arch::ARM64, 3), Some(Reg::Aarch64Reg(Aarch64Reg::Lr)));
    assert_eq!(Reg::from_num(Arch::X86_64, 3), Some(Reg::X64Reg(X64Reg::Ax)));
    assert_eq!(Reg::from_num(Arch::X86_64, 300), None);
    assert_eq!(Reg::from_num(Arch::ARM64, 300), Some(Reg::Aarch64Reg(Aarch64Reg::Zaq10)));
    assert_eq!(Reg::X64Reg(X64Reg::Ax).canonical(), Reg::X64Reg(X64Reg::Rax));
    assert_eq!(Reg::X64Reg(X64Reg::Ax).canonical().idx(), Some(0));
    assert_eq!(Reg::from_idx(Arch::X86_64, 15).unwrap().as_str(), "r15");
    assert_eq!(Reg::from_idx(Arch::X86_64, 16), None);
    assert_eq!(Reg::from_idx(Arch::ARM64, 16).unwrap().as_str(), "x16");
    assert_eq!(Reg::from_idx(Arch::ARM64, 32), None);
}

#[test]
fn groups_by_number() {
    assert_eq!(Group::from_num(Arch::ARM64, 2), Some(Group::Aarch64Group(Aarch64Group::Call)));
    assert_eq!(Group::from_num(Arch::ARM64, 3), Some(Group::Aarch64Group(Aarch64Group::Return)));
    assert_eq!(Group::from_num(Arch::X86_64, 3), Some(Group::X64Group(X64Group::Ret)));
    assert_eq!(Group::from_num(Arch::ARM64, 5), None);
    assert_eq!(Group::from_num(Arch::X86_64, 5), Some(Group::X64Group(X64Group::Iret)));
    assert_eq!(Group::from_num(Arch::X86_64, 0), None);
    assert_eq!(Group::from_num(Arch::X86_64, 170), None);
    assert_eq!(Aarch64Group::from_num(155).unwrap().as_str(), "v8_4a");
    assert_eq!(X64Group::from_num(129).unwrap().as_str(), "3dnow");
    assert_eq!(X64Group::from_num(160).unwrap().as_str(), "16bitmode");
    assert_eq!(Aarch64Group::from_num(8).unwrap().as_str(), "pointer authentication");
}

#[test]
fn call_and_return_groups() {
    assert!(Group::Aarch64Group(Aarch64Group::Call).is_call());
    assert!(Group::X64Group(X64Group::Call).is_call());
    assert!(!Group::X64Group(X64Group::Ret).is_call());
    assert!(Group::X64Group(X64Group::Ret).is_ret());
    assert!(Group::Aarch64Group(Aarch64Group::Return).is_ret());
    assert!(!Group::Aarch64Group(Aarch64Group::Jump).is_ret());
    assert!(!Group::X64Group(X64Group::Iret).is_ret());
}
