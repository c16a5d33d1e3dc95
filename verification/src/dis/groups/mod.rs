//! Instruction groups: whether an instruction is a call, a return, a jump
//! and so on, whatever the architecture.

pub mod aarch64;
pub mod x64;

pub use aarch64::Aarch64Group;
pub use x64::X64Group;

use crate::arch::Arch;
use vstd::prelude::*;

verus! {

/// An instruction group of one of the architectures.
#[derive(Clone, Copy, Debug, PartialEq, Eq, Structural)]
pub enum Group {
    Aarch64Group(Aarch64Group),
    X64Group(X64Group),
}

impl Group {
    /// The architecture that the group belongs to.
    pub open spec fn arch_of(self) -> Arch {
        match self {
            Group::Aarch64Group(_) => Arch::ARM64,
            Group::X64Group(_) => Arch::X86_64,
        }
    }

    /// The number by which the disassembler knows this group.
    pub open spec fn num_of(self) -> u8 {
        match self {
            Group::Aarch64Group(g) => g.num_of(),
            Group::X64Group(g) => g.num_of(),
        }
    }

    /// The group marks calls.
    pub open spec fn marks_call(self) -> bool {
        self == Group::Aarch64Group(Aarch64Group::Call) || self == Group::X64Group(X64Group::Call)
    }

    /// The group marks returns.
    pub open spec fn marks_ret(self) -> bool {
        self == Group::Aarch64Group(Aarch64Group::Return) || self == Group::X64Group(
            X64Group::Ret,
        )
    }

    /// The group that a number stands for on an architecture, if it stands for one.
    pub fn from_num(arch: Arch, num: u8) -> (r: Option<Self>)
        ensures
            r matches Some(g) ==> g.arch_of() == arch && g.num_of() == num,
            r is None ==> forall|g: Group| !(g.arch_of() == arch && g.num_of() == num),
    {
        match arch {
            Arch::ARM64 => match Aarch64Group::from_num(num) {
                Some(g) => Some(Group::Aarch64Group(g)),
                None => {
                    assert forall|g: Group| !(g.arch_of() == arch && g.num_of() == num) by {
                        if let Group::Aarch64Group(inner) = g {
                            assert(inner.num_of() != num);
                        }
                    }
                    None
                },
            },
            Arch::X86_64 => match X64Group::from_num(num) {
                Some(g) => Some(Group::X64Group(g)),
                None => {
                    assert forall|g: Group| !(g.arch_of() == arch && g.num_of() == num) by {
                        if let Group::X64Group(inner) = g {
                            assert(inner.num_of() != num);
                        }
                    }
                    None
                },
            },
        }
    }

    /// Whether the group marks calls.
    pub fn is_call(&self) -> (r: bool)
        ensures
            r == self.marks_call(),
    {
        match self {
            Group::Aarch64Group(Aarch64Group::Call) => true,
            Group::X64Group(X64Group::Call) => true,
            _ => false,
        }
    }

    /// Whether the group marks returns.
    pub fn is_ret(&self) -> (r: bool)
        ensures
            r == self.marks_ret(),
    {
        match self {
            Group::Aarch64Group(Aarch64Group::Return) => true,
            Group::X64Group(X64Group::Ret) => true,
            _ => false,
        }
    }
}

} // verus!
