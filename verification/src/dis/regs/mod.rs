//! Registers, whatever the architecture.
//!
//! Parts of a register, such as `eax` and `ah` of `rax`, have the full
//! register as their canonical one. The registers of a snapshot have a place
//! in it, their index.

pub mod aarch64;
pub mod x64;

pub use aarch64::Aarch64Reg;
pub use x64::X64Reg;

use crate::arch::Arch;
use vstd::prelude::*;

verus! {

/// A register of one of the architectures.
#[derive(Clone, Copy, Debug, PartialEq, Eq, Structural)]
pub enum Reg {
    Aarch64Reg(Aarch64Reg),
    X64Reg(X64Reg),
}

impl Reg {
    /// The architecture that the register belongs to.
    pub open spec fn arch_of(self) -> Arch {
        match self {
            Reg::Aarch64Reg(_) => Arch::ARM64,
            Reg::X64Reg(_) => Arch::X86_64,
        }
    }

    /// The number by which the disassembler knows this register.
    pub open spec fn num_of(self) -> u16 {
        match self {
            Reg::Aarch64Reg(r) => r.num_of(),
            Reg::X64Reg(r) => r.num_of(),
        }
    }

    /// The name by which the disassembler knows this register.
    pub open spec fn name(self) -> Seq<char> {
        match self {
            Reg::Aarch64Reg(r) => r.name(),
            Reg::X64Reg(r) => r.name(),
        }
    }

    /// The full-width register that this register is a part of.
    pub open spec fn canonical_of(self) -> Reg {
        match self {
            Reg::Aarch64Reg(r) => Reg::Aarch64Reg(r.canonical_of()),
            Reg::X64Reg(r) => Reg::X64Reg(r.canonical_of()),
        }
    }

    /// The place of this register in a register snapshot, if it has one.
    pub open spec fn idx_of(self) -> Option<usize> {
        match self {
            Reg::Aarch64Reg(r) => r.idx_of(),
            Reg::X64Reg(r) => r.idx_of(),
        }
    }

    /// The number of registers in a snapshot of an architecture.
    pub open spec fn count(arch: Arch) -> usize {
        match arch {
            Arch::ARM64 => 32,
            Arch::X86_64 => 16,
        }
    }

    /// The register that a number stands for on an architecture, if it stands for one.
    pub fn from_num(arch: Arch, num: u16) -> (r: Option<Self>)
        ensures
            r matches Some(reg) ==> reg.arch_of() == arch && reg.num_of() == num,
            r is None ==> forall|reg: Reg| !(reg.arch_of() == arch && reg.num_of() == num),
    {
        match arch {
            Arch::ARM64 => match Aarch64Reg::from_num(num) {
                Some(r) => Some(Reg::Aarch64Reg(r)),
                None => {
                    assert forall|reg: Reg| !(reg.arch_of() == arch && reg.num_of() == num) by {
                        if let Reg::Aarch64Reg(inner) = reg {
                            assert(inner.num_of() != num);
                        }
                    }
                    None
                },
            },
            Arch::X86_64 => match X64Reg::from_num(num) {
                Some(r) => Some(Reg::X64Reg(r)),
                None => {
                    assert forall|reg: Reg| !(reg.arch_of() == arch && reg.num_of() == num) by {
                        if let Reg::X64Reg(inner) = reg {
                            assert(inner.num_of() != num);
                        }
                    }
                    None
                },
            },
        }
    }

    /// The full-width register that this register is a part of; itself if
    /// it is no part of another.
    pub fn canonical(self) -> (r: Self)
        ensures
            r == self.canonical_of(),
    {
        match self {
            Reg::Aarch64Reg(r) => Reg::Aarch64Reg(r.canonical()),
            Reg::X64Reg(r) => Reg::X64Reg(r.canonical()),
        }
    }

    /// The name by which the disassembler knows this register.
    pub fn as_str(&self) -> (s: &'static str)
        ensures
            s@ == self.name(),
    {
        match self {
            Reg::Aarch64Reg(r) => r.as_str(),
            Reg::X64Reg(r) => r.as_str(),
        }
    }

    /// The register at a place of a register snapshot of an architecture.
    pub fn from_idx(arch: Arch, i: usize) -> (r: Option<Self>)
        ensures
            r matches Some(reg) ==> reg.arch_of() == arch && reg.idx_of() == Some(i),
            r is Some <==> i < Self::count(arch),
    {
        match arch {
            Arch::ARM64 => match Aarch64Reg::from_idx(i) {
                Some(r) => Some(Reg::Aarch64Reg(r)),
                None => None,
            },
            Arch::X86_64 => match X64Reg::from_idx(i) {
                Some(r) => Some(Reg::X64Reg(r)),
                None => None,
            },
        }
    }

    /// The place of this register in a register snapshot, if it has one.
    pub fn idx(&self) -> (r: Option<usize>)
        ensures
            r == self.idx_of(),
            r matches Some(i) ==> i < Self::count(self.arch_of()),
    {
        match self {
            Reg::Aarch64Reg(r) => r.idx(),
            Reg::X64Reg(r) => r.idx(),
        }
    }
}

} // verus!
