//! The instruction groups of AArch64, as the disassembler numbers and names them.

use vstd::prelude::*;

verus! {

/// An instruction group of AArch64.
#[derive(Clone, Copy, Debug, PartialEq, Eq, Structural)]
pub enum Aarch64Group {
    Jump,
    Call,
    Return,
    Int,
    Privilege,
    BranchRelative,
    PointerAuthentication,
    Crypto,
    Fparmv8,
    Neon,
    Crc,
    Aes,
    Dotprod,
    Fullfp16,
    Lse,
    Rcpc,
    Rdm,
    Sha2,
    Sha3,
    Sm4,
    Sve,
    Sve2,
    Sve2Aes,
    Sve2Bitperm,
    Sve2Sha3,
    Sve2Sm4,
    Sme,
    SmeF64,
    SmeI64,
    F32Mm,
    F64Mm,
    I8Mm,
    V81A,
    V83A,
    V84A,
}

impl Aarch64Group {
    /// The number by which the disassembler knows this group.
    pub open spec fn num_of(self) -> u8 {
        match self {
            Aarch64Group::Jump => 1,
            Aarch64Group::Call => 2,
            Aarch64Group::Return => 3,
            Aarch64Group::Int => 4,
            Aarch64Group::Privilege => 6,
            Aarch64Group::BranchRelative => 7,
            Aarch64Group::PointerAuthentication => 8,
            Aarch64Group::Crypto => 128,
            Aarch64Group::Fparmv8 => 129,
            Aarch64Group::Neon => 130,
            Aarch64Group::Crc => 131,
            Aarch64Group::Aes => 132,
            Aarch64Group::Dotprod => 133,
            Aarch64Group::Fullfp16 => 134,
            Aarch64Group::Lse => 135,
            Aarch64Group::Rcpc => 136,
            Aarch64Group::Rdm => 137,
            Aarch64Group::Sha2 => 138,
            Aarch64Group::Sha3 => 139,
            Aarch64Group::Sm4 => 140,
            Aarch64Group::Sve => 141,
            Aarch64Group::Sve2 => 142,
            Aarch64Group::Sve2Aes => 143,
            Aarch64Group::Sve2Bitperm => 144,
            Aarch64Group::Sve2Sha3 => 145,
            Aarch64Group::Sve2Sm4 => 146,
            Aarch64Group::Sme => 147,
            Aarch64Group::SmeF64 => 148,
            Aarch64Group::SmeI64 => 149,
            Aarch64Group::F32Mm => 150,
            Aarch64Group::F64Mm => 151,
            Aarch64Group::I8Mm => 152,
            Aarch64Group::V81A => 153,
            Aarch64Group::V83A => 154,
            Aarch64Group::V84A => 155,
        }
    }

    /// The name by which the disassembler knows this group.
    pub open spec fn name(self) -> Seq<char> {
        match self {
            Aarch64Group::Jump => "jump"@,
            Aarch64Group::Call => "call"@,
            Aarch64Group::Return => "return"@,
            Aarch64Group::Int => "int"@,
            Aarch64Group::Privilege => "privilege"@,
            Aarch64Group::BranchRelative => "branch_relative"@,
            Aarch64Group::PointerAuthentication => "pointer authentication"@,
            Aarch64Group::Crypto => "crypto"@,
            Aarch64Group::Fparmv8 => "fparmv8"@,
            Aarch64Group::Neon => "neon"@,
            Aarch64Group::Crc => "crc"@,
            Aarch64Group::Aes => "aes"@,
            Aarch64Group::Dotprod => "dotprod"@,
            Aarch64Group::Fullfp16 => "fullfp16"@,
            Aarch64Group::Lse => "lse"@,
            Aarch64Group::Rcpc => "rcpc"@,
            Aarch64Group::Rdm => "rdm"@,
            Aarch64Group::Sha2 => "sha2"@,
            Aarch64Group::Sha3 => "sha3"@,
            Aarch64Group::Sm4 => "sm4"@,
            Aarch64Group::Sve => "sve"@,
            Aarch64Group::Sve2 => "sve2"@,
            Aarch64Group::Sve2Aes => "sve2-aes"@,
            Aarch64Group::Sve2Bitperm => "sve2-bitperm"@,
            Aarch64Group::Sve2Sha3 => "sve2-sha3"@,
            Aarch64Group::Sve2Sm4 => "sve2-sm4"@,
            Aarch64Group::Sme => "sme"@,
            Aarch64Group::SmeF64 => "sme-f64"@,
            Aarch64Group::SmeI64 => "sme-i64"@,
            Aarch64Group::F32Mm => "f32mm"@,
            Aarch64Group::F64Mm => "f64mm"@,
            Aarch64Group::I8Mm => "i8mm"@,
            Aarch64Group::V81A => "v8_1a"@,
            Aarch64Group::V83A => "v8_3a"@,
            Aarch64Group::V84A => "v8_4a"@,
        }
    }

    /// The group of a number, if the number stands for one.
    pub fn from_num(num: u8) -> (r: Option<Self>)
        ensures
            r matches Some(g) ==> g.num_of() == num,
            r is None ==> forall|g: Aarch64Group| g.num_of() != num,
    {
        match num {
            1 => Some(Aarch64Group::Jump),
            2 => Some(Aarch64Group::Call),
            3 => Some(Aarch64Group::Return),
            4 => Some(Aarch64Group::Int),
            6 => Some(Aarch64Group::Privilege),
            7 => Some(Aarch64Group::BranchRelative),
            8 => Some(Aarch64Group::PointerAuthentication),
            128 => Some(Aarch64Group::Crypto),
            129 => Some(Aarch64Group::Fparmv8),
            130 => Some(Aarch64Group::Neon),
            131 => Some(Aarch64Group::Crc),
            132 => Some(Aarch64Group::Aes),
            133 => Some(Aarch64Group::Dotprod),
            134 => Some(Aarch64Group::Fullfp16),
            135 => Some(Aarch64Group::Lse),
            136 => Some(Aarch64Group::Rcpc),
            137 => Some(Aarch64Group::Rdm),
            138 => Some(Aarch64Group::Sha2),
            139 => Some(Aarch64Group::Sha3),
            140 => Some(Aarch64Group::Sm4),
            141 => Some(Aarch64Group::Sve),
            142 => Some(Aarch64Group::Sve2),
            143 => Some(Aarch64Group::Sve2Aes),
            144 => Some(Aarch64Group::Sve2Bitperm),
            145 => Some(Aarch64Group::Sve2Sha3),
            146 => Some(Aarch64Group::Sve2Sm4),
            147 => Some(Aarch64Group::Sme),
            148 => Some(Aarch64Group::SmeF64),
            149 => Some(Aarch64Group::SmeI64),
            150 => Some(Aarch64Group::F32Mm),
            151 => Some(Aarch64Group::F64Mm),
            152 => Some(Aarch64Group::I8Mm),
            153 => Some(Aarch64Group::V81A),
            154 => Some(Aarch64Group::V83A),
            155 => Some(Aarch64Group::V84A),
            _ => None,
        }
    }

    /// The name by which the disassembler knows this group.
    pub fn as_str(&self) -> (s: &'static str)
        ensures
            s@ == self.name(),
    {
        match self {
            Aarch64Group::Jump => "jump",
            Aarch64Group::Call => "call",
            Aarch64Group::Return => "return",
            Aarch64Group::Int => "int",
            Aarch64Group::Privilege => "privilege",
            Aarch64Group::BranchRelative => "branch_relative",
            Aarch64Group::PointerAuthentication => "pointer authentication",
            Aarch64Group::Crypto => "crypto",
            Aarch64Group::Fparmv8 => "fparmv8",
            Aarch64Group::Neon => "neon",
            Aarch64Group::Crc => "crc",
            Aarch64Group::Aes => "aes",
            Aarch64Group::Dotprod => "dotprod",
            Aarch64Group::Fullfp16 => "fullfp16",
            Aarch64Group::Lse => "lse",
            Aarch64Group::Rcpc => "rcpc",
            Aarch64Group::Rdm => "rdm",
            Aarch64Group::Sha2 => "sha2",
            Aarch64Group::Sha3 => "sha3",
            Aarch64Group::Sm4 => "sm4",
            Aarch64Group::Sve => "sve",
            Aarch64Group::Sve2 => "sve2",
            Aarch64Group::Sve2Aes => "sve2-aes",
            Aarch64Group::Sve2Bitperm => "sve2-bitperm",
            Aarch64Group::Sve2Sha3 => "sve2-sha3",
            Aarch64Group::Sve2Sm4 => "sve2-sm4",
            Aarch64Group::Sme => "sme",
            Aarch64Group::SmeF64 => "sme-f64",
            Aarch64Group::SmeI64 => "sme-i64",
            Aarch64Group::F32Mm => "f32mm",
            Aarch64Group::F64Mm => "f64mm",
            Aarch64Group::I8Mm => "i8mm",
            Aarch64Group::V81A => "v8_1a",
            Aarch64Group::V83A => "v8_3a",
            Aarch64Group::V84A => "v8_4a",
        }
    }
}

} // verus!
