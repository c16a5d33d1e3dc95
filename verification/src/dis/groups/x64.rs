//! The instruction groups of x86-64, as the disassembler numbers and names them.

use vstd::prelude::*;

verus! {

/// An instruction group of x86-64.
#[derive(Clone, Copy, Debug, PartialEq, Eq, Structural)]
pub enum X64Group {
    Jump,
    Call,
    Ret,
    Int,
    Iret,
    Privilege,
    BranchRelative,
    Vm,
    Group3DNow,
    Aes,
    Adx,
    Avx,
    Avx2,
    Avx512,
    Bmi,
    Bmi2,
    Cmov,
    Fc16,
    Fma,
    Fma4,
    Fsgsbase,
    Hle,
    Mmx,
    Mode32,
    Mode64,
    Rtm,
    Sha,
    Sse1,
    Sse2,
    Sse3,
    Sse41,
    Sse42,
    Sse4A,
    Ssse3,
    Pclmul,
    Xop,
    Cdi,
    Eri,
    Tbm,
    Group16Bitmode,
    Not64Bitmode,
    Sgx,
    Dqi,
    Bwi,
    Pfi,
    Vlx,
    Smap,
    Novlx,
    Fpu,
}

impl X64Group {
    /// The number by which the disassembler knows this group.
    pub open spec fn num_of(self) -> u8 {
        match self {
            X64Group::Jump => 1,
            X64Group::Call => 2,
            X64Group::Ret => 3,
            X64Group::Int => 4,
            X64Group::Iret => 5,
            X64Group::Privilege => 6,
            X64Group::BranchRelative => 7,
            X64Group::Vm => 128,
            X64Group::Group3DNow => 129,
            X64Group::Aes => 130,
            X64Group::Adx => 131,
            X64Group::Avx => 132,
            X64Group::Avx2 => 133,
            X64Group::Avx512 => 134,
            X64Group::Bmi => 135,
            X64Group::Bmi2 => 136,
            X64Group::Cmov => 137,
            X64Group::Fc16 => 138,
            X64Group::Fma => 139,
            X64Group::Fma4 => 140,
            X64Group::Fsgsbase => 141,
            X64Group::Hle => 142,
            X64Group::Mmx => 143,
            X64Group::Mode32 => 144,
            X64Group::Mode64 => 145,
            X64Group::Rtm => 146,
            X64Group::Sha => 147,
            X64Group::Sse1 => 148,
            X64Group::Sse2 => 149,
            X64Group::Sse3 => 150,
            X64Group::Sse41 => 151,
            X64Group::Sse42 => 152,
            X64Group::Sse4A => 153,
            X64Group::Ssse3 => 154,
            X64Group::Pclmul => 155,
            X64Group::Xop => 156,
            X64Group::Cdi => 157,
            X64Group::Eri => 158,
            X64Group::Tbm => 159,
            X64Group::Group16Bitmode => 160,
            X64Group::Not64Bitmode => 161,
            X64Group::Sgx => 162,
            X64Group::Dqi => 163,
            X64Group::Bwi => 164,
            X64Group::Pfi => 165,
            X64Group::Vlx => 166,
            X64Group::Smap => 167,
            X64Group::Novlx => 168,
            X64Group::Fpu => 169,
        }
    }

    /// The name by which the disassembler knows this group.
    pub open spec fn name(self) -> Seq<char> {
        match self {
            X64Group::Jump => "jump"@,
            X64Group::Call => "call"@,
            X64Group::Ret => "ret"@,
            X64Group::Int => "int"@,
            X64Group::Iret => "iret"@,
            X64Group::Privilege => "privilege"@,
            X64Group::BranchRelative => "branch_relative"@,
            X64Group::Vm => "vm"@,
            X64Group::Group3DNow => "3dnow"@,
            X64Group::Aes => "aes"@,
            X64Group::Adx => "adx"@,
            X64Group::Avx => "avx"@,
            X64Group::Avx2 => "avx2"@,
            X64Group::Avx512 => "avx512"@,
            X64Group::Bmi => "bmi"@,
            X64Group::Bmi2 => "bmi2"@,
            X64Group::Cmov => "cmov"@,
            X64Group::Fc16 => "fc16"@,
            X64Group::Fma => "fma"@,
            X64Group::Fma4 => "fma4"@,
            X64Group::Fsgsbase => "fsgsbase"@,
            X64Group::Hle => "hle"@,
            X64Group::Mmx => "mmx"@,
            X64Group::Mode32 => "mode32"@,
            X64Group::Mode64 => "mode64"@,
            X64Group::Rtm => "rtm"@,
            X64Group::Sha => "sha"@,
            X64Group::Sse1 => "sse1"@,
            X64Group::Sse2 => "sse2"@,
            X64Group::Sse3 => "sse3"@,
            X64Group::Sse41 => "sse41"@,
            X64Group::Sse42 => "sse42"@,
            X64Group::Sse4A => "sse4a"@,
            X64Group::Ssse3 => "ssse3"@,
            X64Group::Pclmul => "pclmul"@,
            X64Group::Xop => "xop"@,
            X64Group::Cdi => "cdi"@,
            X64Group::Eri => "eri"@,
            X64Group::Tbm => "tbm"@,
            X64Group::Group16Bitmode => "16bitmode"@,
            X64Group::Not64Bitmode => "not64bitmode"@,
            X64Group::Sgx => "sgx"@,
            X64Group::Dqi => "dqi"@,
            X64Group::Bwi => "bwi"@,
            X64Group::Pfi => "pfi"@,
            X64Group::Vlx => "vlx"@,
            X64Group::Smap => "smap"@,
            X64Group::Novlx => "novlx"@,
            X64Group::Fpu => "fpu"@,
        }
    }

    /// The group of a number, if the number stands for one.
    pub fn from_num(num: u8) -> (r: Option<Self>)
        ensures
            r matches Some(g) ==> g.num_of() == num,
            r is None ==> forall|g: X64Group| g.num_of() != num,
    {
        match num {
            1 => Some(X64Group::Jump),
            2 => Some(X64Group::Call),
            3 => Some(X64Group::Ret),
            4 => Some(X64Group::Int),
            5 => Some(X64Group::Iret),
            6 => Some(X64Group::Privilege),
            7 => Some(X64Group::BranchRelative),
            128 => Some(X64Group::Vm),
            129 => Some(X64Group::Group3DNow),
            130 => Some(X64Group::Aes),
            131 => Some(X64Group::Adx),
            132 => Some(X64Group::Avx),
            133 => Some(X64Group::Avx2),
            134 => Some(X64Group::Avx512),
            135 => Some(X64Group::Bmi),
            136 => Some(X64Group::Bmi2),
            137 => Some(X64Group::Cmov),
            138 => Some(X64Group::Fc16),
            139 => Some(X64Group::Fma),
            140 => Some(X64Group::Fma4),
            141 => Some(X64Group::Fsgsbase),
            142 => Some(X64Group::Hle),
            143 => Some(X64Group::Mmx),
            144 => Some(X64Group::Mode32),
            145 => Some(X64Group::Mode64),
            146 => Some(X64Group::Rtm),
            147 => Some(X64Group::Sha),
            148 => Some(X64Group::Sse1),
            149 => Some(X64Group::Sse2),
            150 => Some(X64Group::Sse3),
            151 => Some(X64Group::Sse41),
            152 => Some(X64Group::Sse42),
            153 => Some(X64Group::Sse4A),
            154 => Some(X64Group::Ssse3),
            155 => Some(X64Group::Pclmul),
            156 => Some(X64Group::Xop),
            157 => Some(X64Group::Cdi),
            158 => Some(X64Group::Eri),
            159 => Some(X64Group::Tbm),
            160 => Some(X64Group::Group16Bitmode),
            161 => Some(X64Group::Not64Bitmode),
            162 => Some(X64Group::Sgx),
            163 => Some(X64Group::Dqi),
            164 => Some(X64Group::Bwi),
            165 => Some(X64Group::Pfi),
            166 => Some(X64Group::Vlx),
            167 => Some(X64Group::Smap),
            168 => Some(X64Group::Novlx),
            169 => Some(X64Group::Fpu),
            _ => None,
        }
    }

    /// The name by which the disassembler knows this group.
    pub fn as_str(&self) -> (s: &'static str)
        ensures
            s@ == self.name(),
    {
        match self {
            X64Group::Jump => "jump",
            X64Group::Call => "call",
            X64Group::Ret => "ret",
            X64Group::Int => "int",
            X64Group::Iret => "iret",
            X64Group::Privilege => "privilege",
            X64Group::BranchRelative => "branch_relative",
            X64Group::Vm => "vm",
            X64Group::Group3DNow => "3dnow",
            X64Group::Aes => "aes",
            X64Group::Adx => "adx",
            X64Group::Avx => "avx",
            X64Group::Avx2 => "avx2",
            X64Group::Avx512 => "avx512",
            X64Group::Bmi => "bmi",
            X64Group::Bmi2 => "bmi2",
            X64Group::Cmov => "cmov",
            X64Group::Fc16 => "fc16",
            X64Group::Fma => "fma",
            X64Group::Fma4 => "fma4",
            X64Group::Fsgsbase => "fsgsbase",
            X64Group::Hle => "hle",
            X64Group::Mmx => "mmx",
            X64Group::Mode32 => "mode32",
            X64Group::Mode64 => "mode64",
            X64Group::Rtm => "rtm",
            X64Group::Sha => "sha",
            X64Group::Sse1 => "sse1",
            X64Group::Sse2 => "sse2",
            X64Group::Sse3 => "sse3",
            X64Group::Sse41 => "sse41",
            X64Group::Sse42 => "sse42",
            X64Group::Sse4A => "sse4a",
            X64Group::Ssse3 => "ssse3",
            X64Group::Pclmul => "pclmul",
            X64Group::Xop => "xop",
            X64Group::Cdi => "cdi",
            X64Group::Eri => "eri",
            X64Group::Tbm => "tbm",
            X64Group::Group16Bitmode => "16bitmode",
            X64Group::Not64Bitmode => "not64bitmode",
            X64Group::Sgx => "sgx",
            X64Group::Dqi => "dqi",
            X64Group::Bwi => "bwi",
            X64Group::Pfi => "pfi",
            X64Group::Vlx => "vlx",
            X64Group::Smap => "smap",
            X64Group::Novlx => "novlx",
            X64Group::Fpu => "fpu",
        }
    }
}

} // verus!
