//! The registers of x86-64, as the disassembler numbers and names them.

use vstd::prelude::*;

verus! {

/// A register of x86-64.
#[derive(Clone, Copy, Debug, PartialEq, Eq, Structural)]
pub enum X64Reg {
    Ah,
    Al,
    Ax,
    Bh,
    Bl,
    Bp,
    Bpl,
    Bx,
    Ch,
    Cl,
    Cs,
    Cx,
    Dh,
    Di,
    Dil,
    Dl,
    Ds,
    Dx,
    Eax,
    Ebp,
    Ebx,
    Ecx,
    Edi,
    Edx,
    Rflags,
    Eip,
    Eiz,
    Es,
    Esi,
    Esp,
    Fpsw,
    Fs,
    Gs,
    Ip,
    Rax,
    Rbp,
    Rbx,
    Rcx,
    Rdi,
    Rdx,
    Rip,
    Riz,
    Rsi,
    Rsp,
    Si,
    Sil,
    Sp,
    Spl,
    Ss,
    Cr0,
    Cr1,
    Cr2,
    Cr3,
    Cr4,
    Cr5,
    Cr6,
    Cr7,
    Cr8,
    Cr9,
    Cr10,
    Cr11,
    Cr12,
    Cr13,
    Cr14,
    Cr15,
    Dr0,
    Dr1,
    Dr2,
    Dr3,
    Dr4,
    Dr5,
    Dr6,
    Dr7,
    Dr8,
    Dr9,
    Dr10,
    Dr11,
    Dr12,
    Dr13,
    Dr14,
    Dr15,
    Fp0,
    Fp1,
    Fp2,
    Fp3,
    Fp4,
    Fp5,
    Fp6,
    Fp7,
    K0,
    K1,
    K2,
    K3,
    K4,
    K5,
    K6,
    K7,
    Mm0,
    Mm1,
    Mm2,
    Mm3,
    Mm4,
    Mm5,
    Mm6,
    Mm7,
    R8,
    R9,
    R10,
    R11,
    R12,
    R13,
    R14,
    R15,
    St0,
    St1,
    St2,
    St3,
    St4,
    St5,
    St6,
    St7,
    Xmm0,
    Xmm1,
    Xmm2,
    Xmm3,
    Xmm4,
    Xmm5,
    Xmm6,
    Xmm7,
    Xmm8,
    Xmm9,
    Xmm10,
    Xmm11,
    Xmm12,
    Xmm13,
    Xmm14,
    Xmm15,
    Xmm16,
    Xmm17,
    Xmm18,
    Xmm19,
    Xmm20,
    Xmm21,
    Xmm22,
    Xmm23,
    Xmm24,
    Xmm25,
    Xmm26,
    Xmm27,
    Xmm28,
    Xmm29,
    Xmm30,
    Xmm31,
    Ymm0,
    Ymm1,
    Ymm2,
    Ymm3,
    Ymm4,
    Ymm5,
    Ymm6,
    Ymm7,
    Ymm8,
    Ymm9,
    Ymm10,
    Ymm11,
    Ymm12,
    Ymm13,
    Ymm14,
    Ymm15,
    Ymm16,
    Ymm17,
    Ymm18,
    Ymm19,
    Ymm20,
    Ymm21,
    Ymm22,
    Ymm23,
    Ymm24,
    Ymm25,
    Ymm26,
    Ymm27,
    Ymm28,
    Ymm29,
    Ymm30,
    Ymm31,
    Zmm0,
    Zmm1,
    Zmm2,
    Zmm3,
    Zmm4,
    Zmm5,
    Zmm6,
    Zmm7,
    Zmm8,
    Zmm9,
    Zmm10,
    Zmm11,
    Zmm12,
    Zmm13,
    Zmm14,
    Zmm15,
    Zmm16,
    Zmm17,
    Zmm18,
    Zmm19,
    Zmm20,
    Zmm21,
    Zmm22,
    Zmm23,
    Zmm24,
    Zmm25,
    Zmm26,
    Zmm27,
    Zmm28,
    Zmm29,
    Zmm30,
    Zmm31,
    R8B,
    R9B,
    R10B,
    R11B,
    R12B,
    R13B,
    R14B,
    R15B,
    R8D,
    R9D,
    R10D,
    R11D,
    R12D,
    R13D,
    R14D,
    R15D,
    R8W,
    R9W,
    R10W,
    R11W,
    R12W,
    R13W,
    R14W,
    R15W,
    Bnd0,
    Bnd1,
    Bnd2,
    Bnd3,
}

impl X64Reg {
    /// The number by which the disassembler knows this register.
    pub open spec fn num_of(self) -> u16 {
        match self {
            X64Reg::Ah => 1,
            X64Reg::Al => 2,
            X64Reg::Ax => 3,
            X64Reg::Bh => 4,
            X64Reg::Bl => 5,
            X64Reg::Bp => 6,
            X64Reg::Bpl => 7,
            X64Reg::Bx => 8,
            X64Reg::Ch => 9,
            X64Reg::Cl => 10,
            X64Reg::Cs => 11,
            X64Reg::Cx => 12,
            X64Reg::Dh => 13,
            X64Reg::Di => 14,
            X64Reg::Dil => 15,
            X64Reg::Dl => 16,
            X64Reg::Ds => 17,
            X64Reg::Dx => 18,
            X64Reg::Eax => 19,
            X64Reg::Ebp => 20,
            X64Reg::Ebx => 21,
            X64Reg::Ecx => 22,
            X64Reg::Edi => 23,
            X64Reg::Edx => 24,
            X64Reg::Rflags => 25,
            X64Reg::Eip => 26,
            X64Reg::Eiz => 27,
            X64Reg::Es => 28,
            X64Reg::Esi => 29,
            X64Reg::Esp => 30,
            X64Reg::Fpsw => 31,
            X64Reg::Fs => 32,
            X64Reg::Gs => 33,
            X64Reg::Ip => 34,
            X64Reg::Rax => 35,
            X64Reg::Rbp => 36,
            X64Reg::Rbx => 37,
            X64Reg::Rcx => 38,
            X64Reg::Rdi => 39,
            X64Reg::Rdx => 40,
            X64Reg::Rip => 41,
            X64Reg::Riz => 42,
            X64Reg::Rsi => 43,
            X64Reg::Rsp => 44,
            X64Reg::Si => 45,
            X64Reg::Sil => 46,
            X64Reg::Sp => 47,
            X64Reg::Spl => 48,
            X64Reg::Ss => 49,
            X64Reg::Cr0 => 50,
            X64Reg::Cr1 => 51,
            X64Reg::Cr2 => 52,
            X64Reg::Cr3 => 53,
            X64Reg::Cr4 => 54,
            X64Reg::Cr5 => 55,
            X64Reg::Cr6 => 56,
            X64Reg::Cr7 => 57,
            X64Reg::Cr8 => 58,
            X64Reg::Cr9 => 59,
            X64Reg::Cr10 => 60,
            X64Reg::Cr11 => 61,
            X64Reg::Cr12 => 62,
            X64Reg::Cr13 => 63,
            X64Reg::Cr14 => 64,
            X64Reg::Cr15 => 65,
            X64Reg::Dr0 => 66,
            X64Reg::Dr1 => 67,
            X64Reg::Dr2 => 68,
            X64Reg::Dr3 => 69,
            X64Reg::Dr4 => 70,
            X64Reg::Dr5 => 71,
            X64Reg::Dr6 => 72,
            X64Reg::Dr7 => 73,
            X64Reg::Dr8 => 74,
            X64Reg::Dr9 => 75,
            X64Reg::Dr10 => 76,
            X64Reg::Dr11 => 77,
            X64Reg::Dr12 => 78,
            X64Reg::Dr13 => 79,
            X64Reg::Dr14 => 80,
            X64Reg::Dr15 => 81,
            X64Reg::Fp0 => 82,
            X64Reg::Fp1 => 83,
            X64Reg::Fp2 => 84,
            X64Reg::Fp3 => 85,
            X64Reg::Fp4 => 86,
            X64Reg::Fp5 => 87,
            X64Reg::Fp6 => 88,
            X64Reg::Fp7 => 89,
            X64Reg::K0 => 90,
            X64Reg::K1 => 91,
            X64Reg::K2 => 92,
            X64Reg::K3 => 93,
            X64Reg::K4 => 94,
            X64Reg::K5 => 95,
            X64Reg::K6 => 96,
            X64Reg::K7 => 97,
            X64Reg::Mm0 => 98,
            X64Reg::Mm1 => 99,
            X64Reg::Mm2 => 100,
            X64Reg::Mm3 => 101,
            X64Reg::Mm4 => 102,
            X64Reg::Mm5 => 103,
            X64Reg::Mm6 => 104,
            X64Reg::Mm7 => 105,
            X64Reg::R8 => 106,
            X64Reg::R9 => 107,
            X64Reg::R10 => 108,
            X64Reg::R11 => 109,
            X64Reg::R12 => 110,
            X64Reg::R13 => 111,
            X64Reg::R14 => 112,
            X64Reg::R15 => 113,
            X64Reg::St0 => 114,
            X64Reg::St1 => 115,
            X64Reg::St2 => 116,
            X64Reg::St3 => 117,
            X64Reg::St4 => 118,
            X64Reg::St5 => 119,
            X64Reg::St6 => 120,
            X64Reg::St7 => 121,
            X64Reg::Xmm0 => 122,
            X64Reg::Xmm1 => 123,
            X64Reg::Xmm2 => 124,
            X64Reg::Xmm3 => 125,
            X64Reg::Xmm4 => 126,
            X64Reg::Xmm5 => 127,
            X64Reg::Xmm6 => 128,
            X64Reg::Xmm7 => 129,
            X64Reg::Xmm8 => 130,
            X64Reg::Xmm9 => 131,
            X64Reg::Xmm10 => 132,
            X64Reg::Xmm11 => 133,
            X64Reg::Xmm12 => 134,
            X64Reg::Xmm13 => 135,
            X64Reg::Xmm14 => 136,
            X64Reg::Xmm15 => 137,
            X64Reg::Xmm16 => 138,
            X64Reg::Xmm17 => 139,
            X64Reg::Xmm18 => 140,
            X64Reg::Xmm19 => 141,
            X64Reg::Xmm20 => 142,
            X64Reg::Xmm21 => 143,
            X64Reg::Xmm22 => 144,
            X64Reg::Xmm23 => 145,
            X64Reg::Xmm24 => 146,
            X64Reg::Xmm25 => 147,
            X64Reg::Xmm26 => 148,
            X64Reg::Xmm27 => 149,
            X64Reg::Xmm28 => 150,
            X64Reg::Xmm29 => 151,
            X64Reg::Xmm30 => 152,
            X64Reg::Xmm31 => 153,
            X64Reg::Ymm0 => 154,
            X64Reg::Ymm1 => 155,
            X64Reg::Ymm2 => 156,
            X64Reg::Ymm3 => 157,
            X64Reg::Ymm4 => 158,
            X64Reg::Ymm5 => 159,
            X64Reg::Ymm6 => 160,
            X64Reg::Ymm7 => 161,
            X64Reg::Ymm8 => 162,
            X64Reg::Ymm9 => 163,
            X64Reg::Ymm10 => 164,
            X64Reg::Ymm11 => 165,
            X64Reg::Ymm12 => 166,
            X64Reg::Ymm13 => 167,
            X64Reg::Ymm14 => 168,
            X64Reg::Ymm15 => 169,
            X64Reg::Ymm16 => 170,
            X64Reg::Ymm17 => 171,
            X64Reg::Ymm18 => 172,
            X64Reg::Ymm19 => 173,
            X64Reg::Ymm20 => 174,
            X64Reg::Ymm21 => 175,
            X64Reg::Ymm22 => 176,
            X64Reg::Ymm23 => 177,
            X64Reg::Ymm24 => 178,
            X64Reg::Ymm25 => 179,
            X64Reg::Ymm26 => 180,
            X64Reg::Ymm27 => 181,
            X64Reg::Ymm28 => 182,
            X64Reg::Ymm29 => 183,
            X64Reg::Ymm30 => 184,
            X64Reg::Ymm31 => 185,
            X64Reg::Zmm0 => 186,
            X64Reg::Zmm1 => 187,
            X64Reg::Zmm2 => 188,
            X64Reg::Zmm3 => 189,
            X64Reg::Zmm4 => 190,
            X64Reg::Zmm5 => 191,
            X64Reg::Zmm6 => 192,
            X64Reg::Zmm7 => 193,
            X64Reg::Zmm8 => 194,
            X64Reg::Zmm9 => 195,
            X64Reg::Zmm10 => 196,
            X64Reg::Zmm11 => 197,
            X64Reg::Zmm12 => 198,
            X64Reg::Zmm13 => 199,
            X64Reg::Zmm14 => 200,
            X64Reg::Zmm15 => 201,
            X64Reg::Zmm16 => 202,
            X64Reg::Zmm17 => 203,
            X64Reg::Zmm18 => 204,
            X64Reg::Zmm19 => 205,
            X64Reg::Zmm20 => 206,
            X64Reg::Zmm21 => 207,
            X64Reg::Zmm22 => 208,
            X64Reg::Zmm23 => 209,
            X64Reg::Zmm24 => 210,
            X64Reg::Zmm25 => 211,
            X64Reg::Zmm26 => 212,
            X64Reg::Zmm27 => 213,
            X64Reg::Zmm28 => 214,
            X64Reg::Zmm29 => 215,
            X64Reg::Zmm30 => 216,
            X64Reg::Zmm31 => 217,
            X64Reg::R8B => 218,
            X64Reg::R9B => 219,
            X64Reg::R10B => 220,
            X64Reg::R11B => 221,
            X64Reg::R12B => 222,
            X64Reg::R13B => 223,
            X64Reg::R14B => 224,
            X64Reg::R15B => 225,
            X64Reg::R8D => 226,
            X64Reg::R9D => 227,
            X64Reg::R10D => 228,
            X64Reg::R11D => 229,
            X64Reg::R12D => 230,
            X64Reg::R13D => 231,
            X64Reg::R14D => 232,
            X64Reg::R15D => 233,
            X64Reg::R8W => 234,
            X64Reg::R9W => 235,
            X64Reg::R10W => 236,
            X64Reg::R11W => 237,
            X64Reg::R12W => 238,
            X64Reg::R13W => 239,
            X64Reg::R14W => 240,
            X64Reg::R15W => 241,
            X64Reg::Bnd0 => 242,
            X64Reg::Bnd1 => 243,
            X64Reg::Bnd2 => 244,
            X64Reg::Bnd3 => 245,
        }
    }

    /// The name by which the disassembler knows this register.
    pub open spec fn name(self) -> Seq<char> {
        match self {
            X64Reg::Ah => "ah"@,
            X64Reg::Al => "al"@,
            X64Reg::Ax => "ax"@,
            X64Reg::Bh => "bh"@,
            X64Reg::Bl => "bl"@,
            X64Reg::Bp => "bp"@,
            X64Reg::Bpl => "bpl"@,
            X64Reg::Bx => "bx"@,
            X64Reg::Ch => "ch"@,
            X64Reg::Cl => "cl"@,
            X64Reg::Cs => "cs"@,
            X64Reg::Cx => "cx"@,
            X64Reg::Dh => "dh"@,
            X64Reg::Di => "di"@,
            X64Reg::Dil => "dil"@,
            X64Reg::Dl => "dl"@,
            X64Reg::Ds => "ds"@,
            X64Reg::Dx => "dx"@,
            X64Reg::Eax => "eax"@,
            X64Reg::Ebp => "ebp"@,
            X64Reg::Ebx => "ebx"@,
            X64Reg::Ecx => "ecx"@,
            X64Reg::Edi => "edi"@,
            X64Reg::Edx => "edx"@,
            X64Reg::Rflags => "rflags"@,
            X64Reg::Eip => "eip"@,
            X64Reg::Eiz => "eiz"@,
            X64Reg::Es => "es"@,
            X64Reg::Esi => "esi"@,
            X64Reg::Esp => "esp"@,
            X64Reg::Fpsw => "fpsw"@,
            X64Reg::Fs => "fs"@,
            X64Reg::Gs => "gs"@,
            X64Reg::Ip => "ip"@,
            X64Reg::Rax => "rax"@,
            X64Reg::Rbp => "rbp"@,
            X64Reg::Rbx => "rbx"@,
            X64Reg::Rcx => "rcx"@,
            X64Reg::Rdi => "rdi"@,
            X64Reg::Rdx => "rdx"@,
            X64Reg::Rip => "rip"@,
            X64Reg::Riz => "riz"@,
            X64Reg::Rsi => "rsi"@,
            X64Reg::Rsp => "rsp"@,
            X64Reg::Si => "si"@,
            X64Reg::Sil => "sil"@,
            X64Reg::Sp => "sp"@,
            X64Reg::Spl => "spl"@,
            X64Reg::Ss => "ss"@,
            X64Reg::Cr0 => "cr0"@,
            X64Reg::Cr1 => "cr1"@,
            X64Reg::Cr2 => "cr2"@,
            X64Reg::Cr3 => "cr3"@,
            X64Reg::Cr4 => "cr4"@,
            X64Reg::Cr5 => "cr5"@,
            X64Reg::Cr6 => "cr6"@,
            X64Reg::Cr7 => "cr7"@,
            X64Reg::Cr8 => "cr8"@,
            X64Reg::Cr9 => "cr9"@,
            X64Reg::Cr10 => "cr10"@,
            X64Reg::Cr11 => "cr11"@,
            X64Reg::Cr12 => "cr12"@,
            X64Reg::Cr13 => "cr13"@,
            X64Reg::Cr14 => "cr14"@,
            X64Reg::Cr15 => "cr15"@,
            X64Reg::Dr0 => "dr0"@,
            X64Reg::Dr1 => "dr1"@,
            X64Reg::Dr2 => "dr2"@,
            X64Reg::Dr3 => "dr3"@,
            X64Reg::Dr4 => "dr4"@,
            X64Reg::Dr5 => "dr5"@,
            X64Reg::Dr6 => "dr6"@,
            X64Reg::Dr7 => "dr7"@,
            X64Reg::Dr8 => "dr8"@,
            X64Reg::Dr9 => "dr9"@,
            X64Reg::Dr10 => "dr10"@,
            X64Reg::Dr11 => "dr11"@,
            X64Reg::Dr12 => "dr12"@,
            X64Reg::Dr13 => "dr13"@,
            X64Reg::Dr14 => "dr14"@,
            X64Reg::Dr15 => "dr15"@,
            X64Reg::Fp0 => "fp0"@,
            X64Reg::Fp1 => "fp1"@,
            X64Reg::Fp2 => "fp2"@,
            X64Reg::Fp3 => "fp3"@,
            X64Reg::Fp4 => "fp4"@,
            X64Reg::Fp5 => "fp5"@,
            X64Reg::Fp6 => "fp6"@,
            X64Reg::Fp7 => "fp7"@,
            X64Reg::K0 => "k0"@,
            X64Reg::K1 => "k1"@,
            X64Reg::K2 => "k2"@,
            X64Reg::K3 => "k3"@,
            X64Reg::K4 => "k4"@,
            X64Reg::K5 => "k5"@,
            X64Reg::K6 => "k6"@,
            X64Reg::K7 => "k7"@,
            X64Reg::Mm0 => "mm0"@,
            X64Reg::Mm1 => "mm1"@,
            X64Reg::Mm2 => "mm2"@,
            X64Reg::Mm3 => "mm3"@,
            X64Reg::Mm4 => "mm4"@,
            X64Reg::Mm5 => "mm5"@,
            X64Reg::Mm6 => "mm6"@,
            X64Reg::Mm7 => "mm7"@,
            X64Reg::R8 => "r8"@,
            X64Reg::R9 => "r9"@,
            X64Reg::R10 => "r10"@,
            X64Reg::R11 => "r11"@,
            X64Reg::R12 => "r12"@,
            X64Reg::R13 => "r13"@,
            X64Reg::R14 => "r14"@,
            X64Reg::R15 => "r15"@,
            X64Reg::St0 => "st(0)"@,
            X64Reg::St1 => "st(1)"@,
            X64Reg::St2 => "st(2)"@,
            X64Reg::St3 => "st(3)"@,
            X64Reg::St4 => "st(4)"@,
            X64Reg::St5 => "st(5)"@,
            X64Reg::St6 => "st(6)"@,
            X64Reg::St7 => "st(7)"@,
            X64Reg::Xmm0 => "xmm0"@,
            X64Reg::Xmm1 => "xmm1"@,
            X64Reg::Xmm2 => "xmm2"@,
            X64Reg::Xmm3 => "xmm3"@,
            X64Reg::Xmm4 => "xmm4"@,
            X64Reg::Xmm5 => "xmm5"@,
            X64Reg::Xmm6 => "xmm6"@,
            X64Reg::Xmm7 => "xmm7"@,
            X64Reg::Xmm8 => "xmm8"@,
            X64Reg::Xmm9 => "xmm9"@,
            X64Reg::Xmm10 => "xmm10"@,
            X64Reg::Xmm11 => "xmm11"@,
            X64Reg::Xmm12 => "xmm12"@,
            X64Reg::Xmm13 => "xmm13"@,
            X64Reg::Xmm14 => "xmm14"@,
            X64Reg::Xmm15 => "xmm15"@,
            X64Reg::Xmm16 => "xmm16"@,
            X64Reg::Xmm17 => "xmm17"@,
            X64Reg::Xmm18 => "xmm18"@,
            X64Reg::Xmm19 => "xmm19"@,
            X64Reg::Xmm20 => "xmm20"@,
            X64Reg::Xmm21 => "xmm21"@,
            X64Reg::Xmm22 => "xmm22"@,
            X64Reg::Xmm23 => "xmm23"@,
            X64Reg::Xmm24 => "xmm24"@,
            X64Reg::Xmm25 => "xmm25"@,
            X64Reg::Xmm26 => "xmm26"@,
            X64Reg::Xmm27 => "xmm27"@,
            X64Reg::Xmm28 => "xmm28"@,
            X64Reg::Xmm29 => "xmm29"@,
            X64Reg::Xmm30 => "xmm30"@,
            X64Reg::Xmm31 => "xmm31"@,
            X64Reg::Ymm0 => "ymm0"@,
            X64Reg::Ymm1 => "ymm1"@,
            X64Reg::Ymm2 => "ymm2"@,
            X64Reg::Ymm3 => "ymm3"@,
            X64Reg::Ymm4 => "ymm4"@,
            X64Reg::Ymm5 => "ymm5"@,
            X64Reg::Ymm6 => "ymm6"@,
            X64Reg::Ymm7 => "ymm7"@,
            X64Reg::Ymm8 => "ymm8"@,
            X64Reg::Ymm9 => "ymm9"@,
            X64Reg::Ymm10 => "ymm10"@,
            X64Reg::Ymm11 => "ymm11"@,
            X64Reg::Ymm12 => "ymm12"@,
            X64Reg::Ymm13 => "ymm13"@,
            X64Reg::Ymm14 => "ymm14"@,
            X64Reg::Ymm15 => "ymm15"@,
            X64Reg::Ymm16 => "ymm16"@,
            X64Reg::Ymm17 => "ymm17"@,
            X64Reg::Ymm18 => "ymm18"@,
            X64Reg::Ymm19 => "ymm19"@,
            X64Reg::Ymm20 => "ymm20"@,
            X64Reg::Ymm21 => "ymm21"@,
            X64Reg::Ymm22 => "ymm22"@,
            X64Reg::Ymm23 => "ymm23"@,
            X64Reg::Ymm24 => "ymm24"@,
            X64Reg::Ymm25 => "ymm25"@,
            X64Reg::Ymm26 => "ymm26"@,
            X64Reg::Ymm27 => "ymm27"@,
            X64Reg::Ymm28 => "ymm28"@,
            X64Reg::Ymm29 => "ymm29"@,
            X64Reg::Ymm30 => "ymm30"@,
            X64Reg::Ymm31 => "ymm31"@,
            X64Reg::Zmm0 => "zmm0"@,
            X64Reg::Zmm1 => "zmm1"@,
            X64Reg::Zmm2 => "zmm2"@,
            X64Reg::Zmm3 => "zmm3"@,
            X64Reg::Zmm4 => "zmm4"@,
            X64Reg::Zmm5 => "zmm5"@,
            X64Reg::Zmm6 => "zmm6"@,
            X64Reg::Zmm7 => "zmm7"@,
            X64Reg::Zmm8 => "zmm8"@,
            X64Reg::Zmm9 => "zmm9"@,
            X64Reg::Zmm10 => "zmm10"@,
            X64Reg::Zmm11 => "zmm11"@,
            X64Reg::Zmm12 => "zmm12"@,
            X64Reg::Zmm13 => "zmm13"@,
            X64Reg::Zmm14 => "zmm14"@,
            X64Reg::Zmm15 => "zmm15"@,
            X64Reg::Zmm16 => "zmm16"@,
            X64Reg::Zmm17 => "zmm17"@,
            X64Reg::Zmm18 => "zmm18"@,
            X64Reg::Zmm19 => "zmm19"@,
            X64Reg::Zmm20 => "zmm20"@,
            X64Reg::Zmm21 => "zmm21"@,
            X64Reg::Zmm22 => "zmm22"@,
            X64Reg::Zmm23 => "zmm23"@,
            X64Reg::Zmm24 => "zmm24"@,
            X64Reg::Zmm25 => "zmm25"@,
            X64Reg::Zmm26 => "zmm26"@,
            X64Reg::Zmm27 => "zmm27"@,
            X64Reg::Zmm28 => "zmm28"@,
            X64Reg::Zmm29 => "zmm29"@,
            X64Reg::Zmm30 => "zmm30"@,
            X64Reg::Zmm31 => "zmm31"@,
            X64Reg::R8B => "r8b"@,
            X64Reg::R9B => "r9b"@,
            X64Reg::R10B => "r10b"@,
            X64Reg::R11B => "r11b"@,
            X64Reg::R12B => "r12b"@,
            X64Reg::R13B => "r13b"@,
            X64Reg::R14B => "r14b"@,
            X64Reg::R15B => "r15b"@,
            X64Reg::R8D => "r8d"@,
            X64Reg::R9D => "r9d"@,
            X64Reg::R10D => "r10d"@,
            X64Reg::R11D => "r11d"@,
            X64Reg::R12D => "r12d"@,
            X64Reg::R13D => "r13d"@,
            X64Reg::R14D => "r14d"@,
            X64Reg::R15D => "r15d"@,
            X64Reg::R8W => "r8w"@,
            X64Reg::R9W => "r9w"@,
            X64Reg::R10W => "r10w"@,
            X64Reg::R11W => "r11w"@,
            X64Reg::R12W => "r12w"@,
            X64Reg::R13W => "r13w"@,
            X64Reg::R14W => "r14w"@,
            X64Reg::R15W => "r15w"@,
            X64Reg::Bnd0 => "bnd0"@,
            X64Reg::Bnd1 => "bnd1"@,
            X64Reg::Bnd2 => "bnd2"@,
            X64Reg::Bnd3 => "bnd3"@,
        }
    }

    /// The full-width register that this register is a part of; itself if it is no part of another.
    pub open spec fn canonical_of(self) -> Self {
        match self {
            X64Reg::Ah => X64Reg::Rax,
            X64Reg::Al => X64Reg::Rax,
            X64Reg::Ax => X64Reg::Rax,
            X64Reg::Bh => X64Reg::Rbx,
            X64Reg::Bl => X64Reg::Rbx,
            X64Reg::Bp => X64Reg::Rbp,
            X64Reg::Bpl => X64Reg::Rbp,
            X64Reg::Bx => X64Reg::Rbx,
            X64Reg::Ch => X64Reg::Rcx,
            X64Reg::Cl => X64Reg::Rcx,
            X64Reg::Cx => X64Reg::Rcx,
            X64Reg::Dh => X64Reg::Rdx,
            X64Reg::Di => X64Reg::Rdi,
            X64Reg::Dil => X64Reg::Rdi,
            X64Reg::Dl => X64Reg::Rdx,
            X64Reg::Dx => X64Reg::Rdx,
            X64Reg::Eax => X64Reg::Rax,
            X64Reg::Ebp => X64Reg::Rbp,
            X64Reg::Ebx => X64Reg::Rbx,
            X64Reg::Ecx => X64Reg::Rcx,
            X64Reg::Edi => X64Reg::Rdi,
            X64Reg::Edx => X64Reg::Rdx,
            X64Reg::Eip => X64Reg::Rip,
            X64Reg::Esi => X64Reg::Rsi,
            X64Reg::Esp => X64Reg::Rsp,
            X64Reg::Si => X64Reg::Rsi,
            X64Reg::Sil => X64Reg::Rsi,
            X64Reg::Sp => X64Reg::Rsp,
            X64Reg::Spl => X64Reg::Rsp,
            X64Reg::R8B => X64Reg::R8,
            X64Reg::R9B => X64Reg::R9,
            X64Reg::R10B => X64Reg::R10,
            X64Reg::R11B => X64Reg::R11,
            X64Reg::R12B => X64Reg::R12,
            X64Reg::R13B => X64Reg::R13,
            X64Reg::R14B => X64Reg::R14,
            X64Reg::R15B => X64Reg::R15,
            X64Reg::R8D => X64Reg::R8,
            X64Reg::R9D => X64Reg::R9,
            X64Reg::R10D => X64Reg::R10,
            X64Reg::R11D => X64Reg::R11,
            X64Reg::R12D => X64Reg::R12,
            X64Reg::R13D => X64Reg::R13,
            X64Reg::R14D => X64Reg::R14,
            X64Reg::R15D => X64Reg::R15,
            X64Reg::R8W => X64Reg::R8,
            X64Reg::R9W => X64Reg::R9,
            X64Reg::R10W => X64Reg::R10,
            X64Reg::R11W => X64Reg::R11,
            X64Reg::R12W => X64Reg::R12,
            X64Reg::R13W => X64Reg::R13,
            X64Reg::R14W => X64Reg::R14,
            X64Reg::R15W => X64Reg::R15,
            _ => self,
        }
    }

    /// The place of this register in a register snapshot, if it has one.
    pub open spec fn idx_of(self) -> Option<usize> {
        match self {
            X64Reg::Rax => Some(0),
            X64Reg::Rbp => Some(5),
            X64Reg::Rbx => Some(3),
            X64Reg::Rcx => Some(1),
            X64Reg::Rdi => Some(7),
            X64Reg::Rdx => Some(2),
            X64Reg::Rsi => Some(6),
            X64Reg::Rsp => Some(4),
            X64Reg::R8 => Some(8),
            X64Reg::R9 => Some(9),
            X64Reg::R10 => Some(10),
            X64Reg::R11 => Some(11),
            X64Reg::R12 => Some(12),
            X64Reg::R13 => Some(13),
            X64Reg::R14 => Some(14),
            X64Reg::R15 => Some(15),
            _ => None,
        }
    }

    /// The register of a number, if the number stands for one.
    pub fn from_num(num: u16) -> (r: Option<Self>)
        ensures
            r matches Some(reg) ==> reg.num_of() == num,
            r is None ==> forall|reg: X64Reg| reg.num_of() != num,
            r is Some <==> 1 <= num <= 245,
    {
        if num == 0 || num > 245 {
            assert forall|reg: X64Reg| reg.num_of() != num by {
                Self::lemma_num_range(reg);
            }
            return None;
        }
        Some(Self::of_num(num))
    }

    /// The numbers of the registers are those from 1 to the number of registers.
    pub proof fn lemma_num_range(reg: X64Reg)
        ensures
            1 <= reg.num_of() <= 245,
    {
    }

    fn of_num(num: u16) -> (reg: Self)
        requires
            1 <= num <= 245,
        ensures
            reg.num_of() == num,
    {
        if num <= 32 {
            Self::from_1_to_32(num)
        } else if num <= 64 {
            Self::from_33_to_64(num)
        } else if num <= 96 {
            Self::from_65_to_96(num)
        } else if num <= 128 {
            Self::from_97_to_128(num)
        } else if num <= 160 {
            Self::from_129_to_160(num)
        } else if num <= 192 {
            Self::from_161_to_192(num)
        } else if num <= 224 {
            Self::from_193_to_224(num)
        } else {
            Self::from_225_to_245(num)
        }
    }

    #[verifier::rlimit(50)]
    fn from_1_to_32(num: u16) -> (reg: Self)
        requires
            1 <= num <= 32,
        ensures
            reg.num_of() == num,
    {
        match num {
            1 => X64Reg::Ah,
            2 => X64Reg::Al,
            3 => X64Reg::Ax,
            4 => X64Reg::Bh,
            5 => X64Reg::Bl,
            6 => X64Reg::Bp,
            7 => X64Reg::Bpl,
            8 => X64Reg::Bx,
            9 => X64Reg::Ch,
            10 => X64Reg::Cl,
            11 => X64Reg::Cs,
            12 => X64Reg::Cx,
            13 => X64Reg::Dh,
            14 => X64Reg::Di,
            15 => X64Reg::Dil,
            16 => X64Reg::Dl,
            17 => X64Reg::Ds,
            18 => X64Reg::Dx,
            19 => X64Reg::Eax,
            20 => X64Reg::Ebp,
            21 => X64Reg::Ebx,
            22 => X64Reg::Ecx,
            23 => X64Reg::Edi,
            24 => X64Reg::Edx,
            25 => X64Reg::Rflags,
            26 => X64Reg::Eip,
            27 => X64Reg::Eiz,
            28 => X64Reg::Es,
            29 => X64Reg::Esi,
            30 => X64Reg::Esp,
            31 => X64Reg::Fpsw,
            _ => X64Reg::Fs,
        }
    }

    #[verifier::rlimit(50)]
    fn from_33_to_64(num: u16) -> (reg: Self)
        requires
            33 <= num <= 64,
        ensures
            reg.num_of() == num,
    {
        match num {
            33 => X64Reg::Gs,
            34 => X64Reg::Ip,
            35 => X64Reg::Rax,
            36 => X64Reg::Rbp,
            37 => X64Reg::Rbx,
            38 => X64Reg::Rcx,
            39 => X64Reg::Rdi,
            40 => X64Reg::Rdx,
            41 => X64Reg::Rip,
            42 => X64Reg::Riz,
            43 => X64Reg::Rsi,
            44 => X64Reg::Rsp,
            45 => X64Reg::Si,
            46 => X64Reg::Sil,
            47 => X64Reg::Sp,
            48 => X64Reg::Spl,
            49 => X64Reg::Ss,
            50 => X64Reg::Cr0,
            51 => X64Reg::Cr1,
            52 => X64Reg::Cr2,
            53 => X64Reg::Cr3,
            54 => X64Reg::Cr4,
            55 => X64Reg::Cr5,
            56 => X64Reg::Cr6,
            57 => X64Reg::Cr7,
            58 => X64Reg::Cr8,
            59 => X64Reg::Cr9,
            60 => X64Reg::Cr10,
            61 => X64Reg::Cr11,
            62 => X64Reg::Cr12,
            63 => X64Reg::Cr13,
            _ => X64Reg::Cr14,
        }
    }

    #[verifier::rlimit(50)]
    fn from_65_to_96(num: u16) -> (reg: Self)
        requires
            65 <= num <= 96,
        ensures
            reg.num_of() == num,
    {
        match num {
            65 => X64Reg::Cr15,
            66 => X64Reg::Dr0,
            67 => X64Reg::Dr1,
            68 => X64Reg::Dr2,
            69 => X64Reg::Dr3,
            70 => X64Reg::Dr4,
            71 => X64Reg::Dr5,
            72 => X64Reg::Dr6,
            73 => X64Reg::Dr7,
            74 => X64Reg::Dr8,
            75 => X64Reg::Dr9,
            76 => X64Reg::Dr10,
            77 => X64Reg::Dr11,
            78 => X64Reg::Dr12,
            79 => X64Reg::Dr13,
            80 => X64Reg::Dr14,
            81 => X64Reg::Dr15,
            82 => X64Reg::Fp0,
            83 => X64Reg::Fp1,
            84 => X64Reg::Fp2,
            85 => X64Reg::Fp3,
            86 => X64Reg::Fp4,
            87 => X64Reg::Fp5,
            88 => X64Reg::Fp6,
            89 => X64Reg::Fp7,
            90 => X64Reg::K0,
            91 => X64Reg::K1,
            92 => X64Reg::K2,
            93 => X64Reg::K3,
            94 => X64Reg::K4,
            95 => X64Reg::K5,
            _ => X64Reg::K6,
        }
    }

    #[verifier::rlimit(50)]
    fn from_97_to_128(num: u16) -> (reg: Self)
        requires
            97 <= num <= 128,
        ensures
            reg.num_of() == num,
    {
        match num {
            97 => X64Reg::K7,
            98 => X64Reg::Mm0,
            99 => X64Reg::Mm1,
            100 => X64Reg::Mm2,
            101 => X64Reg::Mm3,
            102 => X64Reg::Mm4,
            103 => X64Reg::Mm5,
            104 => X64Reg::Mm6,
            105 => X64Reg::Mm7,
            106 => X64Reg::R8,
            107 => X64Reg::R9,
            108 => X64Reg::R10,
            109 => X64Reg::R11,
            110 => X64Reg::R12,
            111 => X64Reg::R13,
            112 => X64Reg::R14,
            113 => X64Reg::R15,
            114 => X64Reg::St0,
            115 => X64Reg::St1,
            116 => X64Reg::St2,
            117 => X64Reg::St3,
            118 => X64Reg::St4,
            119 => X64Reg::St5,
            120 => X64Reg::St6,
            121 => X64Reg::St7,
            122 => X64Reg::Xmm0,
            123 => X64Reg::Xmm1,
            124 => X64Reg::Xmm2,
            125 => X64Reg::Xmm3,
            126 => X64Reg::Xmm4,
            127 => X64Reg::Xmm5,
            _ => X64Reg::Xmm6,
        }
    }

    #[verifier::rlimit(50)]
    fn from_129_to_160(num: u16) -> (reg: Self)
        requires
            129 <= num <= 160,
        ensures
            reg.num_of() == num,
    {
        match num {
            129 => X64Reg::Xmm7,
            130 => X64Reg::Xmm8,
            131 => X64Reg::Xmm9,
            132 => X64Reg::Xmm10,
            133 => X64Reg::Xmm11,
            134 => X64Reg::Xmm12,
            135 => X64Reg::Xmm13,
            136 => X64Reg::Xmm14,
            137 => X64Reg::Xmm15,
            138 => X64Reg::Xmm16,
            139 => X64Reg::Xmm17,
            140 => X64Reg::Xmm18,
            141 => X64Reg::Xmm19,
            142 => X64Reg::Xmm20,
            143 => X64Reg::Xmm21,
            144 => X64Reg::Xmm22,
            145 => X64Reg::Xmm23,
            146 => X64Reg::Xmm24,
            147 => X64Reg::Xmm25,
            148 => X64Reg::Xmm26,
            149 => X64Reg::Xmm27,
            150 => X64Reg::Xmm28,
            151 => X64Reg::Xmm29,
            152 => X64Reg::Xmm30,
            153 => X64Reg::Xmm31,
            154 => X64Reg::Ymm0,
            155 => X64Reg::Ymm1,
            156 => X64Reg::Ymm2,
            157 => X64Reg::Ymm3,
            158 => X64Reg::Ymm4,
            159 => X64Reg::Ymm5,
            _ => X64Reg::Ymm6,
        }
    }

    #[verifier::rlimit(50)]
    fn from_161_to_192(num: u16) -> (reg: Self)
        requires
            161 <= num <= 192,
        ensures
            reg.num_of() == num,
    {
        match num {
            161 => X64Reg::Ymm7,
            162 => X64Reg::Ymm8,
            163 => X64Reg::Ymm9,
            164 => X64Reg::Ymm10,
            165 => X64Reg::Ymm11,
            166 => X64Reg::Ymm12,
            167 => X64Reg::Ymm13,
            168 => X64Reg::Ymm14,
            169 => X64Reg::Ymm15,
            170 => X64Reg::Ymm16,
            171 => X64Reg::Ymm17,
            172 => X64Reg::Ymm18,
            173 => X64Reg::Ymm19,
            174 => X64Reg::Ymm20,
            175 => X64Reg::Ymm21,
            176 => X64Reg::Ymm22,
            177 => X64Reg::Ymm23,
            178 => X64Reg::Ymm24,
            179 => X64Reg::Ymm25,
            180 => X64Reg::Ymm26,
            181 => X64Reg::Ymm27,
            182 => X64Reg::Ymm28,
            183 => X64Reg::Ymm29,
            184 => X64Reg::Ymm30,
            185 => X64Reg::Ymm31,
            186 => X64Reg::Zmm0,
            187 => X64Reg::Zmm1,
            188 => X64Reg::Zmm2,
            189 => X64Reg::Zmm3,
            190 => X64Reg::Zmm4,
            191 => X64Reg::Zmm5,
            _ => X64Reg::Zmm6,
        }
    }

    #[verifier::rlimit(50)]
    fn from_193_to_224(num: u16) -> (reg: Self)
        requires
            193 <= num <= 224,
        ensures
            reg.num_of() == num,
    {
        match num {
            193 => X64Reg::Zmm7,
            194 => X64Reg::Zmm8,
            195 => X64Reg::Zmm9,
            196 => X64Reg::Zmm10,
            197 => X64Reg::Zmm11,
            198 => X64Reg::Zmm12,
            199 => X64Reg::Zmm13,
            200 => X64Reg::Zmm14,
            201 => X64Reg::Zmm15,
            202 => X64Reg::Zmm16,
            203 => X64Reg::Zmm17,
            204 => X64Reg::Zmm18,
            205 => X64Reg::Zmm19,
            206 => X64Reg::Zmm20,
            207 => X64Reg::Zmm21,
            208 => X64Reg::Zmm22,
            209 => X64Reg::Zmm23,
            210 => X64Reg::Zmm24,
            211 => X64Reg::Zmm25,
            212 => X64Reg::Zmm26,
            213 => X64Reg::Zmm27,
            214 => X64Reg::Zmm28,
            215 => X64Reg::Zmm29,
            216 => X64Reg::Zmm30,
            217 => X64Reg::Zmm31,
            218 => X64Reg::R8B,
            219 => X64Reg::R9B,
            220 => X64Reg::R10B,
            221 => X64Reg::R11B,
            222 => X64Reg::R12B,
            223 => X64Reg::R13B,
            _ => X64Reg::R14B,
        }
    }

    #[verifier::rlimit(50)]
    fn from_225_to_245(num: u16) -> (reg: Self)
        requires
            225 <= num <= 245,
        ensures
            reg.num_of() == num,
    {
        match num {
            225 => X64Reg::R15B,
            226 => X64Reg::R8D,
            227 => X64Reg::R9D,
            228 => X64Reg::R10D,
            229 => X64Reg::R11D,
            230 => X64Reg::R12D,
            231 => X64Reg::R13D,
            232 => X64Reg::R14D,
            233 => X64Reg::R15D,
            234 => X64Reg::R8W,
            235 => X64Reg::R9W,
            236 => X64Reg::R10W,
            237 => X64Reg::R11W,
            238 => X64Reg::R12W,
            239 => X64Reg::R13W,
            240 => X64Reg::R14W,
            241 => X64Reg::R15W,
            242 => X64Reg::Bnd0,
            243 => X64Reg::Bnd1,
            244 => X64Reg::Bnd2,
            _ => X64Reg::Bnd3,
        }
    }

    /// The name by which the disassembler knows this register.
    pub fn as_str(&self) -> (s: &'static str)
        ensures
            s@ == self.name(),
    {
        match self {
            X64Reg::Ah => "ah",
            X64Reg::Al => "al",
            X64Reg::Ax => "ax",
            X64Reg::Bh => "bh",
            X64Reg::Bl => "bl",
            X64Reg::Bp => "bp",
            X64Reg::Bpl => "bpl",
            X64Reg::Bx => "bx",
            X64Reg::Ch => "ch",
            X64Reg::Cl => "cl",
            X64Reg::Cs => "cs",
            X64Reg::Cx => "cx",
            X64Reg::Dh => "dh",
            X64Reg::Di => "di",
            X64Reg::Dil => "dil",
            X64Reg::Dl => "dl",
            X64Reg::Ds => "ds",
            X64Reg::Dx => "dx",
            X64Reg::Eax => "eax",
            X64Reg::Ebp => "ebp",
            X64Reg::Ebx => "ebx",
            X64Reg::Ecx => "ecx",
            X64Reg::Edi => "edi",
            X64Reg::Edx => "edx",
            X64Reg::Rflags => "rflags",
            X64Reg::Eip => "eip",
            X64Reg::Eiz => "eiz",
            X64Reg::Es => "es",
            X64Reg::Esi => "esi",
            X64Reg::Esp => "esp",
            X64Reg::Fpsw => "fpsw",
            X64Reg::Fs => "fs",
            X64Reg::Gs => "gs",
            X64Reg::Ip => "ip",
            X64Reg::Rax => "rax",
            X64Reg::Rbp => "rbp",
            X64Reg::Rbx => "rbx",
            X64Reg::Rcx => "rcx",
            X64Reg::Rdi => "rdi",
            X64Reg::Rdx => "rdx",
            X64Reg::Rip => "rip",
            X64Reg::Riz => "riz",
            X64Reg::Rsi => "rsi",
            X64Reg::Rsp => "rsp",
            X64Reg::Si => "si",
            X64Reg::Sil => "sil",
            X64Reg::Sp => "sp",
            X64Reg::Spl => "spl",
            X64Reg::Ss => "ss",
            X64Reg::Cr0 => "cr0",
            X64Reg::Cr1 => "cr1",
            X64Reg::Cr2 => "cr2",
            X64Reg::Cr3 => "cr3",
            X64Reg::Cr4 => "cr4",
            X64Reg::Cr5 => "cr5",
            X64Reg::Cr6 => "cr6",
            X64Reg::Cr7 => "cr7",
            X64Reg::Cr8 => "cr8",
            X64Reg::Cr9 => "cr9",
            X64Reg::Cr10 => "cr10",
            X64Reg::Cr11 => "cr11",
            X64Reg::Cr12 => "cr12",
            X64Reg::Cr13 => "cr13",
            X64Reg::Cr14 => "cr14",
            X64Reg::Cr15 => "cr15",
            X64Reg::Dr0 => "dr0",
            X64Reg::Dr1 => "dr1",
            X64Reg::Dr2 => "dr2",
            X64Reg::Dr3 => "dr3",
            X64Reg::Dr4 => "dr4",
            X64Reg::Dr5 => "dr5",
            X64Reg::Dr6 => "dr6",
            X64Reg::Dr7 => "dr7",
            X64Reg::Dr8 => "dr8",
            X64Reg::Dr9 => "dr9",
            X64Reg::Dr10 => "dr10",
            X64Reg::Dr11 => "dr11",
            X64Reg::Dr12 => "dr12",
            X64Reg::Dr13 => "dr13",
            X64Reg::Dr14 => "dr14",
            X64Reg::Dr15 => "dr15",
            X64Reg::Fp0 => "fp0",
            X64Reg::Fp1 => "fp1",
            X64Reg::Fp2 => "fp2",
            X64Reg::Fp3 => "fp3",
            X64Reg::Fp4 => "fp4",
            X64Reg::Fp5 => "fp5",
            X64Reg::Fp6 => "fp6",
            X64Reg::Fp7 => "fp7",
            X64Reg::K0 => "k0",
            X64Reg::K1 => "k1",
            X64Reg::K2 => "k2",
            X64Reg::K3 => "k3",
            X64Reg::K4 => "k4",
            X64Reg::K5 => "k5",
            X64Reg::K6 => "k6",
            X64Reg::K7 => "k7",
            X64Reg::Mm0 => "mm0",
            X64Reg::Mm1 => "mm1",
            X64Reg::Mm2 => "mm2",
            X64Reg::Mm3 => "mm3",
            X64Reg::Mm4 => "mm4",
            X64Reg::Mm5 => "mm5",
            X64Reg::Mm6 => "mm6",
            X64Reg::Mm7 => "mm7",
            X64Reg::R8 => "r8",
            X64Reg::R9 => "r9",
            X64Reg::R10 => "r10",
            X64Reg::R11 => "r11",
            X64Reg::R12 => "r12",
            X64Reg::R13 => "r13",
            X64Reg::R14 => "r14",
            X64Reg::R15 => "r15",
            X64Reg::St0 => "st(0)",
            X64Reg::St1 => "st(1)",
            X64Reg::St2 => "st(2)",
            X64Reg::St3 => "st(3)",
            X64Reg::St4 => "st(4)",
            X64Reg::St5 => "st(5)",
            X64Reg::St6 => "st(6)",
            X64Reg::St7 => "st(7)",
            X64Reg::Xmm0 => "xmm0",
            X64Reg::Xmm1 => "xmm1",
            X64Reg::Xmm2 => "xmm2",
            X64Reg::Xmm3 => "xmm3",
            X64Reg::Xmm4 => "xmm4",
            X64Reg::Xmm5 => "xmm5",
            X64Reg::Xmm6 => "xmm6",
            X64Reg::Xmm7 => "xmm7",
            X64Reg::Xmm8 => "xmm8",
            X64Reg::Xmm9 => "xmm9",
            X64Reg::Xmm10 => "xmm10",
            X64Reg::Xmm11 => "xmm11",
            X64Reg::Xmm12 => "xmm12",
            X64Reg::Xmm13 => "xmm13",
            X64Reg::Xmm14 => "xmm14",
            X64Reg::Xmm15 => "xmm15",
            X64Reg::Xmm16 => "xmm16",
            X64Reg::Xmm17 => "xmm17",
            X64Reg::Xmm18 => "xmm18",
            X64Reg::Xmm19 => "xmm19",
            X64Reg::Xmm20 => "xmm20",
            X64Reg::Xmm21 => "xmm21",
            X64Reg::Xmm22 => "xmm22",
            X64Reg::Xmm23 => "xmm23",
            X64Reg::Xmm24 => "xmm24",
            X64Reg::Xmm25 => "xmm25",
            X64Reg::Xmm26 => "xmm26",
            X64Reg::Xmm27 => "xmm27",
            X64Reg::Xmm28 => "xmm28",
            X64Reg::Xmm29 => "xmm29",
            X64Reg::Xmm30 => "xmm30",
            X64Reg::Xmm31 => "xmm31",
            X64Reg::Ymm0 => "ymm0",
            X64Reg::Ymm1 => "ymm1",
            X64Reg::Ymm2 => "ymm2",
            X64Reg::Ymm3 => "ymm3",
            X64Reg::Ymm4 => "ymm4",
            X64Reg::Ymm5 => "ymm5",
            X64Reg::Ymm6 => "ymm6",
            X64Reg::Ymm7 => "ymm7",
            X64Reg::Ymm8 => "ymm8",
            X64Reg::Ymm9 => "ymm9",
            X64Reg::Ymm10 => "ymm10",
            X64Reg::Ymm11 => "ymm11",
            X64Reg::Ymm12 => "ymm12",
            X64Reg::Ymm13 => "ymm13",
            X64Reg::Ymm14 => "ymm14",
            X64Reg::Ymm15 => "ymm15",
            X64Reg::Ymm16 => "ymm16",
            X64Reg::Ymm17 => "ymm17",
            X64Reg::Ymm18 => "ymm18",
            X64Reg::Ymm19 => "ymm19",
            X64Reg::Ymm20 => "ymm20",
            X64Reg::Ymm21 => "ymm21",
            X64Reg::Ymm22 => "ymm22",
            X64Reg::Ymm23 => "ymm23",
            X64Reg::Ymm24 => "ymm24",
            X64Reg::Ymm25 => "ymm25",
            X64Reg::Ymm26 => "ymm26",
            X64Reg::Ymm27 => "ymm27",
            X64Reg::Ymm28 => "ymm28",
            X64Reg::Ymm29 => "ymm29",
            X64Reg::Ymm30 => "ymm30",
            X64Reg::Ymm31 => "ymm31",
            X64Reg::Zmm0 => "zmm0",
            X64Reg::Zmm1 => "zmm1",
            X64Reg::Zmm2 => "zmm2",
            X64Reg::Zmm3 => "zmm3",
            X64Reg::Zmm4 => "zmm4",
            X64Reg::Zmm5 => "zmm5",
            X64Reg::Zmm6 => "zmm6",
            X64Reg::Zmm7 => "zmm7",
            X64Reg::Zmm8 => "zmm8",
            X64Reg::Zmm9 => "zmm9",
            X64Reg::Zmm10 => "zmm10",
            X64Reg::Zmm11 => "zmm11",
            X64Reg::Zmm12 => "zmm12",
            X64Reg::Zmm13 => "zmm13",
            X64Reg::Zmm14 => "zmm14",
            X64Reg::Zmm15 => "zmm15",
            X64Reg::Zmm16 => "zmm16",
            X64Reg::Zmm17 => "zmm17",
            X64Reg::Zmm18 => "zmm18",
            X64Reg::Zmm19 => "zmm19",
            X64Reg::Zmm20 => "zmm20",
            X64Reg::Zmm21 => "zmm21",
            X64Reg::Zmm22 => "zmm22",
            X64Reg::Zmm23 => "zmm23",
            X64Reg::Zmm24 => "zmm24",
            X64Reg::Zmm25 => "zmm25",
            X64Reg::Zmm26 => "zmm26",
            X64Reg::Zmm27 => "zmm27",
            X64Reg::Zmm28 => "zmm28",
            X64Reg::Zmm29 => "zmm29",
            X64Reg::Zmm30 => "zmm30",
            X64Reg::Zmm31 => "zmm31",
            X64Reg::R8B => "r8b",
            X64Reg::R9B => "r9b",
            X64Reg::R10B => "r10b",
            X64Reg::R11B => "r11b",
            X64Reg::R12B => "r12b",
            X64Reg::R13B => "r13b",
            X64Reg::R14B => "r14b",
            X64Reg::R15B => "r15b",
            X64Reg::R8D => "r8d",
            X64Reg::R9D => "r9d",
            X64Reg::R10D => "r10d",
            X64Reg::R11D => "r11d",
            X64Reg::R12D => "r12d",
            X64Reg::R13D => "r13d",
            X64Reg::R14D => "r14d",
            X64Reg::R15D => "r15d",
            X64Reg::R8W => "r8w",
            X64Reg::R9W => "r9w",
            X64Reg::R10W => "r10w",
            X64Reg::R11W => "r11w",
            X64Reg::R12W => "r12w",
            X64Reg::R13W => "r13w",
            X64Reg::R14W => "r14w",
            X64Reg::R15W => "r15w",
            X64Reg::Bnd0 => "bnd0",
            X64Reg::Bnd1 => "bnd1",
            X64Reg::Bnd2 => "bnd2",
            X64Reg::Bnd3 => "bnd3",
        }
    }

    /// The full-width register that this register is a part of; itself if it is no part of another.
    pub fn canonical(&self) -> (r: Self)
        ensures
            r == self.canonical_of(),
    {
        match self {
            X64Reg::Ah => X64Reg::Rax,
            X64Reg::Al => X64Reg::Rax,
            X64Reg::Ax => X64Reg::Rax,
            X64Reg::Bh => X64Reg::Rbx,
            X64Reg::Bl => X64Reg::Rbx,
            X64Reg::Bp => X64Reg::Rbp,
            X64Reg::Bpl => X64Reg::Rbp,
            X64Reg::Bx => X64Reg::Rbx,
            X64Reg::Ch => X64Reg::Rcx,
            X64Reg::Cl => X64Reg::Rcx,
            X64Reg::Cx => X64Reg::Rcx,
            X64Reg::Dh => X64Reg::Rdx,
            X64Reg::Di => X64Reg::Rdi,
            X64Reg::Dil => X64Reg::Rdi,
            X64Reg::Dl => X64Reg::Rdx,
            X64Reg::Dx => X64Reg::Rdx,
            X64Reg::Eax => X64Reg::Rax,
            X64Reg::Ebp => X64Reg::Rbp,
            X64Reg::Ebx => X64Reg::Rbx,
            X64Reg::Ecx => X64Reg::Rcx,
            X64Reg::Edi => X64Reg::Rdi,
            X64Reg::Edx => X64Reg::Rdx,
            X64Reg::Eip => X64Reg::Rip,
            X64Reg::Esi => X64Reg::Rsi,
            X64Reg::Esp => X64Reg::Rsp,
            X64Reg::Si => X64Reg::Rsi,
            X64Reg::Sil => X64Reg::Rsi,
            X64Reg::Sp => X64Reg::Rsp,
            X64Reg::Spl => X64Reg::Rsp,
            X64Reg::R8B => X64Reg::R8,
            X64Reg::R9B => X64Reg::R9,
            X64Reg::R10B => X64Reg::R10,
            X64Reg::R11B => X64Reg::R11,
            X64Reg::R12B => X64Reg::R12,
            X64Reg::R13B => X64Reg::R13,
            X64Reg::R14B => X64Reg::R14,
            X64Reg::R15B => X64Reg::R15,
            X64Reg::R8D => X64Reg::R8,
            X64Reg::R9D => X64Reg::R9,
            X64Reg::R10D => X64Reg::R10,
            X64Reg::R11D => X64Reg::R11,
            X64Reg::R12D => X64Reg::R12,
            X64Reg::R13D => X64Reg::R13,
            X64Reg::R14D => X64Reg::R14,
            X64Reg::R15D => X64Reg::R15,
            X64Reg::R8W => X64Reg::R8,
            X64Reg::R9W => X64Reg::R9,
            X64Reg::R10W => X64Reg::R10,
            X64Reg::R11W => X64Reg::R11,
            X64Reg::R12W => X64Reg::R12,
            X64Reg::R13W => X64Reg::R13,
            X64Reg::R14W => X64Reg::R14,
            X64Reg::R15W => X64Reg::R15,
            _ => *self,
        }
    }

    /// The place of this register in a register snapshot, if it has one.
    pub fn idx(&self) -> (r: Option<usize>)
        ensures
            r == self.idx_of(),
            r matches Some(i) ==> i < 16,
    {
        match self {
            X64Reg::Rax => Some(0),
            X64Reg::Rbp => Some(5),
            X64Reg::Rbx => Some(3),
            X64Reg::Rcx => Some(1),
            X64Reg::Rdi => Some(7),
            X64Reg::Rdx => Some(2),
            X64Reg::Rsi => Some(6),
            X64Reg::Rsp => Some(4),
            X64Reg::R8 => Some(8),
            X64Reg::R9 => Some(9),
            X64Reg::R10 => Some(10),
            X64Reg::R11 => Some(11),
            X64Reg::R12 => Some(12),
            X64Reg::R13 => Some(13),
            X64Reg::R14 => Some(14),
            X64Reg::R15 => Some(15),
            _ => None,
        }
    }

    /// The register at a place of a register snapshot.
    pub fn from_idx(i: usize) -> (r: Option<Self>)
        ensures
            r matches Some(reg) ==> reg.idx_of() == Some(i),
            r is None ==> forall|reg: X64Reg| reg.idx_of() != Some(i),
            r is Some <==> i < 16,
    {
        match i {
            0 => Some(X64Reg::Rax),
            1 => Some(X64Reg::Rcx),
            2 => Some(X64Reg::Rdx),
            3 => Some(X64Reg::Rbx),
            4 => Some(X64Reg::Rsp),
            5 => Some(X64Reg::Rbp),
            6 => Some(X64Reg::Rsi),
            7 => Some(X64Reg::Rdi),
            8 => Some(X64Reg::R8),
            9 => Some(X64Reg::R9),
            10 => Some(X64Reg::R10),
            11 => Some(X64Reg::R11),
            12 => Some(X64Reg::R12),
            13 => Some(X64Reg::R13),
            14 => Some(X64Reg::R14),
            15 => Some(X64Reg::R15),
            _ => None,
        }
    }
}

/// A register of a snapshot is no part of another register, and parts have no place of their own.
pub proof fn lemma_x64reg_canonical(reg: X64Reg)
    ensures
        reg.canonical_of().canonical_of() == reg.canonical_of(),
        reg.idx_of() is Some ==> reg.canonical_of() == reg,
{
}

} // verus!
