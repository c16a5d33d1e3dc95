//! The registers of AArch64, as the disassembler numbers and names them.

use vstd::prelude::*;

verus! {

/// A register of AArch64.
#[derive(Clone, Copy, Debug, PartialEq, Eq, Structural)]
pub enum Aarch64Reg {
    Ffr,
    Fp,
    Lr,
    Nzcv,
    Sp,
    Vg,
    Wsp,
    Wzr,
    Xzr,
    Za,
    B0,
    B1,
    B2,
    B3,
    B4,
    B5,
    B6,
    B7,
    B8,
    B9,
    B10,
    B11,
    B12,
    B13,
    B14,
    B15,
    B16,
    B17,
    B18,
    B19,
    B20,
    B21,
    B22,
    B23,
    B24,
    B25,
    B26,
    B27,
    B28,
    B29,
    B30,
    B31,
    D0,
    D1,
    D2,
    D3,
    D4,
    D5,
    D6,
    D7,
    D8,
    D9,
    D10,
    D11,
    D12,
    D13,
    D14,
    D15,
    D16,
    D17,
    D18,
    D19,
    D20,
    D21,
    D22,
    D23,
    D24,
    D25,
    D26,
    D27,
    D28,
    D29,
    D30,
    D31,
    H0,
    H1,
    H2,
    H3,
    H4,
    H5,
    H6,
    H7,
    H8,
    H9,
    H10,
    H11,
    H12,
    H13,
    H14,
    H15,
    H16,
    H17,
    H18,
    H19,
    H20,
    H21,
    H22,
    H23,
    H24,
    H25,
    H26,
    H27,
    H28,
    H29,
    H30,
    H31,
    P0,
    P1,
    P2,
    P3,
    P4,
    P5,
    P6,
    P7,
    P8,
    P9,
    P10,
    P11,
    P12,
    P13,
    P14,
    P15,
    Q0,
    Q1,
    Q2,
    Q3,
    Q4,
    Q5,
    Q6,
    Q7,
    Q8,
    Q9,
    Q10,
    Q11,
    Q12,
    Q13,
    Q14,
    Q15,
    Q16,
    Q17,
    Q18,
    Q19,
    Q20,
    Q21,
    Q22,
    Q23,
    Q24,
    Q25,
    Q26,
    Q27,
    Q28,
    Q29,
    Q30,
    Q31,
    S0,
    S1,
    S2,
    S3,
    S4,
    S5,
    S6,
    S7,
    S8,
    S9,
    S10,
    S11,
    S12,
    S13,
    S14,
    S15,
    S16,
    S17,
    S18,
    S19,
    S20,
    S21,
    S22,
    S23,
    S24,
    S25,
    S26,
    S27,
    S28,
    S29,
    S30,
    S31,
    W0,
    W1,
    W2,
    W3,
    W4,
    W5,
    W6,
    W7,
    W8,
    W9,
    W10,
    W11,
    W12,
    W13,
    W14,
    W15,
    W16,
    W17,
    W18,
    W19,
    W20,
    W21,
    W22,
    W23,
    W24,
    W25,
    W26,
    W27,
    W28,
    W29,
    W30,
    X0,
    X1,
    X2,
    X3,
    X4,
    X5,
    X6,
    X7,
    X8,
    X9,
    X10,
    X11,
    X12,
    X13,
    X14,
    X15,
    X16,
    X17,
    X18,
    X19,
    X20,
    X21,
    X22,
    X23,
    X24,
    X25,
    X26,
    X27,
    X28,
    Z0,
    Z1,
    Z2,
    Z3,
    Z4,
    Z5,
    Z6,
    Z7,
    Z8,
    Z9,
    Z10,
    Z11,
    Z12,
    Z13,
    Z14,
    Z15,
    Z16,
    Z17,
    Z18,
    Z19,
    Z20,
    Z21,
    Z22,
    Z23,
    Z24,
    Z25,
    Z26,
    Z27,
    Z28,
    Z29,
    Z30,
    Z31,
    Zab0,
    Zad0,
    Zad1,
    Zad2,
    Zad3,
    Zad4,
    Zad5,
    Zad6,
    Zad7,
    Zah0,
    Zah1,
    Zaq0,
    Zaq1,
    Zaq2,
    Zaq3,
    Zaq4,
    Zaq5,
    Zaq6,
    Zaq7,
    Zaq8,
    Zaq9,
    Zaq10,
    Zaq11,
    Zaq12,
    Zaq13,
    Zaq14,
    Zaq15,
    Zas0,
    Zas1,
    Zas2,
    Zas3,
    V0,
    V1,
    V2,
    V3,
    V4,
    V5,
    V6,
    V7,
    V8,
    V9,
    V10,
    V11,
    V12,
    V13,
    V14,
    V15,
    V16,
    V17,
    V18,
    V19,
    V20,
    V21,
    V22,
    V23,
    V24,
    V25,
    V26,
    V27,
    V28,
    V29,
    V30,
    V31,
}

impl Aarch64Reg {
    /// The number by which the disassembler knows this register.
    pub open spec fn num_of(self) -> u16 {
        match self {
            Aarch64Reg::Ffr => 1,
            Aarch64Reg::Fp => 2,
            Aarch64Reg::Lr => 3,
            Aarch64Reg::Nzcv => 4,
            Aarch64Reg::Sp => 5,
            Aarch64Reg::Vg => 6,
            Aarch64Reg::Wsp => 7,
            Aarch64Reg::Wzr => 8,
            Aarch64Reg::Xzr => 9,
            Aarch64Reg::Za => 10,
            Aarch64Reg::B0 => 11,
            Aarch64Reg::B1 => 12,
            Aarch64Reg::B2 => 13,
            Aarch64Reg::B3 => 14,
            Aarch64Reg::B4 => 15,
            Aarch64Reg::B5 => 16,
            Aarch64Reg::B6 => 17,
            Aarch64Reg::B7 => 18,
            Aarch64Reg::B8 => 19,
            Aarch64Reg::B9 => 20,
            Aarch64Reg::B10 => 21,
            Aarch64Reg::B11 => 22,
            Aarch64Reg::B12 => 23,
            Aarch64Reg::B13 => 24,
            Aarch64Reg::B14 => 25,
            Aarch64Reg::B15 => 26,
            Aarch64Reg::B16 => 27,
            Aarch64Reg::B17 => 28,
            Aarch64Reg::B18 => 29,
            Aarch64Reg::B19 => 30,
            Aarch64Reg::B20 => 31,
            Aarch64Reg::B21 => 32,
            Aarch64Reg::B22 => 33,
            Aarch64Reg::B23 => 34,
            Aarch64Reg::B24 => 35,
            Aarch64Reg::B25 => 36,
            Aarch64Reg::B26 => 37,
            Aarch64Reg::B27 => 38,
            Aarch64Reg::B28 => 39,
            Aarch64Reg::B29 => 40,
            Aarch64Reg::B30 => 41,
            Aarch64Reg::B31 => 42,
            Aarch64Reg::D0 => 43,
            Aarch64Reg::D1 => 44,
            Aarch64Reg::D2 => 45,
            Aarch64Reg::D3 => 46,
            Aarch64Reg::D4 => 47,
            Aarch64Reg::D5 => 48,
            Aarch64Reg::D6 => 49,
            Aarch64Reg::D7 => 50,
            Aarch64Reg::D8 => 51,
            Aarch64Reg::D9 => 52,
            Aarch64Reg::D10 => 53,
            Aarch64Reg::D11 => 54,
            Aarch64Reg::D12 => 55,
            Aarch64Reg::D13 => 56,
            Aarch64Reg::D14 => 57,
            Aarch64Reg::D15 => 58,
            Aarch64Reg::D16 => 59,
            Aarch64Reg::D17 => 60,
            Aarch64Reg::D18 => 61,
            Aarch64Reg::D19 => 62,
            Aarch64Reg::D20 => 63,
            Aarch64Reg::D21 => 64,
            Aarch64Reg::D22 => 65,
            Aarch64Reg::D23 => 66,
            Aarch64Reg::D24 => 67,
            Aarch64Reg::D25 => 68,
            Aarch64Reg::D26 => 69,
            Aarch64Reg::D27 => 70,
            Aarch64Reg::D28 => 71,
            Aarch64Reg::D29 => 72,
            Aarch64Reg::D30 => 73,
            Aarch64Reg::D31 => 74,
            Aarch64Reg::H0 => 75,
            Aarch64Reg::H1 => 76,
            Aarch64Reg::H2 => 77,
            Aarch64Reg::H3 => 78,
            Aarch64Reg::H4 => 79,
            Aarch64Reg::H5 => 80,
            Aarch64Reg::H6 => 81,
            Aarch64Reg::H7 => 82,
            Aarch64Reg::H8 => 83,
            Aarch64Reg::H9 => 84,
            Aarch64Reg::H10 => 85,
            Aarch64Reg::H11 => 86,
            Aarch64Reg::H12 => 87,
            Aarch64Reg::H13 => 88,
            Aarch64Reg::H14 => 89,
            Aarch64Reg::H15 => 90,
            Aarch64Reg::H16 => 91,
            Aarch64Reg::H17 => 92,
            Aarch64Reg::H18 => 93,
            Aarch64Reg::H19 => 94,
            Aarch64Reg::H20 => 95,
            Aarch64Reg::H21 => 96,
            Aarch64Reg::H22 => 97,
            Aarch64Reg::H23 => 98,
            Aarch64Reg::H24 => 99,
            Aarch64Reg::H25 => 100,
            Aarch64Reg::H26 => 101,
            Aarch64Reg::H27 => 102,
            Aarch64Reg::H28 => 103,
            Aarch64Reg::H29 => 104,
            Aarch64Reg::H30 => 105,
            Aarch64Reg::H31 => 106,
            Aarch64Reg::P0 => 107,
            Aarch64Reg::P1 => 108,
            Aarch64Reg::P2 => 109,
            Aarch64Reg::P3 => 110,
            Aarch64Reg::P4 => 111,
            Aarch64Reg::P5 => 112,
            Aarch64Reg::P6 => 113,
            Aarch64Reg::P7 => 114,
            Aarch64Reg::P8 => 115,
            Aarch64Reg::P9 => 116,
            Aarch64Reg::P10 => 117,
            Aarch64Reg::P11 => 118,
            Aarch64Reg::P12 => 119,
            Aarch64Reg::P13 => 120,
            Aarch64Reg::P14 => 121,
            Aarch64Reg::P15 => 122,
            Aarch64Reg::Q0 => 123,
            Aarch64Reg::Q1 => 124,
            Aarch64Reg::Q2 => 125,
            Aarch64Reg::Q3 => 126,
            Aarch64Reg::Q4 => 127,
            Aarch64Reg::Q5 => 128,
            Aarch64Reg::Q6 => 129,
            Aarch64Reg::Q7 => 130,
            Aarch64Reg::Q8 => 131,
            Aarch64Reg::Q9 => 132,
            Aarch64Reg::Q10 => 133,
            Aarch64Reg::Q11 => 134,
            Aarch64Reg::Q12 => 135,
            Aarch64Reg::Q13 => 136,
            Aarch64Reg::Q14 => 137,
            Aarch64Reg::Q15 => 138,
            Aarch64Reg::Q16 => 139,
            Aarch64Reg::Q17 => 140,
            Aarch64Reg::Q18 => 141,
            Aarch64Reg::Q19 => 142,
            Aarch64Reg::Q20 => 143,
            Aarch64Reg::Q21 => 144,
            Aarch64Reg::Q22 => 145,
            Aarch64Reg::Q23 => 146,
            Aarch64Reg::Q24 => 147,
            Aarch64Reg::Q25 => 148,
            Aarch64Reg::Q26 => 149,
            Aarch64Reg::Q27 => 150,
            Aarch64Reg::Q28 => 151,
            Aarch64Reg::Q29 => 152,
            Aarch64Reg::Q30 => 153,
            Aarch64Reg::Q31 => 154,
            Aarch64Reg::S0 => 155,
            Aarch64Reg::S1 => 156,
            Aarch64Reg::S2 => 157,
            Aarch64Reg::S3 => 158,
            Aarch64Reg::S4 => 159,
            Aarch64Reg::S5 => 160,
            Aarch64Reg::S6 => 161,
            Aarch64Reg::S7 => 162,
            Aarch64Reg::S8 => 163,
            Aarch64Reg::S9 => 164,
            Aarch64Reg::S10 => 165,
            Aarch64Reg::S11 => 166,
            Aarch64Reg::S12 => 167,
            Aarch64Reg::S13 => 168,
            Aarch64Reg::S14 => 169,
            Aarch64Reg::S15 => 170,
            Aarch64Reg::S16 => 171,
            Aarch64Reg::S17 => 172,
            Aarch64Reg::S18 => 173,
            Aarch64Reg::S19 => 174,
            Aarch64Reg::S20 => 175,
            Aarch64Reg::S21 => 176,
            Aarch64Reg::S22 => 177,
            Aarch64Reg::S23 => 178,
            Aarch64Reg::S24 => 179,
            Aarch64Reg::S25 => 180,
            Aarch64Reg::S26 => 181,
            Aarch64Reg::S27 => 182,
            Aarch64Reg::S28 => 183,
            Aarch64Reg::S29 => 184,
            Aarch64Reg::S30 => 185,
            Aarch64Reg::S31 => 186,
            Aarch64Reg::W0 => 187,
            Aarch64Reg::W1 => 188,
            Aarch64Reg::W2 => 189,
            Aarch64Reg::W3 => 190,
            Aarch64Reg::W4 => 191,
            Aarch64Reg::W5 => 192,
            Aarch64Reg::W6 => 193,
            Aarch64Reg::W7 => 194,
            Aarch64Reg::W8 => 195,
            Aarch64Reg::W9 => 196,
            Aarch64Reg::W10 => 197,
            Aarch64Reg::W11 => 198,
            Aarch64Reg::W12 => 199,
            Aarch64Reg::W13 => 200,
            Aarch64Reg::W14 => 201,
            Aarch64Reg::W15 => 202,
            Aarch64Reg::W16 => 203,
            Aarch64Reg::W17 => 204,
            Aarch64Reg::W18 => 205,
            Aarch64Reg::W19 => 206,
            Aarch64Reg::W20 => 207,
            Aarch64Reg::W21 => 208,
            Aarch64Reg::W22 => 209,
            Aarch64Reg::W23 => 210,
            Aarch64Reg::W24 => 211,
            Aarch64Reg::W25 => 212,
            Aarch64Reg::W26 => 213,
            Aarch64Reg::W27 => 214,
            Aarch64Reg::W28 => 215,
            Aarch64Reg::W29 => 216,
            Aarch64Reg::W30 => 217,
            Aarch64Reg::X0 => 218,
            Aarch64Reg::X1 => 219,
            Aarch64Reg::X2 => 220,
            Aarch64Reg::X3 => 221,
            Aarch64Reg::X4 => 222,
            Aarch64Reg::X5 => 223,
            Aarch64Reg::X6 => 224,
            Aarch64Reg::X7 => 225,
            Aarch64Reg::X8 => 226,
            Aarch64Reg::X9 => 227,
            Aarch64Reg::X10 => 228,
            Aarch64Reg::X11 => 229,
            Aarch64Reg::X12 => 230,
            Aarch64Reg::X13 => 231,
            Aarch64Reg::X14 => 232,
            Aarch64Reg::X15 => 233,
            Aarch64Reg::X16 => 234,
            Aarch64Reg::X17 => 235,
            Aarch64Reg::X18 => 236,
            Aarch64Reg::X19 => 237,
            Aarch64Reg::X20 => 238,
            Aarch64Reg::X21 => 239,
            Aarch64Reg::X22 => 240,
            Aarch64Reg::X23 => 241,
            Aarch64Reg::X24 => 242,
            Aarch64Reg::X25 => 243,
            Aarch64Reg::X26 => 244,
            Aarch64Reg::X27 => 245,
            Aarch64Reg::X28 => 246,
            Aarch64Reg::Z0 => 247,
            Aarch64Reg::Z1 => 248,
            Aarch64Reg::Z2 => 249,
            Aarch64Reg::Z3 => 250,
            Aarch64Reg::Z4 => 251,
            Aarch64Reg::Z5 => 252,
            Aarch64Reg::Z6 => 253,
            Aarch64Reg::Z7 => 254,
            Aarch64Reg::Z8 => 255,
            Aarch64Reg::Z9 => 256,
            Aarch64Reg::Z10 => 257,
            Aarch64Reg::Z11 => 258,
            Aarch64Reg::Z12 => 259,
            Aarch64Reg::Z13 => 260,
            Aarch64Reg::Z14 => 261,
            Aarch64Reg::Z15 => 262,
            Aarch64Reg::Z16 => 263,
            Aarch64Reg::Z17 => 264,
            Aarch64Reg::Z18 => 265,
            Aarch64Reg::Z19 => 266,
            Aarch64Reg::Z20 => 267,
            Aarch64Reg::Z21 => 268,
            Aarch64Reg::Z22 => 269,
            Aarch64Reg::Z23 => 270,
            Aarch64Reg::Z24 => 271,
            Aarch64Reg::Z25 => 272,
            Aarch64Reg::Z26 => 273,
            Aarch64Reg::Z27 => 274,
            Aarch64Reg::Z28 => 275,
            Aarch64Reg::Z29 => 276,
            Aarch64Reg::Z30 => 277,
            Aarch64Reg::Z31 => 278,
            Aarch64Reg::Zab0 => 279,
            Aarch64Reg::Zad0 => 280,
            Aarch64Reg::Zad1 => 281,
            Aarch64Reg::Zad2 => 282,
            Aarch64Reg::Zad3 => 283,
            Aarch64Reg::Zad4 => 284,
            Aarch64Reg::Zad5 => 285,
            Aarch64Reg::Zad6 => 286,
            Aarch64Reg::Zad7 => 287,
            Aarch64Reg::Zah0 => 288,
            Aarch64Reg::Zah1 => 289,
            Aarch64Reg::Zaq0 => 290,
            Aarch64Reg::Zaq1 => 291,
            Aarch64Reg::Zaq2 => 292,
            Aarch64Reg::Zaq3 => 293,
            Aarch64Reg::Zaq4 => 294,
            Aarch64Reg::Zaq5 => 295,
            Aarch64Reg::Zaq6 => 296,
            Aarch64Reg::Zaq7 => 297,
            Aarch64Reg::Zaq8 => 298,
            Aarch64Reg::Zaq9 => 299,
            Aarch64Reg::Zaq10 => 300,
            Aarch64Reg::Zaq11 => 301,
            Aarch64Reg::Zaq12 => 302,
            Aarch64Reg::Zaq13 => 303,
            Aarch64Reg::Zaq14 => 304,
            Aarch64Reg::Zaq15 => 305,
            Aarch64Reg::Zas0 => 306,
            Aarch64Reg::Zas1 => 307,
            Aarch64Reg::Zas2 => 308,
            Aarch64Reg::Zas3 => 309,
            Aarch64Reg::V0 => 310,
            Aarch64Reg::V1 => 311,
            Aarch64Reg::V2 => 312,
            Aarch64Reg::V3 => 313,
            Aarch64Reg::V4 => 314,
            Aarch64Reg::V5 => 315,
            Aarch64Reg::V6 => 316,
            Aarch64Reg::V7 => 317,
            Aarch64Reg::V8 => 318,
            Aarch64Reg::V9 => 319,
            Aarch64Reg::V10 => 320,
            Aarch64Reg::V11 => 321,
            Aarch64Reg::V12 => 322,
            Aarch64Reg::V13 => 323,
            Aarch64Reg::V14 => 324,
            Aarch64Reg::V15 => 325,
            Aarch64Reg::V16 => 326,
            Aarch64Reg::V17 => 327,
            Aarch64Reg::V18 => 328,
            Aarch64Reg::V19 => 329,
            Aarch64Reg::V20 => 330,
            Aarch64Reg::V21 => 331,
            Aarch64Reg::V22 => 332,
            Aarch64Reg::V23 => 333,
            Aarch64Reg::V24 => 334,
            Aarch64Reg::V25 => 335,
            Aarch64Reg::V26 => 336,
            Aarch64Reg::V27 => 337,
            Aarch64Reg::V28 => 338,
            Aarch64Reg::V29 => 339,
            Aarch64Reg::V30 => 340,
            Aarch64Reg::V31 => 341,
        }
    }

    /// The name by which the disassembler knows this register.
    pub open spec fn name(self) -> Seq<char> {
        match self {
            Aarch64Reg::Ffr => "ffr"@,
            Aarch64Reg::Fp => "fp"@,
            Aarch64Reg::Lr => "lr"@,
            Aarch64Reg::Nzcv => "nzcv"@,
            Aarch64Reg::Sp => "sp"@,
            Aarch64Reg::Vg => "vg"@,
            Aarch64Reg::Wsp => "wsp"@,
            Aarch64Reg::Wzr => "wzr"@,
            Aarch64Reg::Xzr => "xzr"@,
            Aarch64Reg::Za => "za"@,
            Aarch64Reg::B0 => "b0"@,
            Aarch64Reg::B1 => "b1"@,
            Aarch64Reg::B2 => "b2"@,
            Aarch64Reg::B3 => "b3"@,
            Aarch64Reg::B4 => "b4"@,
            Aarch64Reg::B5 => "b5"@,
            Aarch64Reg::B6 => "b6"@,
            Aarch64Reg::B7 => "b7"@,
            Aarch64Reg::B8 => "b8"@,
            Aarch64Reg::B9 => "b9"@,
            Aarch64Reg::B10 => "b10"@,
            Aarch64Reg::B11 => "b11"@,
            Aarch64Reg::B12 => "b12"@,
            Aarch64Reg::B13 => "b13"@,
            Aarch64Reg::B14 => "b14"@,
            Aarch64Reg::B15 => "b15"@,
            Aarch64Reg::B16 => "b16"@,
            Aarch64Reg::B17 => "b17"@,
            Aarch64Reg::B18 => "b18"@,
            Aarch64Reg::B19 => "b19"@,
            Aarch64Reg::B20 => "b20"@,
            Aarch64Reg::B21 => "b21"@,
            Aarch64Reg::B22 => "b22"@,
            Aarch64Reg::B23 => "b23"@,
            Aarch64Reg::B24 => "b24"@,
            Aarch64Reg::B25 => "b25"@,
            Aarch64Reg::B26 => "b26"@,
            Aarch64Reg::B27 => "b27"@,
            Aarch64Reg::B28 => "b28"@,
            Aarch64Reg::B29 => "b29"@,
            Aarch64Reg::B30 => "b30"@,
            Aarch64Reg::B31 => "b31"@,
            Aarch64Reg::D0 => "d0"@,
            Aarch64Reg::D1 => "d1"@,
            Aarch64Reg::D2 => "d2"@,
            Aarch64Reg::D3 => "d3"@,
            Aarch64Reg::D4 => "d4"@,
            Aarch64Reg::D5 => "d5"@,
            Aarch64Reg::D6 => "d6"@,
            Aarch64Reg::D7 => "d7"@,
            Aarch64Reg::D8 => "d8"@,
            Aarch64Reg::D9 => "d9"@,
            Aarch64Reg::D10 => "d10"@,
            Aarch64Reg::D11 => "d11"@,
            Aarch64Reg::D12 => "d12"@,
            Aarch64Reg::D13 => "d13"@,
            Aarch64Reg::D14 => "d14"@,
            Aarch64Reg::D15 => "d15"@,
            Aarch64Reg::D16 => "d16"@,
            Aarch64Reg::D17 => "d17"@,
            Aarch64Reg::D18 => "d18"@,
            Aarch64Reg::D19 => "d19"@,
            Aarch64Reg::D20 => "d20"@,
            Aarch64Reg::D21 => "d21"@,
            Aarch64Reg::D22 => "d22"@,
            Aarch64Reg::D23 => "d23"@,
            Aarch64Reg::D24 => "d24"@,
            Aarch64Reg::D25 => "d25"@,
            Aarch64Reg::D26 => "d26"@,
            Aarch64Reg::D27 => "d27"@,
            Aarch64Reg::D28 => "d28"@,
            Aarch64Reg::D29 => "d29"@,
            Aarch64Reg::D30 => "d30"@,
            Aarch64Reg::D31 => "d31"@,
            Aarch64Reg::H0 => "h0"@,
            Aarch64Reg::H1 => "h1"@,
            Aarch64Reg::H2 => "h2"@,
            Aarch64Reg::H3 => "h3"@,
            Aarch64Reg::H4 => "h4"@,
            Aarch64Reg::H5 => "h5"@,
            Aarch64Reg::H6 => "h6"@,
            Aarch64Reg::H7 => "h7"@,
            Aarch64Reg::H8 => "h8"@,
            Aarch64Reg::H9 => "h9"@,
            Aarch64Reg::H10 => "h10"@,
            Aarch64Reg::H11 => "h11"@,
            Aarch64Reg::H12 => "h12"@,
            Aarch64Reg::H13 => "h13"@,
            Aarch64Reg::H14 => "h14"@,
            Aarch64Reg::H15 => "h15"@,
            Aarch64Reg::H16 => "h16"@,
            Aarch64Reg::H17 => "h17"@,
            Aarch64Reg::H18 => "h18"@,
            Aarch64Reg::H19 => "h19"@,
            Aarch64Reg::H20 => "h20"@,
            Aarch64Reg::H21 => "h21"@,
            Aarch64Reg::H22 => "h22"@,
            Aarch64Reg::H23 => "h23"@,
            Aarch64Reg::H24 => "h24"@,
            Aarch64Reg::H25 => "h25"@,
            Aarch64Reg::H26 => "h26"@,
            Aarch64Reg::H27 => "h27"@,
            Aarch64Reg::H28 => "h28"@,
            Aarch64Reg::H29 => "h29"@,
            Aarch64Reg::H30 => "h30"@,
            Aarch64Reg::H31 => "h31"@,
            Aarch64Reg::P0 => "p0"@,
            Aarch64Reg::P1 => "p1"@,
            Aarch64Reg::P2 => "p2"@,
            Aarch64Reg::P3 => "p3"@,
            Aarch64Reg::P4 => "p4"@,
            Aarch64Reg::P5 => "p5"@,
            Aarch64Reg::P6 => "p6"@,
            Aarch64Reg::P7 => "p7"@,
            Aarch64Reg::P8 => "p8"@,
            Aarch64Reg::P9 => "p9"@,
            Aarch64Reg::P10 => "p10"@,
            Aarch64Reg::P11 => "p11"@,
            Aarch64Reg::P12 => "p12"@,
            Aarch64Reg::P13 => "p13"@,
            Aarch64Reg::P14 => "p14"@,
            Aarch64Reg::P15 => "p15"@,
            Aarch64Reg::Q0 => "q0"@,
            Aarch64Reg::Q1 => "q1"@,
            Aarch64Reg::Q2 => "q2"@,
            Aarch64Reg::Q3 => "q3"@,
            Aarch64Reg::Q4 => "q4"@,
            Aarch64Reg::Q5 => "q5"@,
            Aarch64Reg::Q6 => "q6"@,
            Aarch64Reg::Q7 => "q7"@,
            Aarch64Reg::Q8 => "q8"@,
            Aarch64Reg::Q9 => "q9"@,
            Aarch64Reg::Q10 => "q10"@,
            Aarch64Reg::Q11 => "q11"@,
            Aarch64Reg::Q12 => "q12"@,
            Aarch64Reg::Q13 => "q13"@,
            Aarch64Reg::Q14 => "q14"@,
            Aarch64Reg::Q15 => "q15"@,
            Aarch64Reg::Q16 => "q16"@,
            Aarch64Reg::Q17 => "q17"@,
            Aarch64Reg::Q18 => "q18"@,
            Aarch64Reg::Q19 => "q19"@,
            Aarch64Reg::Q20 => "q20"@,
            Aarch64Reg::Q21 => "q21"@,
            Aarch64Reg::Q22 => "q22"@,
            Aarch64Reg::Q23 => "q23"@,
            Aarch64Reg::Q24 => "q24"@,
            Aarch64Reg::Q25 => "q25"@,
            Aarch64Reg::Q26 => "q26"@,
            Aarch64Reg::Q27 => "q27"@,
            Aarch64Reg::Q28 => "q28"@,
            Aarch64Reg::Q29 => "q29"@,
            Aarch64Reg::Q30 => "q30"@,
            Aarch64Reg::Q31 => "q31"@,
            Aarch64Reg::S0 => "s0"@,
            Aarch64Reg::S1 => "s1"@,
            Aarch64Reg::S2 => "s2"@,
            Aarch64Reg::S3 => "s3"@,
            Aarch64Reg::S4 => "s4"@,
            Aarch64Reg::S5 => "s5"@,
            Aarch64Reg::S6 => "s6"@,
            Aarch64Reg::S7 => "s7"@,
            Aarch64Reg::S8 => "s8"@,
            Aarch64Reg::S9 => "s9"@,
            Aarch64Reg::S10 => "s10"@,
            Aarch64Reg::S11 => "s11"@,
            Aarch64Reg::S12 => "s12"@,
            Aarch64Reg::S13 => "s13"@,
            Aarch64Reg::S14 => "s14"@,
            Aarch64Reg::S15 => "s15"@,
            Aarch64Reg::S16 => "s16"@,
            Aarch64Reg::S17 => "s17"@,
            Aarch64Reg::S18 => "s18"@,
            Aarch64Reg::S19 => "s19"@,
            Aarch64Reg::S20 => "s20"@,
            Aarch64Reg::S21 => "s21"@,
            Aarch64Reg::S22 => "s22"@,
            Aarch64Reg::S23 => "s23"@,
            Aarch64Reg::S24 => "s24"@,
            Aarch64Reg::S25 => "s25"@,
            Aarch64Reg::S26 => "s26"@,
            Aarch64Reg::S27 => "s27"@,
            Aarch64Reg::S28 => "s28"@,
            Aarch64Reg::S29 => "s29"@,
            Aarch64Reg::S30 => "s30"@,
            Aarch64Reg::S31 => "s31"@,
            Aarch64Reg::W0 => "w0"@,
            Aarch64Reg::W1 => "w1"@,
            Aarch64Reg::W2 => "w2"@,
            Aarch64Reg::W3 => "w3"@,
            Aarch64Reg::W4 => "w4"@,
            Aarch64Reg::W5 => "w5"@,
            Aarch64Reg::W6 => "w6"@,
            Aarch64Reg::W7 => "w7"@,
            Aarch64Reg::W8 => "w8"@,
            Aarch64Reg::W9 => "w9"@,
            Aarch64Reg::W10 => "w10"@,
            Aarch64Reg::W11 => "w11"@,
            Aarch64Reg::W12 => "w12"@,
            Aarch64Reg::W13 => "w13"@,
            Aarch64Reg::W14 => "w14"@,
            Aarch64Reg::W15 => "w15"@,
            Aarch64Reg::W16 => "w16"@,
            Aarch64Reg::W17 => "w17"@,
            Aarch64Reg::W18 => "w18"@,
            Aarch64Reg::W19 => "w19"@,
            Aarch64Reg::W20 => "w20"@,
            Aarch64Reg::W21 => "w21"@,
            Aarch64Reg::W22 => "w22"@,
            Aarch64Reg::W23 => "w23"@,
            Aarch64Reg::W24 => "w24"@,
            Aarch64Reg::W25 => "w25"@,
            Aarch64Reg::W26 => "w26"@,
            Aarch64Reg::W27 => "w27"@,
            Aarch64Reg::W28 => "w28"@,
            Aarch64Reg::W29 => "w29"@,
            Aarch64Reg::W30 => "w30"@,
            Aarch64Reg::X0 => "x0"@,
            Aarch64Reg::X1 => "x1"@,
            Aarch64Reg::X2 => "x2"@,
            Aarch64Reg::X3 => "x3"@,
            Aarch64Reg::X4 => "x4"@,
            Aarch64Reg::X5 => "x5"@,
            Aarch64Reg::X6 => "x6"@,
            Aarch64Reg::X7 => "x7"@,
            Aarch64Reg::X8 => "x8"@,
            Aarch64Reg::X9 => "x9"@,
            Aarch64Reg::X10 => "x10"@,
            Aarch64Reg::X11 => "x11"@,
            Aarch64Reg::X12 => "x12"@,
            Aarch64Reg::X13 => "x13"@,
            Aarch64Reg::X14 => "x14"@,
            Aarch64Reg::X15 => "x15"@,
            Aarch64Reg::X16 => "x16"@,
            Aarch64Reg::X17 => "x17"@,
            Aarch64Reg::X18 => "x18"@,
            Aarch64Reg::X19 => "x19"@,
            Aarch64Reg::X20 => "x20"@,
            Aarch64Reg::X21 => "x21"@,
            Aarch64Reg::X22 => "x22"@,
            Aarch64Reg::X23 => "x23"@,
            Aarch64Reg::X24 => "x24"@,
            Aarch64Reg::X25 => "x25"@,
            Aarch64Reg::X26 => "x26"@,
            Aarch64Reg::X27 => "x27"@,
            Aarch64Reg::X28 => "x28"@,
            Aarch64Reg::Z0 => "z0"@,
            Aarch64Reg::Z1 => "z1"@,
            Aarch64Reg::Z2 => "z2"@,
            Aarch64Reg::Z3 => "z3"@,
            Aarch64Reg::Z4 => "z4"@,
            Aarch64Reg::Z5 => "z5"@,
            Aarch64Reg::Z6 => "z6"@,
            Aarch64Reg::Z7 => "z7"@,
            Aarch64Reg::Z8 => "z8"@,
            Aarch64Reg::Z9 => "z9"@,
            Aarch64Reg::Z10 => "z10"@,
            Aarch64Reg::Z11 => "z11"@,
            Aarch64Reg::Z12 => "z12"@,
            Aarch64Reg::Z13 => "z13"@,
            Aarch64Reg::Z14 => "z14"@,
            Aarch64Reg::Z15 => "z15"@,
            Aarch64Reg::Z16 => "z16"@,
            Aarch64Reg::Z17 => "z17"@,
            Aarch64Reg::Z18 => "z18"@,
            Aarch64Reg::Z19 => "z19"@,
            Aarch64Reg::Z20 => "z20"@,
            Aarch64Reg::Z21 => "z21"@,
            Aarch64Reg::Z22 => "z22"@,
            Aarch64Reg::Z23 => "z23"@,
            Aarch64Reg::Z24 => "z24"@,
            Aarch64Reg::Z25 => "z25"@,
            Aarch64Reg::Z26 => "z26"@,
            Aarch64Reg::Z27 => "z27"@,
            Aarch64Reg::Z28 => "z28"@,
            Aarch64Reg::Z29 => "z29"@,
            Aarch64Reg::Z30 => "z30"@,
            Aarch64Reg::Z31 => "z31"@,
            Aarch64Reg::Zab0 => "zab0"@,
            Aarch64Reg::Zad0 => "zad0"@,
            Aarch64Reg::Zad1 => "zad1"@,
            Aarch64Reg::Zad2 => "zad2"@,
            Aarch64Reg::Zad3 => "zad3"@,
            Aarch64Reg::Zad4 => "zad4"@,
            Aarch64Reg::Zad5 => "zad5"@,
            Aarch64Reg::Zad6 => "zad6"@,
            Aarch64Reg::Zad7 => "zad7"@,
            Aarch64Reg::Zah0 => "zah0"@,
            Aarch64Reg::Zah1 => "zah1"@,
            Aarch64Reg::Zaq0 => "zaq0"@,
            Aarch64Reg::Zaq1 => "zaq1"@,
            Aarch64Reg::Zaq2 => "zaq2"@,
            Aarch64Reg::Zaq3 => "zaq3"@,
            Aarch64Reg::Zaq4 => "zaq4"@,
            Aarch64Reg::Zaq5 => "zaq5"@,
            Aarch64Reg::Zaq6 => "zaq6"@,
            Aarch64Reg::Zaq7 => "zaq7"@,
            Aarch64Reg::Zaq8 => "zaq8"@,
            Aarch64Reg::Zaq9 => "zaq9"@,
            Aarch64Reg::Zaq10 => "zaq10"@,
            Aarch64Reg::Zaq11 => "zaq11"@,
            Aarch64Reg::Zaq12 => "zaq12"@,
            Aarch64Reg::Zaq13 => "zaq13"@,
            Aarch64Reg::Zaq14 => "zaq14"@,
            Aarch64Reg::Zaq15 => "zaq15"@,
            Aarch64Reg::Zas0 => "zas0"@,
            Aarch64Reg::Zas1 => "zas1"@,
            Aarch64Reg::Zas2 => "zas2"@,
            Aarch64Reg::Zas3 => "zas3"@,
            Aarch64Reg::V0 => "v0"@,
            Aarch64Reg::V1 => "v1"@,
            Aarch64Reg::V2 => "v2"@,
            Aarch64Reg::V3 => "v3"@,
            Aarch64Reg::V4 => "v4"@,
            Aarch64Reg::V5 => "v5"@,
            Aarch64Reg::V6 => "v6"@,
            Aarch64Reg::V7 => "v7"@,
            Aarch64Reg::V8 => "v8"@,
            Aarch64Reg::V9 => "v9"@,
            Aarch64Reg::V10 => "v10"@,
            Aarch64Reg::V11 => "v11"@,
            Aarch64Reg::V12 => "v12"@,
            Aarch64Reg::V13 => "v13"@,
            Aarch64Reg::V14 => "v14"@,
            Aarch64Reg::V15 => "v15"@,
            Aarch64Reg::V16 => "v16"@,
            Aarch64Reg::V17 => "v17"@,
            Aarch64Reg::V18 => "v18"@,
            Aarch64Reg::V19 => "v19"@,
            Aarch64Reg::V20 => "v20"@,
            Aarch64Reg::V21 => "v21"@,
            Aarch64Reg::V22 => "v22"@,
            Aarch64Reg::V23 => "v23"@,
            Aarch64Reg::V24 => "v24"@,
            Aarch64Reg::V25 => "v25"@,
            Aarch64Reg::V26 => "v26"@,
            Aarch64Reg::V27 => "v27"@,
            Aarch64Reg::V28 => "v28"@,
            Aarch64Reg::V29 => "v29"@,
            Aarch64Reg::V30 => "v30"@,
            Aarch64Reg::V31 => "v31"@,
        }
    }

    /// The full-width register that this register is a part of; itself if it is no part of another.
    pub open spec fn canonical_of(self) -> Self {
        match self {
            Aarch64Reg::W0 => Aarch64Reg::X0,
            Aarch64Reg::W1 => Aarch64Reg::X1,
            Aarch64Reg::W2 => Aarch64Reg::X2,
            Aarch64Reg::W3 => Aarch64Reg::X3,
            Aarch64Reg::W4 => Aarch64Reg::X4,
            Aarch64Reg::W5 => Aarch64Reg::X5,
            Aarch64Reg::W6 => Aarch64Reg::X6,
            Aarch64Reg::W7 => Aarch64Reg::X7,
            Aarch64Reg::W8 => Aarch64Reg::X8,
            Aarch64Reg::W9 => Aarch64Reg::X9,
            Aarch64Reg::W10 => Aarch64Reg::X10,
            Aarch64Reg::W11 => Aarch64Reg::X11,
            Aarch64Reg::W12 => Aarch64Reg::X12,
            Aarch64Reg::W13 => Aarch64Reg::X13,
            Aarch64Reg::W14 => Aarch64Reg::X14,
            Aarch64Reg::W15 => Aarch64Reg::X15,
            Aarch64Reg::W16 => Aarch64Reg::X16,
            Aarch64Reg::W17 => Aarch64Reg::X17,
            Aarch64Reg::W18 => Aarch64Reg::X18,
            Aarch64Reg::W19 => Aarch64Reg::X19,
            Aarch64Reg::W20 => Aarch64Reg::X20,
            Aarch64Reg::W21 => Aarch64Reg::X21,
            Aarch64Reg::W22 => Aarch64Reg::X22,
            Aarch64Reg::W23 => Aarch64Reg::X23,
            Aarch64Reg::W24 => Aarch64Reg::X24,
            Aarch64Reg::W25 => Aarch64Reg::X25,
            Aarch64Reg::W26 => Aarch64Reg::X26,
            Aarch64Reg::W27 => Aarch64Reg::X27,
            Aarch64Reg::W28 => Aarch64Reg::X28,
            Aarch64Reg::W29 => Aarch64Reg::Fp,
            Aarch64Reg::W30 => Aarch64Reg::Lr,
            _ => self,
        }
    }

    /// The place of this register in a register snapshot, if it has one.
    pub open spec fn idx_of(self) -> Option<usize> {
        match self {
            Aarch64Reg::Fp => Some(29),
            Aarch64Reg::Lr => Some(30),
            Aarch64Reg::Sp => Some(31),
            Aarch64Reg::X0 => Some(0),
            Aarch64Reg::X1 => Some(1),
            Aarch64Reg::X2 => Some(2),
            Aarch64Reg::X3 => Some(3),
            Aarch64Reg::X4 => Some(4),
            Aarch64Reg::X5 => Some(5),
            Aarch64Reg::X6 => Some(6),
            Aarch64Reg::X7 => Some(7),
            Aarch64Reg::X8 => Some(8),
            Aarch64Reg::X9 => Some(9),
            Aarch64Reg::X10 => Some(10),
            Aarch64Reg::X11 => Some(11),
            Aarch64Reg::X12 => Some(12),
            Aarch64Reg::X13 => Some(13),
            Aarch64Reg::X14 => Some(14),
            Aarch64Reg::X15 => Some(15),
            Aarch64Reg::X16 => Some(16),
            Aarch64Reg::X17 => Some(17),
            Aarch64Reg::X18 => Some(18),
            Aarch64Reg::X19 => Some(19),
            Aarch64Reg::X20 => Some(20),
            Aarch64Reg::X21 => Some(21),
            Aarch64Reg::X22 => Some(22),
            Aarch64Reg::X23 => Some(23),
            Aarch64Reg::X24 => Some(24),
            Aarch64Reg::X25 => Some(25),
            Aarch64Reg::X26 => Some(26),
            Aarch64Reg::X27 => Some(27),
            Aarch64Reg::X28 => Some(28),
            _ => None,
        }
    }

    /// The register of a number, if the number stands for one.
    pub fn from_num(num: u16) -> (r: Option<Self>)
        ensures
            r matches Some(reg) ==> reg.num_of() == num,
            r is None ==> forall|reg: Aarch64Reg| reg.num_of() != num,
            r is Some <==> 1 <= num <= 341,
    {
        if num == 0 || num > 341 {
            assert forall|reg: Aarch64Reg| reg.num_of() != num by {
                Self::lemma_num_range(reg);
            }
            return None;
        }
        Some(Self::of_num(num))
    }

    /// The numbers of the registers are those from 1 to the number of registers.
    pub proof fn lemma_num_range(reg: Aarch64Reg)
        ensures
            1 <= reg.num_of() <= 341,
    {
    }

    fn of_num(num: u16) -> (reg: Self)
        requires
            1 <= num <= 341,
        ensures
            reg.num_of() == num,
    {
        if num <= 32 {
            Self::from_1_to_32(num)
        } else if num <= 64 {
            Self::from_33_to_64(num)
        } else if num <= 96 {
            Self::from_65_to_96(num)
        } else if num <= 128 {
            Self::from_97_to_128(num)
        } else if num <= 160 {
            Self::from_129_to_160(num)
        } else if num <= 192 {
            Self::from_161_to_192(num)
        } else if num <= 224 {
            Self::from_193_to_224(num)
        } else if num <= 256 {
            Self::from_225_to_256(num)
        } else if num <= 288 {
            Self::from_257_to_288(num)
        } else if num <= 320 {
            Self::from_289_to_320(num)
        } else {
            Self::from_321_to_341(num)
        }
    }

    #[verifier::rlimit(50)]
    fn from_1_to_32(num: u16) -> (reg: Self)
        requires
            1 <= num <= 32,
        ensures
            reg.num_of() == num,
    {
        match num {
            1 => Aarch64Reg::Ffr,
            2 => Aarch64Reg::Fp,
            3 => Aarch64Reg::Lr,
            4 => Aarch64Reg::Nzcv,
            5 => Aarch64Reg::Sp,
            6 => Aarch64Reg::Vg,
            7 => Aarch64Reg::Wsp,
            8 => Aarch64Reg::Wzr,
            9 => Aarch64Reg::Xzr,
            10 => Aarch64Reg::Za,
            11 => Aarch64Reg::B0,
            12 => Aarch64Reg::B1,
            13 => Aarch64Reg::B2,
            14 => Aarch64Reg::B3,
            15 => Aarch64Reg::B4,
            16 => Aarch64Reg::B5,
            17 => Aarch64Reg::B6,
            18 => Aarch64Reg::B7,
            19 => Aarch64Reg::B8,
            20 => Aarch64Reg::B9,
            21 => Aarch64Reg::B10,
            22 => Aarch64Reg::B11,
            23 => Aarch64Reg::B12,
            24 => Aarch64Reg::B13,
            25 => Aarch64Reg::B14,
            26 => Aarch64Reg::B15,
            27 => Aarch64Reg::B16,
            28 => Aarch64Reg::B17,
            29 => Aarch64Reg::B18,
            30 => Aarch64Reg::B19,
            31 => Aarch64Reg::B20,
            _ => Aarch64Reg::B21,
        }
    }

    #[verifier::rlimit(50)]
    fn from_33_to_64(num: u16) -> (reg: Self)
        requires
            33 <= num <= 64,
        ensures
            reg.num_of() == num,
    {
        match num {
            33 => Aarch64Reg::B22,
            34 => Aarch64Reg::B23,
            35 => Aarch64Reg::B24,
            36 => Aarch64Reg::B25,
            37 => Aarch64Reg::B26,
            38 => Aarch64Reg::B27,
            39 => Aarch64Reg::B28,
            40 => Aarch64Reg::B29,
            41 => Aarch64Reg::B30,
            42 => Aarch64Reg::B31,
            43 => Aarch64Reg::D0,
            44 => Aarch64Reg::D1,
            45 => Aarch64Reg::D2,
            46 => Aarch64Reg::D3,
            47 => Aarch64Reg::D4,
            48 => Aarch64Reg::D5,
            49 => Aarch64Reg::D6,
            50 => Aarch64Reg::D7,
            51 => Aarch64Reg::D8,
            52 => Aarch64Reg::D9,
            53 => Aarch64Reg::D10,
            54 => Aarch64Reg::D11,
            55 => Aarch64Reg::D12,
            56 => Aarch64Reg::D13,
            57 => Aarch64Reg::D14,
            58 => Aarch64Reg::D15,
            59 => Aarch64Reg::D16,
            60 => Aarch64Reg::D17,
            61 => Aarch64Reg::D18,
            62 => Aarch64Reg::D19,
            63 => Aarch64Reg::D20,
            _ => Aarch64Reg::D21,
        }
    }

    #[verifier::rlimit(50)]
    fn from_65_to_96(num: u16) -> (reg: Self)
        requires
            65 <= num <= 96,
        ensures
            reg.num_of() == num,
    {
        match num {
            65 => Aarch64Reg::D22,
            66 => Aarch64Reg::D23,
            67 => Aarch64Reg::D24,
            68 => Aarch64Reg::D25,
            69 => Aarch64Reg::D26,
            70 => Aarch64Reg::D27,
            71 => Aarch64Reg::D28,
            72 => Aarch64Reg::D29,
            73 => Aarch64Reg::D30,
            74 => Aarch64Reg::D31,
            75 => Aarch64Reg::H0,
            76 => Aarch64Reg::H1,
            77 => Aarch64Reg::H2,
            78 => Aarch64Reg::H3,
            79 => Aarch64Reg::H4,
            80 => Aarch64Reg::H5,
            81 => Aarch64Reg::H6,
            82 => Aarch64Reg::H7,
            83 => Aarch64Reg::H8,
            84 => Aarch64Reg::H9,
            85 => Aarch64Reg::H10,
            86 => Aarch64Reg::H11,
            87 => Aarch64Reg::H12,
            88 => Aarch64Reg::H13,
            89 => Aarch64Reg::H14,
            90 => Aarch64Reg::H15,
            91 => Aarch64Reg::H16,
            92 => Aarch64Reg::H17,
            93 => Aarch64Reg::H18,
            94 => Aarch64Reg::H19,
            95 => Aarch64Reg::H20,
            _ => Aarch64Reg::H21,
        }
    }

    #[verifier::rlimit(50)]
    fn from_97_to_128(num: u16) -> (reg: Self)
        requires
            97 <= num <= 128,
        ensures
            reg.num_of() == num,
    {
        match num {
            97 => Aarch64Reg::H22,
            98 => Aarch64Reg::H23,
            99 => Aarch64Reg::H24,
            100 => Aarch64Reg::H25,
            101 => Aarch64Reg::H26,
            102 => Aarch64Reg::H27,
            103 => Aarch64Reg::H28,
            104 => Aarch64Reg::H29,
            105 => Aarch64Reg::H30,
            106 => Aarch64Reg::H31,
            107 => Aarch64Reg::P0,
            108 => Aarch64Reg::P1,
            109 => Aarch64Reg::P2,
            110 => Aarch64Reg::P3,
            111 => Aarch64Reg::P4,
            112 => Aarch64Reg::P5,
            113 => Aarch64Reg::P6,
            114 => Aarch64Reg::P7,
            115 => Aarch64Reg::P8,
            116 => Aarch64Reg::P9,
            117 => Aarch64Reg::P10,
            118 => Aarch64Reg::P11,
            119 => Aarch64Reg::P12,
            120 => Aarch64Reg::P13,
            121 => Aarch64Reg::P14,
            122 => Aarch64Reg::P15,
            123 => Aarch64Reg::Q0,
            124 => Aarch64Reg::Q1,
            125 => Aarch64Reg::Q2,
            126 => Aarch64Reg::Q3,
            127 => Aarch64Reg::Q4,
            _ => Aarch64Reg::Q5,
        }
    }

    #[verifier::rlimit(50)]
    fn from_129_to_160(num: u16) -> (reg: Self)
        requires
            129 <= num <= 160,
        ensures
            reg.num_of() == num,
    {
        match num {
            129 => Aarch64Reg::Q6,
            130 => Aarch64Reg::Q7,
            131 => Aarch64Reg::Q8,
            132 => Aarch64Reg::Q9,
            133 => Aarch64Reg::Q10,
            134 => Aarch64Reg::Q11,
            135 => Aarch64Reg::Q12,
            136 => Aarch64Reg::Q13,
            137 => Aarch64Reg::Q14,
            138 => Aarch64Reg::Q15,
            139 => Aarch64Reg::Q16,
            140 => Aarch64Reg::Q17,
            141 => Aarch64Reg::Q18,
            142 => Aarch64Reg::Q19,
            143 => Aarch64Reg::Q20,
            144 => Aarch64Reg::Q21,
            145 => Aarch64Reg::Q22,
            146 => Aarch64Reg::Q23,
            147 => Aarch64Reg::Q24,
            148 => Aarch64Reg::Q25,
            149 => Aarch64Reg::Q26,
            150 => Aarch64Reg::Q27,
            151 => Aarch64Reg::Q28,
            152 => Aarch64Reg::Q29,
            153 => Aarch64Reg::Q30,
            154 => Aarch64Reg::Q31,
            155 => Aarch64Reg::S0,
            156 => Aarch64Reg::S1,
            157 => Aarch64Reg::S2,
            158 => Aarch64Reg::S3,
            159 => Aarch64Reg::S4,
            _ => Aarch64Reg::S5,
        }
    }

    #[verifier::rlimit(50)]
    fn from_161_to_192(num: u16) -> (reg: Self)
        requires
            161 <= num <= 192,
        ensures
            reg.num_of() == num,
    {
        match num {
            161 => Aarch64Reg::S6,
            162 => Aarch64Reg::S7,
            163 => Aarch64Reg::S8,
            164 => Aarch64Reg::S9,
            165 => Aarch64Reg::S10,
            166 => Aarch64Reg::S11,
            167 => Aarch64Reg::S12,
            168 => Aarch64Reg::S13,
            169 => Aarch64Reg::S14,
            170 => Aarch64Reg::S15,
            171 => Aarch64Reg::S16,
            172 => Aarch64Reg::S17,
            173 => Aarch64Reg::S18,
            174 => Aarch64Reg::S19,
            175 => Aarch64Reg::S20,
            176 => Aarch64Reg::S21,
            177 => Aarch64Reg::S22,
            178 => Aarch64Reg::S23,
            179 => Aarch64Reg::S24,
            180 => Aarch64Reg::S25,
            181 => Aarch64Reg::S26,
            182 => Aarch64Reg::S27,
            183 => Aarch64Reg::S28,
            184 => Aarch64Reg::S29,
            185 => Aarch64Reg::S30,
            186 => Aarch64Reg::S31,
            187 => Aarch64Reg::W0,
            188 => Aarch64Reg::W1,
            189 => Aarch64Reg::W2,
            190 => Aarch64Reg::W3,
            191 => Aarch64Reg::W4,
            _ => Aarch64Reg::W5,
        }
    }

    #[verifier::rlimit(50)]
    fn from_193_to_224(num: u16) -> (reg: Self)
        requires
            193 <= num <= 224,
        ensures
            reg.num_of() == num,
    {
        match num {
            193 => Aarch64Reg::W6,
            194 => Aarch64Reg::W7,
            195 => Aarch64Reg::W8,
            196 => Aarch64Reg::W9,
            197 => Aarch64Reg::W10,
            198 => Aarch64Reg::W11,
            199 => Aarch64Reg::W12,
            200 => Aarch64Reg::W13,
            201 => Aarch64Reg::W14,
            202 => Aarch64Reg::W15,
            203 => Aarch64Reg::W16,
            204 => Aarch64Reg::W17,
            205 => Aarch64Reg::W18,
            206 => Aarch64Reg::W19,
            207 => Aarch64Reg::W20,
            208 => Aarch64Reg::W21,
            209 => Aarch64Reg::W22,
            210 => Aarch64Reg::W23,
            211 => Aarch64Reg::W24,
            212 => Aarch64Reg::W25,
            213 => Aarch64Reg::W26,
            214 => Aarch64Reg::W27,
            215 => Aarch64Reg::W28,
            216 => Aarch64Reg::W29,
            217 => Aarch64Reg::W30,
            218 => Aarch64Reg::X0,
            219 => Aarch64Reg::X1,
            220 => Aarch64Reg::X2,
            221 => Aarch64Reg::X3,
            222 => Aarch64Reg::X4,
            223 => Aarch64Reg::X5,
            _ => Aarch64Reg::X6,
        }
    }

    #[verifier::rlimit(50)]
    fn from_225_to_256(num: u16) -> (reg: Self)
        requires
            225 <= num <= 256,
        ensures
            reg.num_of() == num,
    {
        match num {
            225 => Aarch64Reg::X7,
            226 => Aarch64Reg::X8,
            227 => Aarch64Reg::X9,
            228 => Aarch64Reg::X10,
            229 => Aarch64Reg::X11,
            230 => Aarch64Reg::X12,
            231 => Aarch64Reg::X13,
            232 => Aarch64Reg::X14,
            233 => Aarch64Reg::X15,
            234 => Aarch64Reg::X16,
            235 => Aarch64Reg::X17,
            236 => Aarch64Reg::X18,
            237 => Aarch64Reg::X19,
            238 => Aarch64Reg::X20,
            239 => Aarch64Reg::X21,
            240 => Aarch64Reg::X22,
            241 => Aarch64Reg::X23,
            242 => Aarch64Reg::X24,
            243 => Aarch64Reg::X25,
            244 => Aarch64Reg::X26,
            245 => Aarch64Reg::X27,
            246 => Aarch64Reg::X28,
            247 => Aarch64Reg::Z0,
            248 => Aarch64Reg::Z1,
            249 => Aarch64Reg::Z2,
            250 => Aarch64Reg::Z3,
            251 => Aarch64Reg::Z4,
            252 => Aarch64Reg::Z5,
            253 => Aarch64Reg::Z6,
            254 => Aarch64Reg::Z7,
            255 => Aarch64Reg::Z8,
            _ => Aarch64Reg::Z9,
        }
    }

    #[verifier::rlimit(50)]
    fn from_257_to_288(num: u16) -> (reg: Self)
        requires
            257 <= num <= 288,
        ensures
            reg.num_of() == num,
    {
        match num {
            257 => Aarch64Reg::Z10,
            258 => Aarch64Reg::Z11,
            259 => Aarch64Reg::Z12,
            260 => Aarch64Reg::Z13,
            261 => Aarch64Reg::Z14,
            262 => Aarch64Reg::Z15,
            263 => Aarch64Reg::Z16,
            264 => Aarch64Reg::Z17,
            265 => Aarch64Reg::Z18,
            266 => Aarch64Reg::Z19,
            267 => Aarch64Reg::Z20,
            268 => Aarch64Reg::Z21,
            269 => Aarch64Reg::Z22,
            270 => Aarch64Reg::Z23,
            271 => Aarch64Reg::Z24,
            272 => Aarch64Reg::Z25,
            273 => Aarch64Reg::Z26,
            274 => Aarch64Reg::Z27,
            275 => Aarch64Reg::Z28,
            276 => Aarch64Reg::Z29,
            277 => Aarch64Reg::Z30,
            278 => Aarch64Reg::Z31,
            279 => Aarch64Reg::Zab0,
            280 => Aarch64Reg::Zad0,
            281 => Aarch64Reg::Zad1,
            282 => Aarch64Reg::Zad2,
            283 => Aarch64Reg::Zad3,
            284 => Aarch64Reg::Zad4,
            285 => Aarch64Reg::Zad5,
            286 => Aarch64Reg::Zad6,
            287 => Aarch64Reg::Zad7,
            _ => Aarch64Reg::Zah0,
        }
    }

    #[verifier::rlimit(50)]
    fn from_289_to_320(num: u16) -> (reg: Self)
        requires
            289 <= num <= 320,
        ensures
            reg.num_of() == num,
    {
        match num {
            289 => Aarch64Reg::Zah1,
            290 => Aarch64Reg::Zaq0,
            291 => Aarch64Reg::Zaq1,
            292 => Aarch64Reg::Zaq2,
            293 => Aarch64Reg::Zaq3,
            294 => Aarch64Reg::Zaq4,
            295 => Aarch64Reg::Zaq5,
            296 => Aarch64Reg::Zaq6,
            297 => Aarch64Reg::Zaq7,
            298 => Aarch64Reg::Zaq8,
            299 => Aarch64Reg::Zaq9,
            300 => Aarch64Reg::Zaq10,
            301 => Aarch64Reg::Zaq11,
            302 => Aarch64Reg::Zaq12,
            303 => Aarch64Reg::Zaq13,
            304 => Aarch64Reg::Zaq14,
            305 => Aarch64Reg::Zaq15,
            306 => Aarch64Reg::Zas0,
            307 => Aarch64Reg::Zas1,
            308 => Aarch64Reg::Zas2,
            309 => Aarch64Reg::Zas3,
            310 => Aarch64Reg::V0,
            311 => Aarch64Reg::V1,
            312 => Aarch64Reg::V2,
            313 => Aarch64Reg::V3,
            314 => Aarch64Reg::V4,
            315 => Aarch64Reg::V5,
            316 => Aarch64Reg::V6,
            317 => Aarch64Reg::V7,
            318 => Aarch64Reg::V8,
            319 => Aarch64Reg::V9,
            _ => Aarch64Reg::V10,
        }
    }

    #[verifier::rlimit(50)]
    fn from_321_to_341(num: u16) -> (reg: Self)
        requires
            321 <= num <= 341,
        ensures
            reg.num_of() == num,
    {
        match num {
            321 => Aarch64Reg::V11,
            322 => Aarch64Reg::V12,
            323 => Aarch64Reg::V13,
            324 => Aarch64Reg::V14,
            325 => Aarch64Reg::V15,
            326 => Aarch64Reg::V16,
            327 => Aarch64Reg::V17,
            328 => Aarch64Reg::V18,
            329 => Aarch64Reg::V19,
            330 => Aarch64Reg::V20,
            331 => Aarch64Reg::V21,
            332 => Aarch64Reg::V22,
            333 => Aarch64Reg::V23,
            334 => Aarch64Reg::V24,
            335 => Aarch64Reg::V25,
            336 => Aarch64Reg::V26,
            337 => Aarch64Reg::V27,
            338 => Aarch64Reg::V28,
            339 => Aarch64Reg::V29,
            340 => Aarch64Reg::V30,
            _ => Aarch64Reg::V31,
        }
    }

    /// The name by which the disassembler knows this register.
    pub fn as_str(&self) -> (s: &'static str)
        ensures
            s@ == self.name(),
    {
        match self {
            Aarch64Reg::Ffr => "ffr",
            Aarch64Reg::Fp => "fp",
            Aarch64Reg::Lr => "lr",
            Aarch64Reg::Nzcv => "nzcv",
            Aarch64Reg::Sp => "sp",
            Aarch64Reg::Vg => "vg",
            Aarch64Reg::Wsp => "wsp",
            Aarch64Reg::Wzr => "wzr",
            Aarch64Reg::Xzr => "xzr",
            Aarch64Reg::Za => "za",
            Aarch64Reg::B0 => "b0",
            Aarch64Reg::B1 => "b1",
            Aarch64Reg::B2 => "b2",
            Aarch64Reg::B3 => "b3",
            Aarch64Reg::B4 => "b4",
            Aarch64Reg::B5 => "b5",
            Aarch64Reg::B6 => "b6",
            Aarch64Reg::B7 => "b7",
            Aarch64Reg::B8 => "b8",
            Aarch64Reg::B9 => "b9",
            Aarch64Reg::B10 => "b10",
            Aarch64Reg::B11 => "b11",
            Aarch64Reg::B12 => "b12",
            Aarch64Reg::B13 => "b13",
            Aarch64Reg::B14 => "b14",
            Aarch64Reg::B15 => "b15",
            Aarch64Reg::B16 => "b16",
            Aarch64Reg::B17 => "b17",
            Aarch64Reg::B18 => "b18",
            Aarch64Reg::B19 => "b19",
            Aarch64Reg::B20 => "b20",
            Aarch64Reg::B21 => "b21",
            Aarch64Reg::B22 => "b22",
            Aarch64Reg::B23 => "b23",
            Aarch64Reg::B24 => "b24",
            Aarch64Reg::B25 => "b25",
            Aarch64Reg::B26 => "b26",
            Aarch64Reg::B27 => "b27",
            Aarch64Reg::B28 => "b28",
            Aarch64Reg::B29 => "b29",
            Aarch64Reg::B30 => "b30",
            Aarch64Reg::B31 => "b31",
            Aarch64Reg::D0 => "d0",
            Aarch64Reg::D1 => "d1",
            Aarch64Reg::D2 => "d2",
            Aarch64Reg::D3 => "d3",
            Aarch64Reg::D4 => "d4",
            Aarch64Reg::D5 => "d5",
            Aarch64Reg::D6 => "d6",
            Aarch64Reg::D7 => "d7",
            Aarch64Reg::D8 => "d8",
            Aarch64Reg::D9 => "d9",
            Aarch64Reg::D10 => "d10",
            Aarch64Reg::D11 => "d11",
            Aarch64Reg::D12 => "d12",
            Aarch64Reg::D13 => "d13",
            Aarch64Reg::D14 => "d14",
            Aarch64Reg::D15 => "d15",
            Aarch64Reg::D16 => "d16",
            Aarch64Reg::D17 => "d17",
            Aarch64Reg::D18 => "d18",
            Aarch64Reg::D19 => "d19",
            Aarch64Reg::D20 => "d20",
            Aarch64Reg::D21 => "d21",
            Aarch64Reg::D22 => "d22",
            Aarch64Reg::D23 => "d23",
            Aarch64Reg::D24 => "d24",
            Aarch64Reg::D25 => "d25",
            Aarch64Reg::D26 => "d26",
            Aarch64Reg::D27 => "d27",
            Aarch64Reg::D28 => "d28",
            Aarch64Reg::D29 => "d29",
            Aarch64Reg::D30 => "d30",
            Aarch64Reg::D31 => "d31",
            Aarch64Reg::H0 => "h0",
            Aarch64Reg::H1 => "h1",
            Aarch64Reg::H2 => "h2",
            Aarch64Reg::H3 => "h3",
            Aarch64Reg::H4 => "h4",
            Aarch64Reg::H5 => "h5",
            Aarch64Reg::H6 => "h6",
            Aarch64Reg::H7 => "h7",
            Aarch64Reg::H8 => "h8",
            Aarch64Reg::H9 => "h9",
            Aarch64Reg::H10 => "h10",
            Aarch64Reg::H11 => "h11",
            Aarch64Reg::H12 => "h12",
            Aarch64Reg::H13 => "h13",
            Aarch64Reg::H14 => "h14",
            Aarch64Reg::H15 => "h15",
            Aarch64Reg::H16 => "h16",
            Aarch64Reg::H17 => "h17",
            Aarch64Reg::H18 => "h18",
            Aarch64Reg::H19 => "h19",
            Aarch64Reg::H20 => "h20",
            Aarch64Reg::H21 => "h21",
            Aarch64Reg::H22 => "h22",
            Aarch64Reg::H23 => "h23",
            Aarch64Reg::H24 => "h24",
            Aarch64Reg::H25 => "h25",
            Aarch64Reg::H26 => "h26",
            Aarch64Reg::H27 => "h27",
            Aarch64Reg::H28 => "h28",
            Aarch64Reg::H29 => "h29",
            Aarch64Reg::H30 => "h30",
            Aarch64Reg::H31 => "h31",
            Aarch64Reg::P0 => "p0",
            Aarch64Reg::P1 => "p1",
            Aarch64Reg::P2 => "p2",
            Aarch64Reg::P3 => "p3",
            Aarch64Reg::P4 => "p4",
            Aarch64Reg::P5 => "p5",
            Aarch64Reg::P6 => "p6",
            Aarch64Reg::P7 => "p7",
            Aarch64Reg::P8 => "p8",
            Aarch64Reg::P9 => "p9",
            Aarch64Reg::P10 => "p10",
            Aarch64Reg::P11 => "p11",
            Aarch64Reg::P12 => "p12",
            Aarch64Reg::P13 => "p13",
            Aarch64Reg::P14 => "p14",
            Aarch64Reg::P15 => "p15",
            Aarch64Reg::Q0 => "q0",
            Aarch64Reg::Q1 => "q1",
            Aarch64Reg::Q2 => "q2",
            Aarch64Reg::Q3 => "q3",
            Aarch64Reg::Q4 => "q4",
            Aarch64Reg::Q5 => "q5",
            Aarch64Reg::Q6 => "q6",
            Aarch64Reg::Q7 => "q7",
            Aarch64Reg::Q8 => "q8",
            Aarch64Reg::Q9 => "q9",
            Aarch64Reg::Q10 => "q10",
            Aarch64Reg::Q11 => "q11",
            Aarch64Reg::Q12 => "q12",
            Aarch64Reg::Q13 => "q13",
            Aarch64Reg::Q14 => "q14",
            Aarch64Reg::Q15 => "q15",
            Aarch64Reg::Q16 => "q16",
            Aarch64Reg::Q17 => "q17",
            Aarch64Reg::Q18 => "q18",
            Aarch64Reg::Q19 => "q19",
            Aarch64Reg::Q20 => "q20",
            Aarch64Reg::Q21 => "q21",
            Aarch64Reg::Q22 => "q22",
            Aarch64Reg::Q23 => "q23",
            Aarch64Reg::Q24 => "q24",
            Aarch64Reg::Q25 => "q25",
            Aarch64Reg::Q26 => "q26",
            Aarch64Reg::Q27 => "q27",
            Aarch64Reg::Q28 => "q28",
            Aarch64Reg::Q29 => "q29",
            Aarch64Reg::Q30 => "q30",
            Aarch64Reg::Q31 => "q31",
            Aarch64Reg::S0 => "s0",
            Aarch64Reg::S1 => "s1",
            Aarch64Reg::S2 => "s2",
            Aarch64Reg::S3 => "s3",
            Aarch64Reg::S4 => "s4",
            Aarch64Reg::S5 => "s5",
            Aarch64Reg::S6 => "s6",
            Aarch64Reg::S7 => "s7",
            Aarch64Reg::S8 => "s8",
            Aarch64Reg::S9 => "s9",
            Aarch64Reg::S10 => "s10",
            Aarch64Reg::S11 => "s11",
            Aarch64Reg::S12 => "s12",
            Aarch64Reg::S13 => "s13",
            Aarch64Reg::S14 => "s14",
            Aarch64Reg::S15 => "s15",
            Aarch64Reg::S16 => "s16",
            Aarch64Reg::S17 => "s17",
            Aarch64Reg::S18 => "s18",
            Aarch64Reg::S19 => "s19",
            Aarch64Reg::S20 => "s20",
            Aarch64Reg::S21 => "s21",
            Aarch64Reg::S22 => "s22",
            Aarch64Reg::S23 => "s23",
            Aarch64Reg::S24 => "s24",
            Aarch64Reg::S25 => "s25",
            Aarch64Reg::S26 => "s26",
            Aarch64Reg::S27 => "s27",
            Aarch64Reg::S28 => "s28",
            Aarch64Reg::S29 => "s29",
            Aarch64Reg::S30 => "s30",
            Aarch64Reg::S31 => "s31",
            Aarch64Reg::W0 => "w0",
            Aarch64Reg::W1 => "w1",
            Aarch64Reg::W2 => "w2",
            Aarch64Reg::W3 => "w3",
            Aarch64Reg::W4 => "w4",
            Aarch64Reg::W5 => "w5",
            Aarch64Reg::W6 => "w6",
            Aarch64Reg::W7 => "w7",
            Aarch64Reg::W8 => "w8",
            Aarch64Reg::W9 => "w9",
            Aarch64Reg::W10 => "w10",
            Aarch64Reg::W11 => "w11",
            Aarch64Reg::W12 => "w12",
            Aarch64Reg::W13 => "w13",
            Aarch64Reg::W14 => "w14",
            Aarch64Reg::W15 => "w15",
            Aarch64Reg::W16 => "w16",
            Aarch64Reg::W17 => "w17",
            Aarch64Reg::W18 => "w18",
            Aarch64Reg::W19 => "w19",
            Aarch64Reg::W20 => "w20",
            Aarch64Reg::W21 => "w21",
            Aarch64Reg::W22 => "w22",
            Aarch64Reg::W23 => "w23",
            Aarch64Reg::W24 => "w24",
            Aarch64Reg::W25 => "w25",
            Aarch64Reg::W26 => "w26",
            Aarch64Reg::W27 => "w27",
            Aarch64Reg::W28 => "w28",
            Aarch64Reg::W29 => "w29",
            Aarch64Reg::W30 => "w30",
            Aarch64Reg::X0 => "x0",
            Aarch64Reg::X1 => "x1",
            Aarch64Reg::X2 => "x2",
            Aarch64Reg::X3 => "x3",
            Aarch64Reg::X4 => "x4",
            Aarch64Reg::X5 => "x5",
            Aarch64Reg::X6 => "x6",
            Aarch64Reg::X7 => "x7",
            Aarch64Reg::X8 => "x8",
            Aarch64Reg::X9 => "x9",
            Aarch64Reg::X10 => "x10",
            Aarch64Reg::X11 => "x11",
            Aarch64Reg::X12 => "x12",
            Aarch64Reg::X13 => "x13",
            Aarch64Reg::X14 => "x14",
            Aarch64Reg::X15 => "x15",
            Aarch64Reg::X16 => "x16",
            Aarch64Reg::X17 => "x17",
            Aarch64Reg::X18 => "x18",
            Aarch64Reg::X19 => "x19",
            Aarch64Reg::X20 => "x20",
            Aarch64Reg::X21 => "x21",
            Aarch64Reg::X22 => "x22",
            Aarch64Reg::X23 => "x23",
            Aarch64Reg::X24 => "x24",
            Aarch64Reg::X25 => "x25",
            Aarch64Reg::X26 => "x26",
            Aarch64Reg::X27 => "x27",
            Aarch64Reg::X28 => "x28",
            Aarch64Reg::Z0 => "z0",
            Aarch64Reg::Z1 => "z1",
            Aarch64Reg::Z2 => "z2",
            Aarch64Reg::Z3 => "z3",
            Aarch64Reg::Z4 => "z4",
            Aarch64Reg::Z5 => "z5",
            Aarch64Reg::Z6 => "z6",
            Aarch64Reg::Z7 => "z7",
            Aarch64Reg::Z8 => "z8",
            Aarch64Reg::Z9 => "z9",
            Aarch64Reg::Z10 => "z10",
            Aarch64Reg::Z11 => "z11",
            Aarch64Reg::Z12 => "z12",
            Aarch64Reg::Z13 => "z13",
            Aarch64Reg::Z14 => "z14",
            Aarch64Reg::Z15 => "z15",
            Aarch64Reg::Z16 => "z16",
            Aarch64Reg::Z17 => "z17",
            Aarch64Reg::Z18 => "z18",
            Aarch64Reg::Z19 => "z19",
            Aarch64Reg::Z20 => "z20",
            Aarch64Reg::Z21 => "z21",
            Aarch64Reg::Z22 => "z22",
            Aarch64Reg::Z23 => "z23",
            Aarch64Reg::Z24 => "z24",
            Aarch64Reg::Z25 => "z25",
            Aarch64Reg::Z26 => "z26",
            Aarch64Reg::Z27 => "z27",
            Aarch64Reg::Z28 => "z28",
            Aarch64Reg::Z29 => "z29",
            Aarch64Reg::Z30 => "z30",
            Aarch64Reg::Z31 => "z31",
            Aarch64Reg::Zab0 => "zab0",
            Aarch64Reg::Zad0 => "zad0",
            Aarch64Reg::Zad1 => "zad1",
            Aarch64Reg::Zad2 => "zad2",
            Aarch64Reg::Zad3 => "zad3",
            Aarch64Reg::Zad4 => "zad4",
            Aarch64Reg::Zad5 => "zad5",
            Aarch64Reg::Zad6 => "zad6",
            Aarch64Reg::Zad7 => "zad7",
            Aarch64Reg::Zah0 => "zah0",
            Aarch64Reg::Zah1 => "zah1",
            Aarch64Reg::Zaq0 => "zaq0",
            Aarch64Reg::Zaq1 => "zaq1",
            Aarch64Reg::Zaq2 => "zaq2",
            Aarch64Reg::Zaq3 => "zaq3",
            Aarch64Reg::Zaq4 => "zaq4",
            Aarch64Reg::Zaq5 => "zaq5",
            Aarch64Reg::Zaq6 => "zaq6",
            Aarch64Reg::Zaq7 => "zaq7",
            Aarch64Reg::Zaq8 => "zaq8",
            Aarch64Reg::Zaq9 => "zaq9",
            Aarch64Reg::Zaq10 => "zaq10",
            Aarch64Reg::Zaq11 => "zaq11",
            Aarch64Reg::Zaq12 => "zaq12",
            Aarch64Reg::Zaq13 => "zaq13",
            Aarch64Reg::Zaq14 => "zaq14",
            Aarch64Reg::Zaq15 => "zaq15",
            Aarch64Reg::Zas0 => "zas0",
            Aarch64Reg::Zas1 => "zas1",
            Aarch64Reg::Zas2 => "zas2",
            Aarch64Reg::Zas3 => "zas3",
            Aarch64Reg::V0 => "v0",
            Aarch64Reg::V1 => "v1",
            Aarch64Reg::V2 => "v2",
            Aarch64Reg::V3 => "v3",
            Aarch64Reg::V4 => "v4",
            Aarch64Reg::V5 => "v5",
            Aarch64Reg::V6 => "v6",
            Aarch64Reg::V7 => "v7",
            Aarch64Reg::V8 => "v8",
            Aarch64Reg::V9 => "v9",
            Aarch64Reg::V10 => "v10",
            Aarch64Reg::V11 => "v11",
            Aarch64Reg::V12 => "v12",
            Aarch64Reg::V13 => "v13",
            Aarch64Reg::V14 => "v14",
            Aarch64Reg::V15 => "v15",
            Aarch64Reg::V16 => "v16",
            Aarch64Reg::V17 => "v17",
            Aarch64Reg::V18 => "v18",
            Aarch64Reg::V19 => "v19",
            Aarch64Reg::V20 => "v20",
            Aarch64Reg::V21 => "v21",
            Aarch64Reg::V22 => "v22",
            Aarch64Reg::V23 => "v23",
            Aarch64Reg::V24 => "v24",
            Aarch64Reg::V25 => "v25",
            Aarch64Reg::V26 => "v26",
            Aarch64Reg::V27 => "v27",
            Aarch64Reg::V28 => "v28",
            Aarch64Reg::V29 => "v29",
            Aarch64Reg::V30 => "v30",
            Aarch64Reg::V31 => "v31",
        }
    }

    /// The full-width register that this register is a part of; itself if it is no part of another.
    pub fn canonical(&self) -> (r: Self)
        ensures
            r == self.canonical_of(),
    {
        match self {
            Aarch64Reg::W0 => Aarch64Reg::X0,
            Aarch64Reg::W1 => Aarch64Reg::X1,
            Aarch64Reg::W2 => Aarch64Reg::X2,
            Aarch64Reg::W3 => Aarch64Reg::X3,
            Aarch64Reg::W4 => Aarch64Reg::X4,
            Aarch64Reg::W5 => Aarch64Reg::X5,
            Aarch64Reg::W6 => Aarch64Reg::X6,
            Aarch64Reg::W7 => Aarch64Reg::X7,
            Aarch64Reg::W8 => Aarch64Reg::X8,
            Aarch64Reg::W9 => Aarch64Reg::X9,
            Aarch64Reg::W10 => Aarch64Reg::X10,
            Aarch64Reg::W11 => Aarch64Reg::X11,
            Aarch64Reg::W12 => Aarch64Reg::X12,
            Aarch64Reg::W13 => Aarch64Reg::X13,
            Aarch64Reg::W14 => Aarch64Reg::X14,
            Aarch64Reg::W15 => Aarch64Reg::X15,
            Aarch64Reg::W16 => Aarch64Reg::X16,
            Aarch64Reg::W17 => Aarch64Reg::X17,
            Aarch64Reg::W18 => Aarch64Reg::X18,
            Aarch64Reg::W19 => Aarch64Reg::X19,
            Aarch64Reg::W20 => Aarch64Reg::X20,
            Aarch64Reg::W21 => Aarch64Reg::X21,
            Aarch64Reg::W22 => Aarch64Reg::X22,
            Aarch64Reg::W23 => Aarch64Reg::X23,
            Aarch64Reg::W24 => Aarch64Reg::X24,
            Aarch64Reg::W25 => Aarch64Reg::X25,
            Aarch64Reg::W26 => Aarch64Reg::X26,
            Aarch64Reg::W27 => Aarch64Reg::X27,
            Aarch64Reg::W28 => Aarch64Reg::X28,
            Aarch64Reg::W29 => Aarch64Reg::Fp,
            Aarch64Reg::W30 => Aarch64Reg::Lr,
            _ => *self,
        }
    }

    /// The place of this register in a register snapshot, if it has one.
    pub fn idx(&self) -> (r: Option<usize>)
        ensures
            r == self.idx_of(),
            r matches Some(i) ==> i < 32,
    {
        match self {
            Aarch64Reg::Fp => Some(29),
            Aarch64Reg::Lr => Some(30),
            Aarch64Reg::Sp => Some(31),
            Aarch64Reg::X0 => Some(0),
            Aarch64Reg::X1 => Some(1),
            Aarch64Reg::X2 => Some(2),
            Aarch64Reg::X3 => Some(3),
            Aarch64Reg::X4 => Some(4),
            Aarch64Reg::X5 => Some(5),
            Aarch64Reg::X6 => Some(6),
            Aarch64Reg::X7 => Some(7),
            Aarch64Reg::X8 => Some(8),
            Aarch64Reg::X9 => Some(9),
            Aarch64Reg::X10 => Some(10),
            Aarch64Reg::X11 => Some(11),
            Aarch64Reg::X12 => Some(12),
            Aarch64Reg::X13 => Some(13),
            Aarch64Reg::X14 => Some(14),
            Aarch64Reg::X15 => Some(15),
            Aarch64Reg::X16 => Some(16),
            Aarch64Reg::X17 => Some(17),
            Aarch64Reg::X18 => Some(18),
            Aarch64Reg::X19 => Some(19),
            Aarch64Reg::X20 => Some(20),
            Aarch64Reg::X21 => Some(21),
            Aarch64Reg::X22 => Some(22),
            Aarch64Reg::X23 => Some(23),
            Aarch64Reg::X24 => Some(24),
            Aarch64Reg::X25 => Some(25),
            Aarch64Reg::X26 => Some(26),
            Aarch64Reg::X27 => Some(27),
            Aarch64Reg::X28 => Some(28),
            _ => None,
        }
    }

    /// The register at a place of a register snapshot.
    pub fn from_idx(i: usize) -> (r: Option<Self>)
        ensures
            r matches Some(reg) ==> reg.idx_of() == Some(i),
            r is None ==> forall|reg: Aarch64Reg| reg.idx_of() != Some(i),
            r is Some <==> i < 32,
    {
        match i {
            0 => Some(Aarch64Reg::X0),
            1 => Some(Aarch64Reg::X1),
            2 => Some(Aarch64Reg::X2),
            3 => Some(Aarch64Reg::X3),
            4 => Some(Aarch64Reg::X4),
            5 => Some(Aarch64Reg::X5),
            6 => Some(Aarch64Reg::X6),
            7 => Some(Aarch64Reg::X7),
            8 => Some(Aarch64Reg::X8),
            9 => Some(Aarch64Reg::X9),
            10 => Some(Aarch64Reg::X10),
            11 => Some(Aarch64Reg::X11),
            12 => Some(Aarch64Reg::X12),
            13 => Some(Aarch64Reg::X13),
            14 => Some(Aarch64Reg::X14),
            15 => Some(Aarch64Reg::X15),
            16 => Some(Aarch64Reg::X16),
            17 => Some(Aarch64Reg::X17),
            18 => Some(Aarch64Reg::X18),
            19 => Some(Aarch64Reg::X19),
            20 => Some(Aarch64Reg::X20),
            21 => Some(Aarch64Reg::X21),
            22 => Some(Aarch64Reg::X22),
            23 => Some(Aarch64Reg::X23),
            24 => Some(Aarch64Reg::X24),
            25 => Some(Aarch64Reg::X25),
            26 => Some(Aarch64Reg::X26),
            27 => Some(Aarch64Reg::X27),
            28 => Some(Aarch64Reg::X28),
            29 => Some(Aarch64Reg::Fp),
            30 => Some(Aarch64Reg::Lr),
            31 => Some(Aarch64Reg::Sp),
            _ => None,
        }
    }
}

/// A register of a snapshot is no part of another register, and parts have no place of their own.
pub proof fn lemma_aarch64reg_canonical(reg: Aarch64Reg)
    ensures
        reg.canonical_of().canonical_of() == reg.canonical_of(),
        reg.idx_of() is Some ==> reg.canonical_of() == reg,
{
}

} // verus!
