//! The register catalog for the 64-bit x86 architecture.
//!
//! A catalog entry is a stable logical register name with no intrinsic
//! width; the width is only known once the entry is resolved against the
//! engine's register descriptor set (see `crate::resolve`). Entries for
//! state the engine does not model (mask registers, the wide vector
//! registers beyond XMM15/YMM15, and a few legacy views) are reserved:
//! they carry no descriptor name and must fail resolution explicitly.
//! `Invalid` and the terminal sentinel `End` are never resolvable.

use vstd::prelude::*;

verus! {

/// The number of catalog entries, the sentinel included.
pub const REGISTER_COUNT: usize = 240;

/// The closed catalog of logical register names. `End` is the terminal
/// sentinel and must stay last.
#[derive(Clone, Copy, PartialEq, Eq, Structural, Debug)]
pub enum X64Register {
    Invalid,
    Ah,
    Al,
    Ax,
    Bh,
    Bl,
    Bp,
    Bpl,
    Bx,
    Ch,
    Cl,
    Cs,
    Cx,
    Dh,
    Di,
    Dil,
    Dl,
    Ds,
    Dx,
    Eax,
    Ebp,
    Ebx,
    Ecx,
    Edi,
    Edx,
    Eflags,
    Eip,
    Es,
    Esi,
    Esp,
    Fpsw,
    Fs,
    Gs,
    Ip,
    Rax,
    Rbp,
    Rbx,
    Rcx,
    Rdi,
    Rdx,
    Rip,
    Rsi,
    Rsp,
    Si,
    Sil,
    Sp,
    Spl,
    Ss,
    Cr0,
    Cr1,
    Cr2,
    Cr3,
    Cr4,
    Cr8,
    Dr0,
    Dr1,
    Dr2,
    Dr3,
    Dr4,
    Dr5,
    Dr6,
    Dr7,
    Fp0,
    Fp1,
    Fp2,
    Fp3,
    Fp4,
    Fp5,
    Fp6,
    Fp7,
    K0,
    K1,
    K2,
    K3,
    K4,
    K5,
    K6,
    K7,
    Mm0,
    Mm1,
    Mm2,
    Mm3,
    Mm4,
    Mm5,
    Mm6,
    Mm7,
    R8,
    R9,
    R10,
    R11,
    R12,
    R13,
    R14,
    R15,
    St0,
    St1,
    St2,
    St3,
    St4,
    St5,
    St6,
    St7,
    Xmm0,
    Xmm1,
    Xmm2,
    Xmm3,
    Xmm4,
    Xmm5,
    Xmm6,
    Xmm7,
    Xmm8,
    Xmm9,
    Xmm10,
    Xmm11,
    Xmm12,
    Xmm13,
    Xmm14,
    Xmm15,
    Xmm16,
    Xmm17,
    Xmm18,
    Xmm19,
    Xmm20,
    Xmm21,
    Xmm22,
    Xmm23,
    Xmm24,
    Xmm25,
    Xmm26,
    Xmm27,
    Xmm28,
    Xmm29,
    Xmm30,
    Xmm31,
    Ymm0,
    Ymm1,
    Ymm2,
    Ymm3,
    Ymm4,
    Ymm5,
    Ymm6,
    Ymm7,
    Ymm8,
    Ymm9,
    Ymm10,
    Ymm11,
    Ymm12,
    Ymm13,
    Ymm14,
    Ymm15,
    Ymm16,
    Ymm17,
    Ymm18,
    Ymm19,
    Ymm20,
    Ymm21,
    Ymm22,
    Ymm23,
    Ymm24,
    Ymm25,
    Ymm26,
    Ymm27,
    Ymm28,
    Ymm29,
    Ymm30,
    Ymm31,
    Zmm0,
    Zmm1,
    Zmm2,
    Zmm3,
    Zmm4,
    Zmm5,
    Zmm6,
    Zmm7,
    Zmm8,
    Zmm9,
    Zmm10,
    Zmm11,
    Zmm12,
    Zmm13,
    Zmm14,
    Zmm15,
    Zmm16,
    Zmm17,
    Zmm18,
    Zmm19,
    Zmm20,
    Zmm21,
    Zmm22,
    Zmm23,
    Zmm24,
    Zmm25,
    Zmm26,
    Zmm27,
    Zmm28,
    Zmm29,
    Zmm30,
    Zmm31,
    R8b,
    R9b,
    R10b,
    R11b,
    R12b,
    R13b,
    R14b,
    R15b,
    R8d,
    R9d,
    R10d,
    R11d,
    R12d,
    R13d,
    R14d,
    R15d,
    R8w,
    R9w,
    R10w,
    R11w,
    R12w,
    R13w,
    R14w,
    R15w,
    Idtr,
    Gdtr,
    Ldtr,
    Tr,
    Fpcw,
    Fptag,
    Msr,
    Mxcsr,
    FsBase,
    GsBase,
    Flags,
    Rflags,
    Fip,
    Fcs,
    Fdp,
    Fds,
    Fop,
    End,
}

/// The position of an entry in catalog declaration order: the witness
/// that walking the catalog once visits every entry.
pub open spec fn spec_reg_index(reg: X64Register) -> int {
    match reg {
        X64Register::Invalid => 0,
        X64Register::Ah => 1,
        X64Register::Al => 2,
        X64Register::Ax => 3,
        X64Register::Bh => 4,
        X64Register::Bl => 5,
        X64Register::Bp => 6,
        X64Register::Bpl => 7,
        X64Register::Bx => 8,
        X64Register::Ch => 9,
        X64Register::Cl => 10,
        X64Register::Cs => 11,
        X64Register::Cx => 12,
        X64Register::Dh => 13,
        X64Register::Di => 14,
        X64Register::Dil => 15,
        X64Register::Dl => 16,
        X64Register::Ds => 17,
        X64Register::Dx => 18,
        X64Register::Eax => 19,
        X64Register::Ebp => 20,
        X64Register::Ebx => 21,
        X64Register::Ecx => 22,
        X64Register::Edi => 23,
        X64Register::Edx => 24,
        X64Register::Eflags => 25,
        X64Register::Eip => 26,
        X64Register::Es => 27,
        X64Register::Esi => 28,
        X64Register::Esp => 29,
        X64Register::Fpsw => 30,
        X64Register::Fs => 31,
        X64Register::Gs => 32,
        X64Register::Ip => 33,
        X64Register::Rax => 34,
        X64Register::Rbp => 35,
        X64Register::Rbx => 36,
        X64Register::Rcx => 37,
        X64Register::Rdi => 38,
        X64Register::Rdx => 39,
        X64Register::Rip => 40,
        X64Register::Rsi => 41,
        X64Register::Rsp => 42,
        X64Register::Si => 43,
        X64Register::Sil => 44,
        X64Register::Sp => 45,
        X64Register::Spl => 46,
        X64Register::Ss => 47,
        X64Register::Cr0 => 48,
        X64Register::Cr1 => 49,
        X64Register::Cr2 => 50,
        X64Register::Cr3 => 51,
        X64Register::Cr4 => 52,
        X64Register::Cr8 => 53,
        X64Register::Dr0 => 54,
        X64Register::Dr1 => 55,
        X64Register::Dr2 => 56,
        X64Register::Dr3 => 57,
        X64Register::Dr4 => 58,
        X64Register::Dr5 => 59,
        X64Register::Dr6 => 60,
        X64Register::Dr7 => 61,
        X64Register::Fp0 => 62,
        X64Register::Fp1 => 63,
        X64Register::Fp2 => 64,
        X64Register::Fp3 => 65,
        X64Register::Fp4 => 66,
        X64Register::Fp5 => 67,
        X64Register::Fp6 => 68,
        X64Register::Fp7 => 69,
        X64Register::K0 => 70,
        X64Register::K1 => 71,
        X64Register::K2 => 72,
        X64Register::K3 => 73,
        X64Register::K4 => 74,
        X64Register::K5 => 75,
        X64Register::K6 => 76,
        X64Register::K7 => 77,
        X64Register::Mm0 => 78,
        X64Register::Mm1 => 79,
        X64Register::Mm2 => 80,
        X64Register::Mm3 => 81,
        X64Register::Mm4 => 82,
        X64Register::Mm5 => 83,
        X64Register::Mm6 => 84,
        X64Register::Mm7 => 85,
        X64Register::R8 => 86,
        X64Register::R9 => 87,
        X64Register::R10 => 88,
        X64Register::R11 => 89,
        X64Register::R12 => 90,
        X64Register::R13 => 91,
        X64Register::R14 => 92,
        X64Register::R15 => 93,
        X64Register::St0 => 94,
        X64Register::St1 => 95,
        X64Register::St2 => 96,
        X64Register::St3 => 97,
        X64Register::St4 => 98,
        X64Register::St5 => 99,
        X64Register::St6 => 100,
        X64Register::St7 => 101,
        X64Register::Xmm0 => 102,
        X64Register::Xmm1 => 103,
        X64Register::Xmm2 => 104,
        X64Register::Xmm3 => 105,
        X64Register::Xmm4 => 106,
        X64Register::Xmm5 => 107,
        X64Register::Xmm6 => 108,
        X64Register::Xmm7 => 109,
        X64Register::Xmm8 => 110,
        X64Register::Xmm9 => 111,
        X64Register::Xmm10 => 112,
        X64Register::Xmm11 => 113,
        X64Register::Xmm12 => 114,
        X64Register::Xmm13 => 115,
        X64Register::Xmm14 => 116,
        X64Register::Xmm15 => 117,
        X64Register::Xmm16 => 118,
        X64Register::Xmm17 => 119,
        X64Register::Xmm18 => 120,
        X64Register::Xmm19 => 121,
        X64Register::Xmm20 => 122,
        X64Register::Xmm21 => 123,
        X64Register::Xmm22 => 124,
        X64Register::Xmm23 => 125,
        X64Register::Xmm24 => 126,
        X64Register::Xmm25 => 127,
        X64Register::Xmm26 => 128,
        X64Register::Xmm27 => 129,
        X64Register::Xmm28 => 130,
        X64Register::Xmm29 => 131,
        X64Register::Xmm30 => 132,
        X64Register::Xmm31 => 133,
        X64Register::Ymm0 => 134,
        X64Register::Ymm1 => 135,
        X64Register::Ymm2 => 136,
        X64Register::Ymm3 => 137,
        X64Register::Ymm4 => 138,
        X64Register::Ymm5 => 139,
        X64Register::Ymm6 => 140,
        X64Register::Ymm7 => 141,
        X64Register::Ymm8 => 142,
        X64Register::Ymm9 => 143,
        X64Register::Ymm10 => 144,
        X64Register::Ymm11 => 145,
        X64Register::Ymm12 => 146,
        X64Register::Ymm13 => 147,
        X64Register::Ymm14 => 148,
        X64Register::Ymm15 => 149,
        X64Register::Ymm16 => 150,
        X64Register::Ymm17 => 151,
        X64Register::Ymm18 => 152,
        X64Register::Ymm19 => 153,
        X64Register::Ymm20 => 154,
        X64Register::Ymm21 => 155,
        X64Register::Ymm22 => 156,
        X64Register::Ymm23 => 157,
        X64Register::Ymm24 => 158,
        X64Register::Ymm25 => 159,
        X64Register::Ymm26 => 160,
        X64Register::Ymm27 => 161,
        X64Register::Ymm28 => 162,
        X64Register::Ymm29 => 163,
        X64Register::Ymm30 => 164,
        X64Register::Ymm31 => 165,
        X64Register::Zmm0 => 166,
        X64Register::Zmm1 => 167,
        X64Register::Zmm2 => 168,
        X64Register::Zmm3 => 169,
        X64Register::Zmm4 => 170,
        X64Register::Zmm5 => 171,
        X64Register::Zmm6 => 172,
        X64Register::Zmm7 => 173,
        X64Register::Zmm8 => 174,
        X64Register::Zmm9 => 175,
        X64Register::Zmm10 => 176,
        X64Register::Zmm11 => 177,
        X64Register::Zmm12 => 178,
        X64Register::Zmm13 => 179,
        X64Register::Zmm14 => 180,
        X64Register::Zmm15 => 181,
        X64Register::Zmm16 => 182,
        X64Register::Zmm17 => 183,
        X64Register::Zmm18 => 184,
        X64Register::Zmm19 => 185,
        X64Register::Zmm20 => 186,
        X64Register::Zmm21 => 187,
        X64Register::Zmm22 => 188,
        X64Register::Zmm23 => 189,
        X64Register::Zmm24 => 190,
        X64Register::Zmm25 => 191,
        X64Register::Zmm26 => 192,
        X64Register::Zmm27 => 193,
        X64Register::Zmm28 => 194,
        X64Register::Zmm29 => 195,
        X64Register::Zmm30 => 196,
        X64Register::Zmm31 => 197,
        X64Register::R8b => 198,
        X64Register::R9b => 199,
        X64Register::R10b => 200,
        X64Register::R11b => 201,
        X64Register::R12b => 202,
        X64Register::R13b => 203,
        X64Register::R14b => 204,
        X64Register::R15b => 205,
        X64Register::R8d => 206,
        X64Register::R9d => 207,
        X64Register::R10d => 208,
        X64Register::R11d => 209,
        X64Register::R12d => 210,
        X64Register::R13d => 211,
        X64Register::R14d => 212,
        X64Register::R15d => 213,
        X64Register::R8w => 214,
        X64Register::R9w => 215,
        X64Register::R10w => 216,
        X64Register::R11w => 217,
        X64Register::R12w => 218,
        X64Register::R13w => 219,
        X64Register::R14w => 220,
        X64Register::R15w => 221,
        X64Register::Idtr => 222,
        X64Register::Gdtr => 223,
        X64Register::Ldtr => 224,
        X64Register::Tr => 225,
        X64Register::Fpcw => 226,
        X64Register::Fptag => 227,
        X64Register::Msr => 228,
        X64Register::Mxcsr => 229,
        X64Register::FsBase => 230,
        X64Register::GsBase => 231,
        X64Register::Flags => 232,
        X64Register::Rflags => 233,
        X64Register::Fip => 234,
        X64Register::Fcs => 235,
        X64Register::Fdp => 236,
        X64Register::Fds => 237,
        X64Register::Fop => 238,
        X64Register::End => 239,
    }
}

/// Whether a catalog entry resolves to an engine state variable. Reserved
/// entries, `Invalid` and `End` do not.
pub open spec fn spec_resolvable(reg: X64Register) -> bool {
    match reg {
        X64Register::Invalid => false,
        X64Register::Bp => false,
        X64Register::Bx => false,
        X64Register::Di => false,
        X64Register::Eip => false,
        X64Register::Ip => false,
        X64Register::Si => false,
        X64Register::Sil => false,
        X64Register::Sp => false,
        X64Register::Spl => false,
        X64Register::K0 => false,
        X64Register::K1 => false,
        X64Register::K2 => false,
        X64Register::K3 => false,
        X64Register::K4 => false,
        X64Register::K5 => false,
        X64Register::K6 => false,
        X64Register::K7 => false,
        X64Register::Xmm16 => false,
        X64Register::Xmm17 => false,
        X64Register::Xmm18 => false,
        X64Register::Xmm19 => false,
        X64Register::Xmm20 => false,
        X64Register::Xmm21 => false,
        X64Register::Xmm22 => false,
        X64Register::Xmm23 => false,
        X64Register::Xmm24 => false,
        X64Register::Xmm25 => false,
        X64Register::Xmm26 => false,
        X64Register::Xmm27 => false,
        X64Register::Xmm28 => false,
        X64Register::Xmm29 => false,
        X64Register::Xmm30 => false,
        X64Register::Xmm31 => false,
        X64Register::Ymm16 => false,
        X64Register::Ymm17 => false,
        X64Register::Ymm18 => false,
        X64Register::Ymm19 => false,
        X64Register::Ymm20 => false,
        X64Register::Ymm21 => false,
        X64Register::Ymm22 => false,
        X64Register::Ymm23 => false,
        X64Register::Ymm24 => false,
        X64Register::Ymm25 => false,
        X64Register::Ymm26 => false,
        X64Register::Ymm27 => false,
        X64Register::Ymm28 => false,
        X64Register::Ymm29 => false,
        X64Register::Ymm30 => false,
        X64Register::Ymm31 => false,
        X64Register::Zmm0 => false,
        X64Register::Zmm1 => false,
        X64Register::Zmm2 => false,
        X64Register::Zmm3 => false,
        X64Register::Zmm4 => false,
        X64Register::Zmm5 => false,
        X64Register::Zmm6 => false,
        X64Register::Zmm7 => false,
        X64Register::Zmm8 => false,
        X64Register::Zmm9 => false,
        X64Register::Zmm10 => false,
        X64Register::Zmm11 => false,
        X64Register::Zmm12 => false,
        X64Register::Zmm13 => false,
        X64Register::Zmm14 => false,
        X64Register::Zmm15 => false,
        X64Register::Zmm16 => false,
        X64Register::Zmm17 => false,
        X64Register::Zmm18 => false,
        X64Register::Zmm19 => false,
        X64Register::Zmm20 => false,
        X64Register::Zmm21 => false,
        X64Register::Zmm22 => false,
        X64Register::Zmm23 => false,
        X64Register::Zmm24 => false,
        X64Register::Zmm25 => false,
        X64Register::Zmm26 => false,
        X64Register::Zmm27 => false,
        X64Register::Zmm28 => false,
        X64Register::Zmm29 => false,
        X64Register::Zmm30 => false,
        X64Register::Zmm31 => false,
        X64Register::Msr => false,
        X64Register::Fcs => false,
        X64Register::Fds => false,
        X64Register::End => false,
        _ => true,
    }
}

/// The architecture-fixed descriptor name a resolvable entry is looked up
/// under; the empty sequence for reserved entries. Several entries share a
/// name on purpose: they are views of the same underlying storage (for
/// instance the legacy `Fp` bank aliases the `St` bank).
pub open spec fn spec_register_name(reg: X64Register) -> Seq<char> {
    match reg {
        X64Register::Ah => "AH"@,
        X64Register::Al => "AL"@,
        X64Register::Ax => "AX"@,
        X64Register::Bh => "BH"@,
        X64Register::Bl => "BL"@,
        X64Register::Bpl => "BPL"@,
        X64Register::Ch => "CH"@,
        X64Register::Cl => "CL"@,
        X64Register::Cs => "CS"@,
        X64Register::Cx => "CX"@,
        X64Register::Dh => "DH"@,
        X64Register::Dil => "DIL"@,
        X64Register::Dl => "DL"@,
        X64Register::Ds => "DS"@,
        X64Register::Dx => "DX"@,
        X64Register::Eax => "EAX"@,
        X64Register::Ebp => "EBP"@,
        X64Register::Ebx => "EBX"@,
        X64Register::Ecx => "ECX"@,
        X64Register::Edi => "EDI"@,
        X64Register::Edx => "EDX"@,
        X64Register::Eflags => "eflags"@,
        X64Register::Es => "ES"@,
        X64Register::Esi => "ESI"@,
        X64Register::Esp => "ESP"@,
        X64Register::Fpsw => "FPUStatusWord"@,
        X64Register::Fs => "FS"@,
        X64Register::Gs => "GS"@,
        X64Register::Rax => "RAX"@,
        X64Register::Rbp => "RBP"@,
        X64Register::Rbx => "RBX"@,
        X64Register::Rcx => "RCX"@,
        X64Register::Rdi => "RDI"@,
        X64Register::Rdx => "RDX"@,
        X64Register::Rip => "RIP"@,
        X64Register::Rsi => "RSI"@,
        X64Register::Rsp => "RSP"@,
        X64Register::Ss => "SS"@,
        X64Register::Cr0 => "CR0"@,
        X64Register::Cr1 => "CR1"@,
        X64Register::Cr2 => "CR2"@,
        X64Register::Cr3 => "CR3"@,
        X64Register::Cr4 => "CR4"@,
        X64Register::Cr8 => "CR8"@,
        X64Register::Dr0 => "DR0"@,
        X64Register::Dr1 => "DR1"@,
        X64Register::Dr2 => "DR2"@,
        X64Register::Dr3 => "DR3"@,
        X64Register::Dr4 => "DR4"@,
        X64Register::Dr5 => "DR5"@,
        X64Register::Dr6 => "DR6"@,
        X64Register::Dr7 => "DR7"@,
        X64Register::Fp0 => "ST0"@,
        X64Register::Fp1 => "ST1"@,
        X64Register::Fp2 => "ST2"@,
        X64Register::Fp3 => "ST3"@,
        X64Register::Fp4 => "ST4"@,
        X64Register::Fp5 => "ST5"@,
        X64Register::Fp6 => "ST6"@,
        X64Register::Fp7 => "ST7"@,
        X64Register::Mm0 => "MM0"@,
        X64Register::Mm1 => "MM1"@,
        X64Register::Mm2 => "MM2"@,
        X64Register::Mm3 => "MM3"@,
        X64Register::Mm4 => "MM4"@,
        X64Register::Mm5 => "MM5"@,
        X64Register::Mm6 => "MM6"@,
        X64Register::Mm7 => "MM7"@,
        X64Register::R8 => "R8"@,
        X64Register::R9 => "R9"@,
        X64Register::R10 => "R10"@,
        X64Register::R11 => "R11"@,
        X64Register::R12 => "R12"@,
        X64Register::R13 => "R13"@,
        X64Register::R14 => "R14"@,
        X64Register::R15 => "R15"@,
        X64Register::St0 => "ST0"@,
        X64Register::St1 => "ST1"@,
        X64Register::St2 => "ST2"@,
        X64Register::St3 => "ST3"@,
        X64Register::St4 => "ST4"@,
        X64Register::St5 => "ST5"@,
        X64Register::St6 => "ST6"@,
        X64Register::St7 => "ST7"@,
        X64Register::Xmm0 => "XMM0"@,
        X64Register::Xmm1 => "XMM1"@,
        X64Register::Xmm2 => "XMM2"@,
        X64Register::Xmm3 => "XMM3"@,
        X64Register::Xmm4 => "XMM4"@,
        X64Register::Xmm5 => "XMM5"@,
        X64Register::Xmm6 => "XMM6"@,
        X64Register::Xmm7 => "XMM7"@,
        X64Register::Xmm8 => "XMM8"@,
        X64Register::Xmm9 => "XMM9"@,
        X64Register::Xmm10 => "XMM10"@,
        X64Register::Xmm11 => "XMM11"@,
        X64Register::Xmm12 => "XMM12"@,
        X64Register::Xmm13 => "XMM13"@,
        X64Register::Xmm14 => "XMM14"@,
        X64Register::Xmm15 => "XMM15"@,
        X64Register::Ymm0 => "YMM0"@,
        X64Register::Ymm1 => "YMM1"@,
        X64Register::Ymm2 => "YMM2"@,
        X64Register::Ymm3 => "YMM3"@,
        X64Register::Ymm4 => "YMM4"@,
        X64Register::Ymm5 => "YMM5"@,
        X64Register::Ymm6 => "YMM6"@,
        X64Register::Ymm7 => "YMM7"@,
        X64Register::Ymm8 => "YMM8"@,
        X64Register::Ymm9 => "YMM9"@,
        X64Register::Ymm10 => "YMM10"@,
        X64Register::Ymm11 => "YMM11"@,
        X64Register::Ymm12 => "YMM12"@,
        X64Register::Ymm13 => "YMM13"@,
        X64Register::Ymm14 => "YMM14"@,
        X64Register::Ymm15 => "YMM15"@,
        X64Register::R8b => "R8B"@,
        X64Register::R9b => "R9B"@,
        X64Register::R10b => "R10B"@,
        X64Register::R11b => "R11B"@,
        X64Register::R12b => "R12B"@,
        X64Register::R13b => "R13B"@,
        X64Register::R14b => "R14B"@,
        X64Register::R15b => "R15B"@,
        X64Register::R8d => "R8D"@,
        X64Register::R9d => "R9D"@,
        X64Register::R10d => "R10D"@,
        X64Register::R11d => "R11D"@,
        X64Register::R12d => "R12D"@,
        X64Register::R13d => "R13D"@,
        X64Register::R14d => "R14D"@,
        X64Register::R15d => "R15D"@,
        X64Register::R8w => "R8W"@,
        X64Register::R9w => "R9W"@,
        X64Register::R10w => "R10W"@,
        X64Register::R11w => "R11W"@,
        X64Register::R12w => "R12W"@,
        X64Register::R13w => "R13W"@,
        X64Register::R14w => "R14W"@,
        X64Register::R15w => "R15W"@,
        X64Register::Idtr => "IDTR"@,
        X64Register::Gdtr => "GDTR"@,
        X64Register::Ldtr => "LDTR"@,
        X64Register::Tr => "TR"@,
        X64Register::Fpcw => "FPUControlWord"@,
        X64Register::Fptag => "FPUTagWord"@,
        X64Register::Mxcsr => "MXCSR"@,
        X64Register::FsBase => "FS_OFFSET"@,
        X64Register::GsBase => "GS_OFFSET"@,
        X64Register::Flags => "flags"@,
        X64Register::Rflags => "rflags"@,
        X64Register::Fip => "FPUInstructionPointer"@,
        X64Register::Fdp => "FPUDataPointer"@,
        X64Register::Fop => "FPULastInstructionOpcode"@,
        _ => Seq::empty(),
    }
}

/// The descriptor name of a resolvable entry, `None` for a reserved one.
pub fn register_name(reg: X64Register) -> (name: Option<&'static str>)
    ensures
        name is Some <==> spec_resolvable(reg),
        name matches Some(n) ==> n@ == spec_register_name(reg),
{
    match reg {
        X64Register::Ah => Some("AH"),
        X64Register::Al => Some("AL"),
        X64Register::Ax => Some("AX"),
        X64Register::Bh => Some("BH"),
        X64Register::Bl => Some("BL"),
        X64Register::Bpl => Some("BPL"),
        X64Register::Ch => Some("CH"),
        X64Register::Cl => Some("CL"),
        X64Register::Cs => Some("CS"),
        X64Register::Cx => Some("CX"),
        X64Register::Dh => Some("DH"),
        X64Register::Dil => Some("DIL"),
        X64Register::Dl => Some("DL"),
        X64Register::Ds => Some("DS"),
        X64Register::Dx => Some("DX"),
        X64Register::Eax => Some("EAX"),
        X64Register::Ebp => Some("EBP"),
        X64Register::Ebx => Some("EBX"),
        X64Register::Ecx => Some("ECX"),
        X64Register::Edi => Some("EDI"),
        X64Register::Edx => Some("EDX"),
        X64Register::Eflags => Some("eflags"),
        X64Register::Es => Some("ES"),
        X64Register::Esi => Some("ESI"),
        X64Register::Esp => Some("ESP"),
        X64Register::Fpsw => Some("FPUStatusWord"),
        X64Register::Fs => Some("FS"),
        X64Register::Gs => Some("GS"),
        X64Register::Rax => Some("RAX"),
        X64Register::Rbp => Some("RBP"),
        X64Register::Rbx => Some("RBX"),
        X64Register::Rcx => Some("RCX"),
        X64Register::Rdi => Some("RDI"),
        X64Register::Rdx => Some("RDX"),
        X64Register::Rip => Some("RIP"),
        X64Register::Rsi => Some("RSI"),
        X64Register::Rsp => Some("RSP"),
        X64Register::Ss => Some("SS"),
        X64Register::Cr0 => Some("CR0"),
        X64Register::Cr1 => Some("CR1"),
        X64Register::Cr2 => Some("CR2"),
        X64Register::Cr3 => Some("CR3"),
        X64Register::Cr4 => Some("CR4"),
        X64Register::Cr8 => Some("CR8"),
        X64Register::Dr0 => Some("DR0"),
        X64Register::Dr1 => Some("DR1"),
        X64Register::Dr2 => Some("DR2"),
        X64Register::Dr3 => Some("DR3"),
        X64Register::Dr4 => Some("DR4"),
        X64Register::Dr5 => Some("DR5"),
        X64Register::Dr6 => Some("DR6"),
        X64Register::Dr7 => Some("DR7"),
        X64Register::Fp0 => Some("ST0"),
        X64Register::Fp1 => Some("ST1"),
        X64Register::Fp2 => Some("ST2"),
        X64Register::Fp3 => Some("ST3"),
        X64Register::Fp4 => Some("ST4"),
        X64Register::Fp5 => Some("ST5"),
        X64Register::Fp6 => Some("ST6"),
        X64Register::Fp7 => Some("ST7"),
        X64Register::Mm0 => Some("MM0"),
        X64Register::Mm1 => Some("MM1"),
        X64Register::Mm2 => Some("MM2"),
        X64Register::Mm3 => Some("MM3"),
        X64Register::Mm4 => Some("MM4"),
        X64Register::Mm5 => Some("MM5"),
        X64Register::Mm6 => Some("MM6"),
        X64Register::Mm7 => Some("MM7"),
        X64Register::R8 => Some("R8"),
        X64Register::R9 => Some("R9"),
        X64Register::R10 => Some("R10"),
        X64Register::R11 => Some("R11"),
        X64Register::R12 => Some("R12"),
        X64Register::R13 => Some("R13"),
        X64Register::R14 => Some("R14"),
        X64Register::R15 => Some("R15"),
        X64Register::St0 => Some("ST0"),
        X64Register::St1 => Some("ST1"),
        X64Register::St2 => Some("ST2"),
        X64Register::St3 => Some("ST3"),
        X64Register::St4 => Some("ST4"),
        X64Register::St5 => Some("ST5"),
        X64Register::St6 => Some("ST6"),
        X64Register::St7 => Some("ST7"),
        X64Register::Xmm0 => Some("XMM0"),
        X64Register::Xmm1 => Some("XMM1"),
        X64Register::Xmm2 => Some("XMM2"),
        X64Register::Xmm3 => Some("XMM3"),
        X64Register::Xmm4 => Some("XMM4"),
        X64Register::Xmm5 => Some("XMM5"),
        X64Register::Xmm6 => Some("XMM6"),
        X64Register::Xmm7 => Some("XMM7"),
        X64Register::Xmm8 => Some("XMM8"),
        X64Register::Xmm9 => Some("XMM9"),
        X64Register::Xmm10 => Some("XMM10"),
        X64Register::Xmm11 => Some("XMM11"),
        X64Register::Xmm12 => Some("XMM12"),
        X64Register::Xmm13 => Some("XMM13"),
        X64Register::Xmm14 => Some("XMM14"),
        X64Register::Xmm15 => Some("XMM15"),
        X64Register::Ymm0 => Some("YMM0"),
        X64Register::Ymm1 => Some("YMM1"),
        X64Register::Ymm2 => Some("YMM2"),
        X64Register::Ymm3 => Some("YMM3"),
        X64Register::Ymm4 => Some("YMM4"),
        X64Register::Ymm5 => Some("YMM5"),
        X64Register::Ymm6 => Some("YMM6"),
        X64Register::Ymm7 => Some("YMM7"),
        X64Register::Ymm8 => Some("YMM8"),
        X64Register::Ymm9 => Some("YMM9"),
        X64Register::Ymm10 => Some("YMM10"),
        X64Register::Ymm11 => Some("YMM11"),
        X64Register::Ymm12 => Some("YMM12"),
        X64Register::Ymm13 => Some("YMM13"),
        X64Register::Ymm14 => Some("YMM14"),
        X64Register::Ymm15 => Some("YMM15"),
        X64Register::R8b => Some("R8B"),
        X64Register::R9b => Some("R9B"),
        X64Register::R10b => Some("R10B"),
        X64Register::R11b => Some("R11B"),
        X64Register::R12b => Some("R12B"),
        X64Register::R13b => Some("R13B"),
        X64Register::R14b => Some("R14B"),
        X64Register::R15b => Some("R15B"),
        X64Register::R8d => Some("R8D"),
        X64Register::R9d => Some("R9D"),
        X64Register::R10d => Some("R10D"),
        X64Register::R11d => Some("R11D"),
        X64Register::R12d => Some("R12D"),
        X64Register::R13d => Some("R13D"),
        X64Register::R14d => Some("R14D"),
        X64Register::R15d => Some("R15D"),
        X64Register::R8w => Some("R8W"),
        X64Register::R9w => Some("R9W"),
        X64Register::R10w => Some("R10W"),
        X64Register::R11w => Some("R11W"),
        X64Register::R12w => Some("R12W"),
        X64Register::R13w => Some("R13W"),
        X64Register::R14w => Some("R14W"),
        X64Register::R15w => Some("R15W"),
        X64Register::Idtr => Some("IDTR"),
        X64Register::Gdtr => Some("GDTR"),
        X64Register::Ldtr => Some("LDTR"),
        X64Register::Tr => Some("TR"),
        X64Register::Fpcw => Some("FPUControlWord"),
        X64Register::Fptag => Some("FPUTagWord"),
        X64Register::Mxcsr => Some("MXCSR"),
        X64Register::FsBase => Some("FS_OFFSET"),
        X64Register::GsBase => Some("GS_OFFSET"),
        X64Register::Flags => Some("flags"),
        X64Register::Rflags => Some("rflags"),
        X64Register::Fip => Some("FPUInstructionPointer"),
        X64Register::Fdp => Some("FPUDataPointer"),
        X64Register::Fop => Some("FPULastInstructionOpcode"),
        _ => None,
    }
}

fn catalog_part_0() -> (part: Vec<X64Register>)
    ensures
        part@.len() == 15,
        part@[0] == X64Register::Invalid,
        part@[1] == X64Register::Ah,
        part@[2] == X64Register::Al,
        part@[3] == X64Register::Ax,
        part@[4] == X64Register::Bh,
        part@[5] == X64Register::Bl,
        part@[6] == X64Register::Bp,
        part@[7] == X64Register::Bpl,
        part@[8] == X64Register::Bx,
        part@[9] == X64Register::Ch,
        part@[10] == X64Register::Cl,
        part@[11] == X64Register::Cs,
        part@[12] == X64Register::Cx,
        part@[13] == X64Register::Dh,
        part@[14] == X64Register::Di,
{
    let mut part: Vec<X64Register> = Vec::with_capacity(15);
    part.push(X64Register::Invalid);
    part.push(X64Register::Ah);
    part.push(X64Register::Al);
    part.push(X64Register::Ax);
    part.push(X64Register::Bh);
    part.push(X64Register::Bl);
    part.push(X64Register::Bp);
    part.push(X64Register::Bpl);
    part.push(X64Register::Bx);
    part.push(X64Register::Ch);
    part.push(X64Register::Cl);
    part.push(X64Register::Cs);
    part.push(X64Register::Cx);
    part.push(X64Register::Dh);
    part.push(X64Register::Di);
    part
}

fn catalog_part_1() -> (part: Vec<X64Register>)
    ensures
        part@.len() == 15,
        part@[0] == X64Register::Dil,
        part@[1] == X64Register::Dl,
        part@[2] == X64Register::Ds,
        part@[3] == X64Register::Dx,
        part@[4] == X64Register::Eax,
        part@[5] == X64Register::Ebp,
        part@[6] == X64Register::Ebx,
        part@[7] == X64Register::Ecx,
        part@[8] == X64Register::Edi,
        part@[9] == X64Register::Edx,
        part@[10] == X64Register::Eflags,
        part@[11] == X64Register::Eip,
        part@[12] == X64Register::Es,
        part@[13] == X64Register::Esi,
        part@[14] == X64Register::Esp,
{
    let mut part: Vec<X64Register> = Vec::with_capacity(15);
    part.push(X64Register::Dil);
    part.push(X64Register::Dl);
    part.push(X64Register::Ds);
    part.push(X64Register::Dx);
    part.push(X64Register::Eax);
    part.push(X64Register::Ebp);
    part.push(X64Register::Ebx);
    part.push(X64Register::Ecx);
    part.push(X64Register::Edi);
    part.push(X64Register::Edx);
    part.push(X64Register::Eflags);
    part.push(X64Register::Eip);
    part.push(X64Register::Es);
    part.push(X64Register::Esi);
    part.push(X64Register::Esp);
    part
}

fn catalog_part_2() -> (part: Vec<X64Register>)
    ensures
        part@.len() == 15,
        part@[0] == X64Register::Fpsw,
        part@[1] == X64Register::Fs,
        part@[2] == X64Register::Gs,
        part@[3] == X64Register::Ip,
        part@[4] == X64Register::Rax,
        part@[5] == X64Register::Rbp,
        part@[6] == X64Register::Rbx,
        part@[7] == X64Register::Rcx,
        part@[8] == X64Register::Rdi,
        part@[9] == X64Register::Rdx,
        part@[10] == X64Register::Rip,
        part@[11] == X64Register::Rsi,
        part@[12] == X64Register::Rsp,
        part@[13] == X64Register::Si,
        part@[14] == X64Register::Sil,
{
    let mut part: Vec<X64Register> = Vec::with_capacity(15);
    part.push(X64Register::Fpsw);
    part.push(X64Register::Fs);
    part.push(X64Register::Gs);
    part.push(X64Register::Ip);
    part.push(X64Register::Rax);
    part.push(X64Register::Rbp);
    part.push(X64Register::Rbx);
    part.push(X64Register::Rcx);
    part.push(X64Register::Rdi);
    part.push(X64Register::Rdx);
    part.push(X64Register::Rip);
    part.push(X64Register::Rsi);
    part.push(X64Register::Rsp);
    part.push(X64Register::Si);
    part.push(X64Register::Sil);
    part
}

fn catalog_part_3() -> (part: Vec<X64Register>)
    ensures
        part@.len() == 15,
        part@[0] == X64Register::Sp,
        part@[1] == X64Register::Spl,
        part@[2] == X64Register::Ss,
        part@[3] == X64Register::Cr0,
        part@[4] == X64Register::Cr1,
        part@[5] == X64Register::Cr2,
        part@[6] == X64Register::Cr3,
        part@[7] == X64Register::Cr4,
        part@[8] == X64Register::Cr8,
        part@[9] == X64Register::Dr0,
        part@[10] == X64Register::Dr1,
        part@[11] == X64Register::Dr2,
        part@[12] == X64Register::Dr3,
        part@[13] == X64Register::Dr4,
        part@[14] == X64Register::Dr5,
{
    let mut part: Vec<X64Register> = Vec::with_capacity(15);
    part.push(X64Register::Sp);
    part.push(X64Register::Spl);
    part.push(X64Register::Ss);
    part.push(X64Register::Cr0);
    part.push(X64Register::Cr1);
    part.push(X64Register::Cr2);
    part.push(X64Register::Cr3);
    part.push(X64Register::Cr4);
    part.push(X64Register::Cr8);
    part.push(X64Register::Dr0);
    part.push(X64Register::Dr1);
    part.push(X64Register::Dr2);
    part.push(X64Register::Dr3);
    part.push(X64Register::Dr4);
    part.push(X64Register::Dr5);
    part
}

fn catalog_part_4() -> (part: Vec<X64Register>)
    ensures
        part@.len() == 15,
        part@[0] == X64Register::Dr6,
        part@[1] == X64Register::Dr7,
        part@[2] == X64Register::Fp0,
        part@[3] == X64Register::Fp1,
        part@[4] == X64Register::Fp2,
        part@[5] == X64Register::Fp3,
        part@[6] == X64Register::Fp4,
        part@[7] == X64Register::Fp5,
        part@[8] == X64Register::Fp6,
        part@[9] == X64Register::Fp7,
        part@[10] == X64Register::K0,
        part@[11] == X64Register::K1,
        part@[12] == X64Register::K2,
        part@[13] == X64Register::K3,
        part@[14] == X64Register::K4,
{
    let mut part: Vec<X64Register> = Vec::with_capacity(15);
    part.push(X64Register::Dr6);
    part.push(X64Register::Dr7);
    part.push(X64Register::Fp0);
    part.push(X64Register::Fp1);
    part.push(X64Register::Fp2);
    part.push(X64Register::Fp3);
    part.push(X64Register::Fp4);
    part.push(X64Register::Fp5);
    part.push(X64Register::Fp6);
    part.push(X64Register::Fp7);
    part.push(X64Register::K0);
    part.push(X64Register::K1);
    part.push(X64Register::K2);
    part.push(X64Register::K3);
    part.push(X64Register::K4);
    part
}

fn catalog_part_5() -> (part: Vec<X64Register>)
    ensures
        part@.len() == 15,
        part@[0] == X64Register::K5,
        part@[1] == X64Register::K6,
        part@[2] == X64Register::K7,
        part@[3] == X64Register::Mm0,
        part@[4] == X64Register::Mm1,
        part@[5] == X64Register::Mm2,
        part@[6] == X64Register::Mm3,
        part@[7] == X64Register::Mm4,
        part@[8] == X64Register::Mm5,
        part@[9] == X64Register::Mm6,
        part@[10] == X64Register::Mm7,
        part@[11] == X64Register::R8,
        part@[12] == X64Register::R9,
        part@[13] == X64Register::R10,
        part@[14] == X64Register::R11,
{
    let mut part: Vec<X64Register> = Vec::with_capacity(15);
    part.push(X64Register::K5);
    part.push(X64Register::K6);
    part.push(X64Register::K7);
    part.push(X64Register::Mm0);
    part.push(X64Register::Mm1);
    part.push(X64Register::Mm2);
    part.push(X64Register::Mm3);
    part.push(X64Register::Mm4);
    part.push(X64Register::Mm5);
    part.push(X64Register::Mm6);
    part.push(X64Register::Mm7);
    part.push(X64Register::R8);
    part.push(X64Register::R9);
    part.push(X64Register::R10);
    part.push(X64Register::R11);
    part
}

fn catalog_part_6() -> (part: Vec<X64Register>)
    ensures
        part@.len() == 15,
        part@[0] == X64Register::R12,
        part@[1] == X64Register::R13,
        part@[2] == X64Register::R14,
        part@[3] == X64Register::R15,
        part@[4] == X64Register::St0,
        part@[5] == X64Register::St1,
        part@[6] == X64Register::St2,
        part@[7] == X64Register::St3,
        part@[8] == X64Register::St4,
        part@[9] == X64Register::St5,
        part@[10] == X64Register::St6,
        part@[11] == X64Register::St7,
        part@[12] == X64Register::Xmm0,
        part@[13] == X64Register::Xmm1,
        part@[14] == X64Register::Xmm2,
{
    let mut part: Vec<X64Register> = Vec::with_capacity(15);
    part.push(X64Register::R12);
    part.push(X64Register::R13);
    part.push(X64Register::R14);
    part.push(X64Register::R15);
    part.push(X64Register::St0);
    part.push(X64Register::St1);
    part.push(X64Register::St2);
    part.push(X64Register::St3);
    part.push(X64Register::St4);
    part.push(X64Register::St5);
    part.push(X64Register::St6);
    part.push(X64Register::St7);
    part.push(X64Register::Xmm0);
    part.push(X64Register::Xmm1);
    part.push(X64Register::Xmm2);
    part
}

fn catalog_part_7() -> (part: Vec<X64Register>)
    ensures
        part@.len() == 15,
        part@[0] == X64Register::Xmm3,
        part@[1] == X64Register::Xmm4,
        part@[2] == X64Register::Xmm5,
        part@[3] == X64Register::Xmm6,
        part@[4] == X64Register::Xmm7,
        part@[5] == X64Register::Xmm8,
        part@[6] == X64Register::Xmm9,
        part@[7] == X64Register::Xmm10,
        part@[8] == X64Register::Xmm11,
        part@[9] == X64Register::Xmm12,
        part@[10] == X64Register::Xmm13,
        part@[11] == X64Register::Xmm14,
        part@[12] == X64Register::Xmm15,
        part@[13] == X64Register::Xmm16,
        part@[14] == X64Register::Xmm17,
{
    let mut part: Vec<X64Register> = Vec::with_capacity(15);
    part.push(X64Register::Xmm3);
    part.push(X64Register::Xmm4);
    part.push(X64Register::Xmm5);
    part.push(X64Register::Xmm6);
    part.push(X64Register::Xmm7);
    part.push(X64Register::Xmm8);
    part.push(X64Register::Xmm9);
    part.push(X64Register::Xmm10);
    part.push(X64Register::Xmm11);
    part.push(X64Register::Xmm12);
    part.push(X64Register::Xmm13);
    part.push(X64Register::Xmm14);
    part.push(X64Register::Xmm15);
    part.push(X64Register::Xmm16);
    part.push(X64Register::Xmm17);
    part
}

fn catalog_part_8() -> (part: Vec<X64Register>)
    ensures
        part@.len() == 15,
        part@[0] == X64Register::Xmm18,
        part@[1] == X64Register::Xmm19,
        part@[2] == X64Register::Xmm20,
        part@[3] == X64Register::Xmm21,
        part@[4] == X64Register::Xmm22,
        part@[5] == X64Register::Xmm23,
        part@[6] == X64Register::Xmm24,
        part@[7] == X64Register::Xmm25,
        part@[8] == X64Register::Xmm26,
        part@[9] == X64Register::Xmm27,
        part@[10] == X64Register::Xmm28,
        part@[11] == X64Register::Xmm29,
        part@[12] == X64Register::Xmm30,
        part@[13] == X64Register::Xmm31,
        part@[14] == X64Register::Ymm0,
{
    let mut part: Vec<X64Register> = Vec::with_capacity(15);
    part.push(X64Register::Xmm18);
    part.push(X64Register::Xmm19);
    part.push(X64Register::Xmm20);
    part.push(X64Register::Xmm21);
    part.push(X64Register::Xmm22);
    part.push(X64Register::Xmm23);
    part.push(X64Register::Xmm24);
    part.push(X64Register::Xmm25);
    part.push(X64Register::Xmm26);
    part.push(X64Register::Xmm27);
    part.push(X64Register::Xmm28);
    part.push(X64Register::Xmm29);
    part.push(X64Register::Xmm30);
    part.push(X64Register::Xmm31);
    part.push(X64Register::Ymm0);
    part
}

fn catalog_part_9() -> (part: Vec<X64Register>)
    ensures
        part@.len() == 15,
        part@[0] == X64Register::Ymm1,
        part@[1] == X64Register::Ymm2,
        part@[2] == X64Register::Ymm3,
        part@[3] == X64Register::Ymm4,
        part@[4] == X64Register::Ymm5,
        part@[5] == X64Register::Ymm6,
        part@[6] == X64Register::Ymm7,
        part@[7] == X64Register::Ymm8,
        part@[8] == X64Register::Ymm9,
        part@[9] == X64Register::Ymm10,
        part@[10] == X64Register::Ymm11,
        part@[11] == X64Register::Ymm12,
        part@[12] == X64Register::Ymm13,
        part@[13] == X64Register::Ymm14,
        part@[14] == X64Register::Ymm15,
{
    let mut part: Vec<X64Register> = Vec::with_capacity(15);
    part.push(X64Register::Ymm1);
    part.push(X64Register::Ymm2);
    part.push(X64Register::Ymm3);
    part.push(X64Register::Ymm4);
    part.push(X64Register::Ymm5);
    part.push(X64Register::Ymm6);
    part.push(X64Register::Ymm7);
    part.push(X64Register::Ymm8);
    part.push(X64Register::Ymm9);
    part.push(X64Register::Ymm10);
    part.push(X64Register::Ymm11);
    part.push(X64Register::Ymm12);
    part.push(X64Register::Ymm13);
    part.push(X64Register::Ymm14);
    part.push(X64Register::Ymm15);
    part
}

fn catalog_part_10() -> (part: Vec<X64Register>)
    ensures
        part@.len() == 15,
        part@[0] == X64Register::Ymm16,
        part@[1] == X64Register::Ymm17,
        part@[2] == X64Register::Ymm18,
        part@[3] == X64Register::Ymm19,
        part@[4] == X64Register::Ymm20,
        part@[5] == X64Register::Ymm21,
        part@[6] == X64Register::Ymm22,
        part@[7] == X64Register::Ymm23,
        part@[8] == X64Register::Ymm24,
        part@[9] == X64Register::Ymm25,
        part@[10] == X64Register::Ymm26,
        part@[11] == X64Register::Ymm27,
        part@[12] == X64Register::Ymm28,
        part@[13] == X64Register::Ymm29,
        part@[14] == X64Register::Ymm30,
{
    let mut part: Vec<X64Register> = Vec::with_capacity(15);
    part.push(X64Register::Ymm16);
    part.push(X64Register::Ymm17);
    part.push(X64Register::Ymm18);
    part.push(X64Register::Ymm19);
    part.push(X64Register::Ymm20);
    part.push(X64Register::Ymm21);
    part.push(X64Register::Ymm22);
    part.push(X64Register::Ymm23);
    part.push(X64Register::Ymm24);
    part.push(X64Register::Ymm25);
    part.push(X64Register::Ymm26);
    part.push(X64Register::Ymm27);
    part.push(X64Register::Ymm28);
    part.push(X64Register::Ymm29);
    part.push(X64Register::Ymm30);
    part
}

fn catalog_part_11() -> (part: Vec<X64Register>)
    ensures
        part@.len() == 15,
        part@[0] == X64Register::Ymm31,
        part@[1] == X64Register::Zmm0,
        part@[2] == X64Register::Zmm1,
        part@[3] == X64Register::Zmm2,
        part@[4] == X64Register::Zmm3,
        part@[5] == X64Register::Zmm4,
        part@[6] == X64Register::Zmm5,
        part@[7] == X64Register::Zmm6,
        part@[8] == X64Register::Zmm7,
        part@[9] == X64Register::Zmm8,
        part@[10] == X64Register::Zmm9,
        part@[11] == X64Register::Zmm10,
        part@[12] == X64Register::Zmm11,
        part@[13] == X64Register::Zmm12,
        part@[14] == X64Register::Zmm13,
{
    let mut part: Vec<X64Register> = Vec::with_capacity(15);
    part.push(X64Register::Ymm31);
    part.push(X64Register::Zmm0);
    part.push(X64Register::Zmm1);
    part.push(X64Register::Zmm2);
    part.push(X64Register::Zmm3);
    part.push(X64Register::Zmm4);
    part.push(X64Register::Zmm5);
    part.push(X64Register::Zmm6);
    part.push(X64Register::Zmm7);
    part.push(X64Register::Zmm8);
    part.push(X64Register::Zmm9);
    part.push(X64Register::Zmm10);
    part.push(X64Register::Zmm11);
    part.push(X64Register::Zmm12);
    part.push(X64Register::Zmm13);
    part
}

fn catalog_part_12() -> (part: Vec<X64Register>)
    ensures
        part@.len() == 15,
        part@[0] == X64Register::Zmm14,
        part@[1] == X64Register::Zmm15,
        part@[2] == X64Register::Zmm16,
        part@[3] == X64Register::Zmm17,
        part@[4] == X64Register::Zmm18,
        part@[5] == X64Register::Zmm19,
        part@[6] == X64Register::Zmm20,
        part@[7] == X64Register::Zmm21,
        part@[8] == X64Register::Zmm22,
        part@[9] == X64Register::Zmm23,
        part@[10] == X64Register::Zmm24,
        part@[11] == X64Register::Zmm25,
        part@[12] == X64Register::Zmm26,
        part@[13] == X64Register::Zmm27,
        part@[14] == X64Register::Zmm28,
{
    let mut part: Vec<X64Register> = Vec::with_capacity(15);
    part.push(X64Register::Zmm14);
    part.push(X64Register::Zmm15);
    part.push(X64Register::Zmm16);
    part.push(X64Register::Zmm17);
    part.push(X64Register::Zmm18);
    part.push(X64Register::Zmm19);
    part.push(X64Register::Zmm20);
    part.push(X64Register::Zmm21);
    part.push(X64Register::Zmm22);
    part.push(X64Register::Zmm23);
    part.push(X64Register::Zmm24);
    part.push(X64Register::Zmm25);
    part.push(X64Register::Zmm26);
    part.push(X64Register::Zmm27);
    part.push(X64Register::Zmm28);
    part
}

fn catalog_part_13() -> (part: Vec<X64Register>)
    ensures
        part@.len() == 15,
        part@[0] == X64Register::Zmm29,
        part@[1] == X64Register::Zmm30,
        part@[2] == X64Register::Zmm31,
        part@[3] == X64Register::R8b,
        part@[4] == X64Register::R9b,
        part@[5] == X64Register::R10b,
        part@[6] == X64Register::R11b,
        part@[7] == X64Register::R12b,
        part@[8] == X64Register::R13b,
        part@[9] == X64Register::R14b,
        part@[10] == X64Register::R15b,
        part@[11] == X64Register::R8d,
        part@[12] == X64Register::R9d,
        part@[13] == X64Register::R10d,
        part@[14] == X64Register::R11d,
{
    let mut part: Vec<X64Register> = Vec::with_capacity(15);
    part.push(X64Register::Zmm29);
    part.push(X64Register::Zmm30);
    part.push(X64Register::Zmm31);
    part.push(X64Register::R8b);
    part.push(X64Register::R9b);
    part.push(X64Register::R10b);
    part.push(X64Register::R11b);
    part.push(X64Register::R12b);
    part.push(X64Register::R13b);
    part.push(X64Register::R14b);
    part.push(X64Register::R15b);
    part.push(X64Register::R8d);
    part.push(X64Register::R9d);
    part.push(X64Register::R10d);
    part.push(X64Register::R11d);
    part
}

fn catalog_part_14() -> (part: Vec<X64Register>)
    ensures
        part@.len() == 15,
        part@[0] == X64Register::R12d,
        part@[1] == X64Register::R13d,
        part@[2] == X64Register::R14d,
        part@[3] == X64Register::R15d,
        part@[4] == X64Register::R8w,
        part@[5] == X64Register::R9w,
        part@[6] == X64Register::R10w,
        part@[7] == X64Register::R11w,
        part@[8] == X64Register::R12w,
        part@[9] == X64Register::R13w,
        part@[10] == X64Register::R14w,
        part@[11] == X64Register::R15w,
        part@[12] == X64Register::Idtr,
        part@[13] == X64Register::Gdtr,
        part@[14] == X64Register::Ldtr,
{
    let mut part: Vec<X64Register> = Vec::with_capacity(15);
    part.push(X64Register::R12d);
    part.push(X64Register::R13d);
    part.push(X64Register::R14d);
    part.push(X64Register::R15d);
    part.push(X64Register::R8w);
    part.push(X64Register::R9w);
    part.push(X64Register::R10w);
    part.push(X64Register::R11w);
    part.push(X64Register::R12w);
    part.push(X64Register::R13w);
    part.push(X64Register::R14w);
    part.push(X64Register::R15w);
    part.push(X64Register::Idtr);
    part.push(X64Register::Gdtr);
    part.push(X64Register::Ldtr);
    part
}

fn catalog_part_15() -> (part: Vec<X64Register>)
    ensures
        part@.len() == 15,
        part@[0] == X64Register::Tr,
        part@[1] == X64Register::Fpcw,
        part@[2] == X64Register::Fptag,
        part@[3] == X64Register::Msr,
        part@[4] == X64Register::Mxcsr,
        part@[5] == X64Register::FsBase,
        part@[6] == X64Register::GsBase,
        part@[7] == X64Register::Flags,
        part@[8] == X64Register::Rflags,
        part@[9] == X64Register::Fip,
        part@[10] == X64Register::Fcs,
        part@[11] == X64Register::Fdp,
        part@[12] == X64Register::Fds,
        part@[13] == X64Register::Fop,
        part@[14] == X64Register::End,
{
    let mut part: Vec<X64Register> = Vec::with_capacity(15);
    part.push(X64Register::Tr);
    part.push(X64Register::Fpcw);
    part.push(X64Register::Fptag);
    part.push(X64Register::Msr);
    part.push(X64Register::Mxcsr);
    part.push(X64Register::FsBase);
    part.push(X64Register::GsBase);
    part.push(X64Register::Flags);
    part.push(X64Register::Rflags);
    part.push(X64Register::Fip);
    part.push(X64Register::Fcs);
    part.push(X64Register::Fdp);
    part.push(X64Register::Fds);
    part.push(X64Register::Fop);
    part.push(X64Register::End);
    part
}

/// Every catalog entry, in declaration order: the entry at position
/// `spec_reg_index(reg)` is `reg`, so one walk visits the whole catalog.
#[verifier::rlimit(60)]
pub fn catalog() -> (regs: Vec<X64Register>)
    ensures
        regs@.len() == REGISTER_COUNT,
        forall|reg: X64Register| 0 <= #[trigger] spec_reg_index(reg) < REGISTER_COUNT,
        forall|reg: X64Register| regs@[spec_reg_index(reg)] == reg,
{
    let mut regs = catalog_part_0();
    let mut part_1 = catalog_part_1();
    regs.append(&mut part_1);
    let mut part_2 = catalog_part_2();
    regs.append(&mut part_2);
    let mut part_3 = catalog_part_3();
    regs.append(&mut part_3);
    let mut part_4 = catalog_part_4();
    regs.append(&mut part_4);
    let mut part_5 = catalog_part_5();
    regs.append(&mut part_5);
    let mut part_6 = catalog_part_6();
    regs.append(&mut part_6);
    let mut part_7 = catalog_part_7();
    regs.append(&mut part_7);
    let mut part_8 = catalog_part_8();
    regs.append(&mut part_8);
    let mut part_9 = catalog_part_9();
    regs.append(&mut part_9);
    let mut part_10 = catalog_part_10();
    regs.append(&mut part_10);
    let mut part_11 = catalog_part_11();
    regs.append(&mut part_11);
    let mut part_12 = catalog_part_12();
    regs.append(&mut part_12);
    let mut part_13 = catalog_part_13();
    regs.append(&mut part_13);
    let mut part_14 = catalog_part_14();
    regs.append(&mut part_14);
    let mut part_15 = catalog_part_15();
    regs.append(&mut part_15);
    proof {
        assert forall|reg: X64Register| 0 <= #[trigger] spec_reg_index(reg) < REGISTER_COUNT by {}
        assert forall|reg: X64Register| regs@[spec_reg_index(reg)] == reg by {
            match reg {
                X64Register::Invalid => assert(regs@[0] == X64Register::Invalid),
                X64Register::Ah => assert(regs@[1] == X64Register::Ah),
                X64Register::Al => assert(regs@[2] == X64Register::Al),
                X64Register::Ax => assert(regs@[3] == X64Register::Ax),
                X64Register::Bh => assert(regs@[4] == X64Register::Bh),
                X64Register::Bl => assert(regs@[5] == X64Register::Bl),
                X64Register::Bp => assert(regs@[6] == X64Register::Bp),
                X64Register::Bpl => assert(regs@[7] == X64Register::Bpl),
                X64Register::Bx => assert(regs@[8] == X64Register::Bx),
                X64Register::Ch => assert(regs@[9] == X64Register::Ch),
                X64Register::Cl => assert(regs@[10] == X64Register::Cl),
                X64Register::Cs => assert(regs@[11] == X64Register::Cs),
                X64Register::Cx => assert(regs@[12] == X64Register::Cx),
                X64Register::Dh => assert(regs@[13] == X64Register::Dh),
                X64Register::Di => assert(regs@[14] == X64Register::Di),
                X64Register::Dil => assert(regs@[15] == X64Register::Dil),
                X64Register::Dl => assert(regs@[16] == X64Register::Dl),
                X64Register::Ds => assert(regs@[17] == X64Register::Ds),
                X64Register::Dx => assert(regs@[18] == X64Register::Dx),
                X64Register::Eax => assert(regs@[19] == X64Register::Eax),
                X64Register::Ebp => assert(regs@[20] == X64Register::Ebp),
                X64Register::Ebx => assert(regs@[21] == X64Register::Ebx),
                X64Register::Ecx => assert(regs@[22] == X64Register::Ecx),
                X64Register::Edi => assert(regs@[23] == X64Register::Edi),
                X64Register::Edx => assert(regs@[24] == X64Register::Edx),
                X64Register::Eflags => assert(regs@[25] == X64Register::Eflags),
                X64Register::Eip => assert(regs@[26] == X64Register::Eip),
                X64Register::Es => assert(regs@[27] == X64Register::Es),
                X64Register::Esi => assert(regs@[28] == X64Register::Esi),
                X64Register::Esp => assert(regs@[29] == X64Register::Esp),
                X64Register::Fpsw => assert(regs@[30] == X64Register::Fpsw),
                X64Register::Fs => assert(regs@[31] == X64Register::Fs),
                X64Register::Gs => assert(regs@[32] == X64Register::Gs),
                X64Register::Ip => assert(regs@[33] == X64Register::Ip),
                X64Register::Rax => assert(regs@[34] == X64Register::Rax),
                X64Register::Rbp => assert(regs@[35] == X64Register::Rbp),
                X64Register::Rbx => assert(regs@[36] == X64Register::Rbx),
                X64Register::Rcx => assert(regs@[37] == X64Register::Rcx),
                X64Register::Rdi => assert(regs@[38] == X64Register::Rdi),
                X64Register::Rdx => assert(regs@[39] == X64Register::Rdx),
                X64Register::Rip => assert(regs@[40] == X64Register::Rip),
                X64Register::Rsi => assert(regs@[41] == X64Register::Rsi),
                X64Register::Rsp => assert(regs@[42] == X64Register::Rsp),
                X64Register::Si => assert(regs@[43] == X64Register::Si),
                X64Register::Sil => assert(regs@[44] == X64Register::Sil),
                X64Register::Sp => assert(regs@[45] == X64Register::Sp),
                X64Register::Spl => assert(regs@[46] == X64Register::Spl),
                X64Register::Ss => assert(regs@[47] == X64Register::Ss),
                X64Register::Cr0 => assert(regs@[48] == X64Register::Cr0),
                X64Register::Cr1 => assert(regs@[49] == X64Register::Cr1),
                X64Register::Cr2 => assert(regs@[50] == X64Register::Cr2),
                X64Register::Cr3 => assert(regs@[51] == X64Register::Cr3),
                X64Register::Cr4 => assert(regs@[52] == X64Register::Cr4),
                X64Register::Cr8 => assert(regs@[53] == X64Register::Cr8),
                X64Register::Dr0 => assert(regs@[54] == X64Register::Dr0),
                X64Register::Dr1 => assert(regs@[55] == X64Register::Dr1),
                X64Register::Dr2 => assert(regs@[56] == X64Register::Dr2),
                X64Register::Dr3 => assert(regs@[57] == X64Register::Dr3),
                X64Register::Dr4 => assert(regs@[58] == X64Register::Dr4),
                X64Register::Dr5 => assert(regs@[59] == X64Register::Dr5),
                X64Register::Dr6 => assert(regs@[60] == X64Register::Dr6),
                X64Register::Dr7 => assert(regs@[61] == X64Register::Dr7),
                X64Register::Fp0 => assert(regs@[62] == X64Register::Fp0),
                X64Register::Fp1 => assert(regs@[63] == X64Register::Fp1),
                X64Register::Fp2 => assert(regs@[64] == X64Register::Fp2),
                X64Register::Fp3 => assert(regs@[65] == X64Register::Fp3),
                X64Register::Fp4 => assert(regs@[66] == X64Register::Fp4),
                X64Register::Fp5 => assert(regs@[67] == X64Register::Fp5),
                X64Register::Fp6 => assert(regs@[68] == X64Register::Fp6),
                X64Register::Fp7 => assert(regs@[69] == X64Register::Fp7),
                X64Register::K0 => assert(regs@[70] == X64Register::K0),
                X64Register::K1 => assert(regs@[71] == X64Register::K1),
                X64Register::K2 => assert(regs@[72] == X64Register::K2),
                X64Register::K3 => assert(regs@[73] == X64Register::K3),
                X64Register::K4 => assert(regs@[74] == X64Register::K4),
                X64Register::K5 => assert(regs@[75] == X64Register::K5),
                X64Register::K6 => assert(regs@[76] == X64Register::K6),
                X64Register::K7 => assert(regs@[77] == X64Register::K7),
                X64Register::Mm0 => assert(regs@[78] == X64Register::Mm0),
                X64Register::Mm1 => assert(regs@[79] == X64Register::Mm1),
                X64Register::Mm2 => assert(regs@[80] == X64Register::Mm2),
                X64Register::Mm3 => assert(regs@[81] == X64Register::Mm3),
                X64Register::Mm4 => assert(regs@[82] == X64Register::Mm4),
                X64Register::Mm5 => assert(regs@[83] == X64Register::Mm5),
                X64Register::Mm6 => assert(regs@[84] == X64Register::Mm6),
                X64Register::Mm7 => assert(regs@[85] == X64Register::Mm7),
                X64Register::R8 => assert(regs@[86] == X64Register::R8),
                X64Register::R9 => assert(regs@[87] == X64Register::R9),
                X64Register::R10 => assert(regs@[88] == X64Register::R10),
                X64Register::R11 => assert(regs@[89] == X64Register::R11),
                X64Register::R12 => assert(regs@[90] == X64Register::R12),
                X64Register::R13 => assert(regs@[91] == X64Register::R13),
                X64Register::R14 => assert(regs@[92] == X64Register::R14),
                X64Register::R15 => assert(regs@[93] == X64Register::R15),
                X64Register::St0 => assert(regs@[94] == X64Register::St0),
                X64Register::St1 => assert(regs@[95] == X64Register::St1),
                X64Register::St2 => assert(regs@[96] == X64Register::St2),
                X64Register::St3 => assert(regs@[97] == X64Register::St3),
                X64Register::St4 => assert(regs@[98] == X64Register::St4),
                X64Register::St5 => assert(regs@[99] == X64Register::St5),
                X64Register::St6 => assert(regs@[100] == X64Register::St6),
                X64Register::St7 => assert(regs@[101] == X64Register::St7),
                X64Register::Xmm0 => assert(regs@[102] == X64Register::Xmm0),
                X64Register::Xmm1 => assert(regs@[103] == X64Register::Xmm1),
                X64Register::Xmm2 => assert(regs@[104] == X64Register::Xmm2),
                X64Register::Xmm3 => assert(regs@[105] == X64Register::Xmm3),
                X64Register::Xmm4 => assert(regs@[106] == X64Register::Xmm4),
                X64Register::Xmm5 => assert(regs@[107] == X64Register::Xmm5),
                X64Register::Xmm6 => assert(regs@[108] == X64Register::Xmm6),
                X64Register::Xmm7 => assert(regs@[109] == X64Register::Xmm7),
                X64Register::Xmm8 => assert(regs@[110] == X64Register::Xmm8),
                X64Register::Xmm9 => assert(regs@[111] == X64Register::Xmm9),
                X64Register::Xmm10 => assert(regs@[112] == X64Register::Xmm10),
                X64Register::Xmm11 => assert(regs@[113] == X64Register::Xmm11),
                X64Register::Xmm12 => assert(regs@[114] == X64Register::Xmm12),
                X64Register::Xmm13 => assert(regs@[115] == X64Register::Xmm13),
                X64Register::Xmm14 => assert(regs@[116] == X64Register::Xmm14),
                X64Register::Xmm15 => assert(regs@[117] == X64Register::Xmm15),
                X64Register::Xmm16 => assert(regs@[118] == X64Register::Xmm16),
                X64Register::Xmm17 => assert(regs@[119] == X64Register::Xmm17),
                X64Register::Xmm18 => assert(regs@[120] == X64Register::Xmm18),
                X64Register::Xmm19 => assert(regs@[121] == X64Register::Xmm19),
                X64Register::Xmm20 => assert(regs@[122] == X64Register::Xmm20),
                X64Register::Xmm21 => assert(regs@[123] == X64Register::Xmm21),
                X64Register::Xmm22 => assert(regs@[124] == X64Register::Xmm22),
                X64Register::Xmm23 => assert(regs@[125] == X64Register::Xmm23),
                X64Register::Xmm24 => assert(regs@[126] == X64Register::Xmm24),
                X64Register::Xmm25 => assert(regs@[127] == X64Register::Xmm25),
                X64Register::Xmm26 => assert(regs@[128] == X64Register::Xmm26),
                X64Register::Xmm27 => assert(regs@[129] == X64Register::Xmm27),
                X64Register::Xmm28 => assert(regs@[130] == X64Register::Xmm28),
                X64Register::Xmm29 => assert(regs@[131] == X64Register::Xmm29),
                X64Register::Xmm30 => assert(regs@[132] == X64Register::Xmm30),
                X64Register::Xmm31 => assert(regs@[133] == X64Register::Xmm31),
                X64Register::Ymm0 => assert(regs@[134] == X64Register::Ymm0),
                X64Register::Ymm1 => assert(regs@[135] == X64Register::Ymm1),
                X64Register::Ymm2 => assert(regs@[136] == X64Register::Ymm2),
                X64Register::Ymm3 => assert(regs@[137] == X64Register::Ymm3),
                X64Register::Ymm4 => assert(regs@[138] == X64Register::Ymm4),
                X64Register::Ymm5 => assert(regs@[139] == X64Register::Ymm5),
                X64Register::Ymm6 => assert(regs@[140] == X64Register::Ymm6),
                X64Register::Ymm7 => assert(regs@[141] == X64Register::Ymm7),
                X64Register::Ymm8 => assert(regs@[142] == X64Register::Ymm8),
                X64Register::Ymm9 => assert(regs@[143] == X64Register::Ymm9),
                X64Register::Ymm10 => assert(regs@[144] == X64Register::Ymm10),
                X64Register::Ymm11 => assert(regs@[145] == X64Register::Ymm11),
                X64Register::Ymm12 => assert(regs@[146] == X64Register::Ymm12),
                X64Register::Ymm13 => assert(regs@[147] == X64Register::Ymm13),
                X64Register::Ymm14 => assert(regs@[148] == X64Register::Ymm14),
                X64Register::Ymm15 => assert(regs@[149] == X64Register::Ymm15),
                X64Register::Ymm16 => assert(regs@[150] == X64Register::Ymm16),
                X64Register::Ymm17 => assert(regs@[151] == X64Register::Ymm17),
                X64Register::Ymm18 => assert(regs@[152] == X64Register::Ymm18),
                X64Register::Ymm19 => assert(regs@[153] == X64Register::Ymm19),
                X64Register::Ymm20 => assert(regs@[154] == X64Register::Ymm20),
                X64Register::Ymm21 => assert(regs@[155] == X64Register::Ymm21),
                X64Register::Ymm22 => assert(regs@[156] == X64Register::Ymm22),
                X64Register::Ymm23 => assert(regs@[157] == X64Register::Ymm23),
                X64Register::Ymm24 => assert(regs@[158] == X64Register::Ymm24),
                X64Register::Ymm25 => assert(regs@[159] == X64Register::Ymm25),
                X64Register::Ymm26 => assert(regs@[160] == X64Register::Ymm26),
                X64Register::Ymm27 => assert(regs@[161] == X64Register::Ymm27),
                X64Register::Ymm28 => assert(regs@[162] == X64Register::Ymm28),
                X64Register::Ymm29 => assert(regs@[163] == X64Register::Ymm29),
                X64Register::Ymm30 => assert(regs@[164] == X64Register::Ymm30),
                X64Register::Ymm31 => assert(regs@[165] == X64Register::Ymm31),
                X64Register::Zmm0 => assert(regs@[166] == X64Register::Zmm0),
                X64Register::Zmm1 => assert(regs@[167] == X64Register::Zmm1),
                X64Register::Zmm2 => assert(regs@[168] == X64Register::Zmm2),
                X64Register::Zmm3 => assert(regs@[169] == X64Register::Zmm3),
                X64Register::Zmm4 => assert(regs@[170] == X64Register::Zmm4),
                X64Register::Zmm5 => assert(regs@[171] == X64Register::Zmm5),
                X64Register::Zmm6 => assert(regs@[172] == X64Register::Zmm6),
                X64Register::Zmm7 => assert(regs@[173] == X64Register::Zmm7),
                X64Register::Zmm8 => assert(regs@[174] == X64Register::Zmm8),
                X64Register::Zmm9 => assert(regs@[175] == X64Register::Zmm9),
                X64Register::Zmm10 => assert(regs@[176] == X64Register::Zmm10),
                X64Register::Zmm11 => assert(regs@[177] == X64Register::Zmm11),
                X64Register::Zmm12 => assert(regs@[178] == X64Register::Zmm12),
                X64Register::Zmm13 => assert(regs@[179] == X64Register::Zmm13),
                X64Register::Zmm14 => assert(regs@[180] == X64Register::Zmm14),
                X64Register::Zmm15 => assert(regs@[181] == X64Register::Zmm15),
                X64Register::Zmm16 => assert(regs@[182] == X64Register::Zmm16),
                X64Register::Zmm17 => assert(regs@[183] == X64Register::Zmm17),
                X64Register::Zmm18 => assert(regs@[184] == X64Register::Zmm18),
                X64Register::Zmm19 => assert(regs@[185] == X64Register::Zmm19),
                X64Register::Zmm20 => assert(regs@[186] == X64Register::Zmm20),
                X64Register::Zmm21 => assert(regs@[187] == X64Register::Zmm21),
                X64Register::Zmm22 => assert(regs@[188] == X64Register::Zmm22),
                X64Register::Zmm23 => assert(regs@[189] == X64Register::Zmm23),
                X64Register::Zmm24 => assert(regs@[190] == X64Register::Zmm24),
                X64Register::Zmm25 => assert(regs@[191] == X64Register::Zmm25),
                X64Register::Zmm26 => assert(regs@[192] == X64Register::Zmm26),
                X64Register::Zmm27 => assert(regs@[193] == X64Register::Zmm27),
                X64Register::Zmm28 => assert(regs@[194] == X64Register::Zmm28),
                X64Register::Zmm29 => assert(regs@[195] == X64Register::Zmm29),
                X64Register::Zmm30 => assert(regs@[196] == X64Register::Zmm30),
                X64Register::Zmm31 => assert(regs@[197] == X64Register::Zmm31),
                X64Register::R8b => assert(regs@[198] == X64Register::R8b),
                X64Register::R9b => assert(regs@[199] == X64Register::R9b),
                X64Register::R10b => assert(regs@[200] == X64Register::R10b),
                X64Register::R11b => assert(regs@[201] == X64Register::R11b),
                X64Register::R12b => assert(regs@[202] == X64Register::R12b),
                X64Register::R13b => assert(regs@[203] == X64Register::R13b),
                X64Register::R14b => assert(regs@[204] == X64Register::R14b),
                X64Register::R15b => assert(regs@[205] == X64Register::R15b),
                X64Register::R8d => assert(regs@[206] == X64Register::R8d),
                X64Register::R9d => assert(regs@[207] == X64Register::R9d),
                X64Register::R10d => assert(regs@[208] == X64Register::R10d),
                X64Register::R11d => assert(regs@[209] == X64Register::R11d),
                X64Register::R12d => assert(regs@[210] == X64Register::R12d),
                X64Register::R13d => assert(regs@[211] == X64Register::R13d),
                X64Register::R14d => assert(regs@[212] == X64Register::R14d),
                X64Register::R15d => assert(regs@[213] == X64Register::R15d),
                X64Register::R8w => assert(regs@[214] == X64Register::R8w),
                X64Register::R9w => assert(regs@[215] == X64Register::R9w),
                X64Register::R10w => assert(regs@[216] == X64Register::R10w),
                X64Register::R11w => assert(regs@[217] == X64Register::R11w),
                X64Register::R12w => assert(regs@[218] == X64Register::R12w),
                X64Register::R13w => assert(regs@[219] == X64Register::R13w),
                X64Register::R14w => assert(regs@[220] == X64Register::R14w),
                X64Register::R15w => assert(regs@[221] == X64Register::R15w),
                X64Register::Idtr => assert(regs@[222] == X64Register::Idtr),
                X64Register::Gdtr => assert(regs@[223] == X64Register::Gdtr),
                X64Register::Ldtr => assert(regs@[224] == X64Register::Ldtr),
                X64Register::Tr => assert(regs@[225] == X64Register::Tr),
                X64Register::Fpcw => assert(regs@[226] == X64Register::Fpcw),
                X64Register::Fptag => assert(regs@[227] == X64Register::Fptag),
                X64Register::Msr => assert(regs@[228] == X64Register::Msr),
                X64Register::Mxcsr => assert(regs@[229] == X64Register::Mxcsr),
                X64Register::FsBase => assert(regs@[230] == X64Register::FsBase),
                X64Register::GsBase => assert(regs@[231] == X64Register::GsBase),
                X64Register::Flags => assert(regs@[232] == X64Register::Flags),
                X64Register::Rflags => assert(regs@[233] == X64Register::Rflags),
                X64Register::Fip => assert(regs@[234] == X64Register::Fip),
                X64Register::Fcs => assert(regs@[235] == X64Register::Fcs),
                X64Register::Fdp => assert(regs@[236] == X64Register::Fdp),
                X64Register::Fds => assert(regs@[237] == X64Register::Fds),
                X64Register::Fop => assert(regs@[238] == X64Register::Fop),
                X64Register::End => assert(regs@[239] == X64Register::End),
            }
        }
    }
    regs
}

} // verus!
