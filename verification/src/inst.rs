//! Decoding of RV64I (and a subset of RV64M) instruction words into typed
//! operations.
//!
//! Immediate fields are composed from their scattered encoding bits by
//! disjoint shifts and ors, then sign-extended to the semantic width of the
//! format.

use vstd::prelude::*;
use crate::regid::RegID;

verus! {

/// All supported instructions. Compressed encodings are expanded at
/// parsing. Floating-point instructions are not supported and decode to
/// illegal markers.
#[derive(Debug, Copy, Clone, PartialEq, Eq, Structural)]
pub enum InstCode {
    // R-type: rd, rs1, rs2
    Add(RegID, RegID, RegID),
    Mul(RegID, RegID, RegID),
    Sub(RegID, RegID, RegID),
    Sll(RegID, RegID, RegID),
    Mulh(RegID, RegID, RegID),
    Slt(RegID, RegID, RegID),
    Sltu(RegID, RegID, RegID),
    Xor(RegID, RegID, RegID),
    Div(RegID, RegID, RegID),
    Srl(RegID, RegID, RegID),
    Sra(RegID, RegID, RegID),
    Or(RegID, RegID, RegID),
    Rem(RegID, RegID, RegID),
    And(RegID, RegID, RegID),
    Addw(RegID, RegID, RegID),
    Subw(RegID, RegID, RegID),
    Mulw(RegID, RegID, RegID),
    Divw(RegID, RegID, RegID),
    Sllw(RegID, RegID, RegID),
    Srlw(RegID, RegID, RegID),
    Sraw(RegID, RegID, RegID),
    Remw(RegID, RegID, RegID),
    // I-type: rd, rs1, imm
    Lb(RegID, RegID, i16),
    Lbu(RegID, RegID, i16),
    Lh(RegID, RegID, i16),
    Lhu(RegID, RegID, i16),
    Lw(RegID, RegID, i16),
    Lwu(RegID, RegID, i16),
    Ld(RegID, RegID, i16),
    Addi(RegID, RegID, i16),
    Slli(RegID, RegID, i16),
    Slliw(RegID, RegID, i16),
    Slti(RegID, RegID, i16),
    Sltiu(RegID, RegID, i16),
    Xori(RegID, RegID, i16),
    Srli(RegID, RegID, i16),
    Srliw(RegID, RegID, i16),
    Srai(RegID, RegID, i16),
    Sraiw(RegID, RegID, i16),
    Ori(RegID, RegID, i16),
    Andi(RegID, RegID, i16),
    Addiw(RegID, RegID, i16),
    Jalr(RegID, RegID, i16),
    Ecall,
    // S-type: rs1, rs2, imm
    Sb(RegID, RegID, i16),
    Sh(RegID, RegID, i16),
    Sw(RegID, RegID, i16),
    Sd(RegID, RegID, i16),
    // SB-type: rs1, rs2, imm
    Beq(RegID, RegID, i16),
    Bne(RegID, RegID, i16),
    Blt(RegID, RegID, i16),
    Bge(RegID, RegID, i16),
    Bltu(RegID, RegID, i16),
    Bgeu(RegID, RegID, i16),
    // U-type: rd, imm (upper 20 bits)
    Auipc(RegID, i32),
    Lui(RegID, i32),
    // UJ-type: rd, imm (21-bit signed offset)
    Jal(RegID, i32),
    // Recognized but not simulated:
    Fence(u8, u8),
    FenceI,
    Csrrw(RegID, RegID, u16),
    Csrrs(RegID, RegID, u16),
    Csrrc(RegID, RegID, u16),
    Csrrwi(RegID, u16, u8),
    Csrrsi(RegID, u16, u8),
    Csrrci(RegID, u16, u8),
    Ebreak,
    Uret,
    Sret,
    Mret,
    Wfi,
    SfenceVma(RegID, RegID),
    // Invalid
    IllegalCf(u16),
    IllegalProlonged,
    Unknown(u32),
    UnknownC(u16),
    // Pseudo: rdq, rdr, rs1, rs2
    DivRem(RegID, RegID, RegID, RegID),
}

/// The discrete phases an instruction transits.
#[derive(Debug, Clone, PartialEq, Eq, Copy, Structural)]
pub enum Stage {
    Fetch,
    Decode,
    Execute,
    Memory,
    Writeback,
}

/// Sign extension of an `i16` holding a value whose upper `bits` bits are
/// garbage: the bit below them is replicated upward.
pub open spec fn spec_sign_extend_i16(value: i16, bits: usize) -> i16 {
    if bits >= 16 {
        0i16
    } else {
        (value << bits) >> bits
    }
}

/// Sign extension of an `i32`, as for `spec_sign_extend_i16`.
pub open spec fn spec_sign_extend_i32(value: i32, bits: usize) -> i32 {
    if bits >= 32 {
        0i32
    } else {
        (value << bits) >> bits
    }
}

/// Relies on quark's `Signs::sign_extend` for `i16`: fills the upper
/// `bits` bits of the value with the next bit down (`v << bits >> bits`,
/// or 0 when `bits` covers the whole width).
#[verifier::external_body]
fn sign_extend_i16(value: i16, bits: usize) -> (r: i16)
    ensures
        r == spec_sign_extend_i16(value, bits),
{
    quark::Signs::sign_extend(&value, bits)
}

/// Relies on quark's `Signs::sign_extend` for `i32`, as for
/// `sign_extend_i16`.
#[verifier::external_body]
fn sign_extend_i32(value: i32, bits: usize) -> (r: i32)
    ensures
        r == spec_sign_extend_i32(value, bits),
{
    quark::Signs::sign_extend(&value, bits)
}

impl InstCode {
    /// The decoding of the pair of halfwords: the operation and its length
    /// in bits (16 for compressed, 32 otherwise).
    pub open spec fn spec_parse(first: u16, second: u16) -> (InstCode, usize) {
        if (first & 0b11111) == 0b11111 {
            (InstCode::IllegalProlonged, 32)
        } else if (first & 0b11) != 0b11 {
            (InstCode::spec_parse_compressed(first), 16)
        } else {
            let raw = ((second as u32) << 16) | (first as u32);
            let opcode = raw & 0b1111111;
            if opcode == 0x33 || opcode == 0x3B {
                (InstCode::spec_parse_normal_r(raw), 32)
            } else if opcode == 0x3 || opcode == 0x13 || opcode == 0x1B || opcode == 0x67
                || opcode == 0x73 {
                (InstCode::spec_parse_normal_i(raw), 32)
            } else if opcode == 0x23 {
                (InstCode::spec_parse_normal_s(raw), 32)
            } else if opcode == 0x63 {
                (InstCode::spec_parse_normal_sb(raw), 32)
            } else if opcode == 0x17 || opcode == 0x37 {
                (InstCode::spec_parse_normal_u(raw), 32)
            } else if opcode == 0x6f {
                (InstCode::spec_parse_normal_uj(raw), 32)
            } else if opcode == 0x0f {
                let func3 = (raw >> 12) & 0b111;
                let succ = ((raw >> 20) & 0b1111) as u8;
                let pred = ((raw >> 24) & 0b1111) as u8;
                if func3 == 0 {
                    (InstCode::Fence(pred, succ), 32)
                } else if func3 == 1 && pred == 0 && succ == 0 {
                    (InstCode::FenceI, 32)
                } else {
                    (InstCode::Unknown(raw), 32)
                }
            } else {
                (InstCode::Unknown(raw), 32)
            }
        }
    }

    /// Decoding of a compressed (16-bit) word.
    pub open spec fn spec_parse_compressed(raw: u16) -> InstCode {
        let opcode = raw & 0b11;
        let func3 = raw >> 13;
        let rd = (((raw >> 2) & 0b111) | 8) as u8;
        if opcode == 0 && func3 == 0 {
            let imm = (raw >> 5) & 0b11111111;
            let nzuimm = (((imm >> 2) & 0b1111) << 6) | ((imm >> 6) << 4) | ((imm & 0b10) << 1)
                | ((imm & 0b1) << 3);
            InstCode::Addi(RegID::spec_decode(rd), RegID::X2, nzuimm as i16)
        } else if opcode == 0 && func3 == 1 {
            InstCode::IllegalCf(raw)
        } else if opcode == 0 && func3 == 2 {
            let rs1 = (((raw >> 7) & 0b111) | 8) as u8;
            let uimm = (((raw >> 10) & 0b111) << 3) | (((raw >> 5) & 0b1) << 6) | (((raw >> 6)
                & 0b1) << 2);
            InstCode::Lw(RegID::spec_decode(rd), RegID::spec_decode(rs1), uimm as i16)
        } else if opcode == 0 && func3 == 3 {
            let rs1 = (((raw >> 7) & 0b111) | 8) as u8;
            let uimm = (((raw >> 10) & 0b111) << 3) | (((raw >> 5) & 0b11) << 6);
            InstCode::Ld(RegID::spec_decode(rd), RegID::spec_decode(rs1), uimm as i16)
        } else if opcode == 0 && func3 == 5 {
            InstCode::IllegalCf(raw)
        } else if opcode == 0 && func3 == 6 {
            let rs1 = (((raw >> 7) & 0b111) | 8) as u8;
            let uimm = (((raw >> 10) & 0b111) << 3) | (((raw >> 5) & 0b1) << 6) | (((raw >> 6)
                & 0b1) << 2);
            InstCode::Sw(RegID::spec_decode(rs1), RegID::spec_decode(rd), uimm as i16)
        } else if opcode == 0 && func3 == 7 {
            let rs1 = (((raw >> 7) & 0b111) | 8) as u8;
            let uimm = (((raw >> 10) & 0b111) << 3) | (((raw >> 5) & 0b11) << 6);
            InstCode::Sd(RegID::spec_decode(rs1), RegID::spec_decode(rd), uimm as i16)
        } else if opcode == 1 && func3 == 0 && raw == 1 {
            InstCode::Addi(RegID::X0, RegID::X0, 0i16)
        } else if opcode == 1 && func3 == 0 {
            let rs1 = ((raw >> 7) & 0b11111) as u8;
            let nzimm = spec_sign_extend_i16(
                (((raw >> 2) & 0b11111) | (((raw >> 12) & 0b1) << 5)) as i16,
                10,
            );
            InstCode::Addi(RegID::spec_decode(rs1), RegID::spec_decode(rs1), nzimm)
        } else if opcode == 1 && func3 == 1 {
            let rs1 = ((raw >> 7) & 0b11111) as u8;
            let nzimm = spec_sign_extend_i16(
                (((raw >> 2) & 0b11111) | (((raw >> 12) & 0b1) << 5)) as i16,
                10,
            );
            InstCode::Addiw(RegID::spec_decode(rs1), RegID::spec_decode(rs1), nzimm)
        } else if opcode == 1 && func3 == 2 {
            let rdf = ((raw >> 7) & 0b11111) as u8;
            let imm = spec_sign_extend_i16(
                (((raw >> 2) & 0b11111) | (((raw >> 12) & 0b1) << 5)) as i16,
                10,
            );
            InstCode::Addi(RegID::spec_decode(rdf), RegID::X0, imm)
        } else {
            InstCode::UnknownC(raw)
        }
    }

    /// Decoding of an R-type word (opcode 0x33 or 0x3B).
    pub open spec fn spec_parse_normal_r(raw: u32) -> InstCode {
        let opcode = raw & 0b1111111;
        let rd = RegID::spec_decode(((raw >> 7) & 0b11111) as u8);
        let func3 = (raw >> 12) & 0b111;
        let rs1 = RegID::spec_decode(((raw >> 15) & 0b11111) as u8);
        let rs2 = RegID::spec_decode(((raw >> 20) & 0b11111) as u8);
        let func7 = (raw >> 25) & 0b1111111;
        if opcode == 0x33 {
            if func3 == 0 && func7 == 0x00 {
                InstCode::Add(rd, rs1, rs2)
            } else if func3 == 0 && func7 == 0x01 {
                InstCode::Mul(rd, rs1, rs2)
            } else if func3 == 0 && func7 == 0x20 {
                InstCode::Sub(rd, rs1, rs2)
            } else if func3 == 1 && func7 == 0x00 {
                InstCode::Sll(rd, rs1, rs2)
            } else if func3 == 1 && func7 == 0x01 {
                InstCode::Mulh(rd, rs1, rs2)
            } else if func3 == 2 && func7 == 0x00 {
                InstCode::Slt(rd, rs1, rs2)
            } else if func3 == 3 && func7 == 0x00 {
                InstCode::Sltu(rd, rs1, rs2)
            } else if func3 == 4 && func7 == 0x00 {
                InstCode::Xor(rd, rs1, rs2)
            } else if func3 == 4 && func7 == 0x01 {
                InstCode::Div(rd, rs1, rs2)
            } else if func3 == 5 && func7 == 0x00 {
                InstCode::Srl(rd, rs1, rs2)
            } else if func3 == 5 && func7 == 0x20 {
                InstCode::Sra(rd, rs1, rs2)
            } else if func3 == 6 && func7 == 0x00 {
                InstCode::Or(rd, rs1, rs2)
            } else if func3 == 6 && func7 == 0x01 {
                InstCode::Rem(rd, rs1, rs2)
            } else if func3 == 7 && func7 == 0x00 {
                InstCode::And(rd, rs1, rs2)
            } else {
                InstCode::Unknown(raw)
            }
        } else {
            if func3 == 0 && func7 == 0x00 {
                InstCode::Addw(rd, rs1, rs2)
            } else if func3 == 0 && func7 == 0x20 {
                InstCode::Subw(rd, rs1, rs2)
            } else if func3 == 0 && func7 == 0x01 {
                InstCode::Mulw(rd, rs1, rs2)
            } else if func3 == 1 && func7 == 0x00 {
                InstCode::Sllw(rd, rs1, rs2)
            } else if func3 == 5 && func7 == 0x00 {
                InstCode::Srlw(rd, rs1, rs2)
            } else if func3 == 5 && func7 == 0x20 {
                InstCode::Sraw(rd, rs1, rs2)
            } else if func3 == 4 && func7 == 0x01 {
                InstCode::Divw(rd, rs1, rs2)
            } else if func3 == 6 && func7 == 0x01 {
                InstCode::Remw(rd, rs1, rs2)
            } else {
                InstCode::Unknown(raw)
            }
        }
    }

    /// Decoding of an I-type word (opcodes 0x03, 0x13, 0x1B, 0x67, 0x73).
    pub open spec fn spec_parse_normal_i(raw: u32) -> InstCode {
        let opcode = raw & 0b1111111;
        let rd = RegID::spec_decode(((raw >> 7) & 0b11111) as u8);
        let func3 = (raw >> 12) & 0b111;
        let rs1 = RegID::spec_decode(((raw >> 15) & 0b11111) as u8);
        let imm = spec_sign_extend_i16((raw >> 20) as i16, 4);
        let csr = (raw >> 20) as u16;
        if opcode == 0x03 {
            if func3 == 0 {
                InstCode::Lb(rd, rs1, imm)
            } else if func3 == 1 {
                InstCode::Lh(rd, rs1, imm)
            } else if func3 == 2 {
                InstCode::Lw(rd, rs1, imm)
            } else if func3 == 3 {
                InstCode::Ld(rd, rs1, imm)
            } else if func3 == 4 {
                InstCode::Lbu(rd, rs1, imm)
            } else if func3 == 5 {
                InstCode::Lhu(rd, rs1, imm)
            } else if func3 == 6 {
                InstCode::Lwu(rd, rs1, imm)
            } else {
                InstCode::Unknown(raw)
            }
        } else if opcode == 0x13 {
            if func3 == 0 {
                InstCode::Addi(rd, rs1, imm)
            } else if func3 == 1 && (imm & 0b111111000000) == 0 {
                InstCode::Slli(rd, rs1, imm)
            } else if func3 == 2 {
                InstCode::Slti(rd, rs1, imm)
            } else if func3 == 3 {
                InstCode::Sltiu(rd, rs1, imm)
            } else if func3 == 4 {
                InstCode::Xori(rd, rs1, imm)
            } else if func3 == 5 && (imm & 0b111111000000) == 0 {
                InstCode::Srli(rd, rs1, imm)
            } else if func3 == 5 && (imm & 0b111111000000) == 0b010000000000 {
                InstCode::Srai(rd, rs1, imm)
            } else if func3 == 6 {
                InstCode::Ori(rd, rs1, imm)
            } else if func3 == 7 {
                InstCode::Andi(rd, rs1, imm)
            } else {
                InstCode::Unknown(raw)
            }
        } else if opcode == 0x1B {
            if func3 == 0 {
                InstCode::Addiw(rd, rs1, imm)
            } else if func3 == 1 && (imm & 0b111111100000) == 0 {
                InstCode::Slliw(rd, rs1, imm)
            } else if func3 == 5 && (imm & 0b111111100000) == 0 {
                InstCode::Srliw(rd, rs1, imm)
            } else if func3 == 5 && (imm & 0b111111100000) == 0b010000000000 {
                InstCode::Sraiw(rd, rs1, imm)
            } else {
                InstCode::Unknown(raw)
            }
        } else if opcode == 0x67 {
            if func3 == 0 {
                InstCode::Jalr(rd, rs1, imm)
            } else {
                InstCode::Unknown(raw)
            }
        } else {
            if func3 == 0 {
                if imm == 0 {
                    InstCode::Ecall
                } else if imm == 1 {
                    InstCode::Ebreak
                } else if imm == 2 {
                    InstCode::Uret
                } else if imm == 0x102 {
                    InstCode::Sret
                } else if imm == 0x302 {
                    InstCode::Mret
                } else if imm == 0x105 {
                    InstCode::Wfi
                } else if (imm & 0b111111100000) == 0b000100100000 {
                    let rs2 = RegID::spec_decode(((raw >> 20) & 0b11111) as u8);
                    InstCode::SfenceVma(rs1, rs2)
                } else {
                    InstCode::Unknown(raw)
                }
            } else if func3 == 1 {
                InstCode::Csrrw(rd, rs1, csr)
            } else if func3 == 2 {
                InstCode::Csrrs(rd, rs1, csr)
            } else if func3 == 3 {
                InstCode::Csrrc(rd, rs1, csr)
            } else if func3 == 5 {
                InstCode::Csrrwi(rd, csr, ((raw >> 15) & 0b11111) as u8)
            } else if func3 == 6 {
                InstCode::Csrrsi(rd, csr, ((raw >> 15) & 0b11111) as u8)
            } else if func3 == 7 {
                InstCode::Csrrci(rd, csr, ((raw >> 15) & 0b11111) as u8)
            } else {
                InstCode::Unknown(raw)
            }
        }
    }

    /// Decoding of an S-type word (opcode 0x23).
    pub open spec fn spec_parse_normal_s(raw: u32) -> InstCode {
        let func3 = (raw >> 12) & 0b111;
        let rs1 = RegID::spec_decode(((raw >> 15) & 0b11111) as u8);
        let rs2 = RegID::spec_decode(((raw >> 20) & 0b11111) as u8);
        let imm1 = ((raw >> 7) & 0b11111) as u16;
        let imm2 = ((raw >> 25) & 0b1111111) as u16;
        let imm = spec_sign_extend_i16(((imm2 << 5) | imm1) as i16, 4);
        if func3 == 0 {
            InstCode::Sb(rs1, rs2, imm)
        } else if func3 == 1 {
            InstCode::Sh(rs1, rs2, imm)
        } else if func3 == 2 {
            InstCode::Sw(rs1, rs2, imm)
        } else if func3 == 3 {
            InstCode::Sd(rs1, rs2, imm)
        } else {
            InstCode::Unknown(raw)
        }
    }

    /// Decoding of an SB-type (branch) word (opcode 0x63).
    pub open spec fn spec_parse_normal_sb(raw: u32) -> InstCode {
        let func3 = (raw >> 12) & 0b111;
        let rs1 = RegID::spec_decode(((raw >> 15) & 0b11111) as u8);
        let rs2 = RegID::spec_decode(((raw >> 20) & 0b11111) as u8);
        let imm1 = ((raw >> 8) & 0b1111) as u16;
        let imm2 = ((raw >> 25) & 0b111111) as u16;
        let imm3 = ((raw >> 7) & 0b1) as u16;
        let imm4 = (raw >> 31) as u16;
        let imm = spec_sign_extend_i16(
            ((imm4 << 12) | (imm3 << 11) | (imm2 << 5) | (imm1 << 1)) as i16,
            3,
        );
        if func3 == 0 {
            InstCode::Beq(rs1, rs2, imm)
        } else if func3 == 1 {
            InstCode::Bne(rs1, rs2, imm)
        } else if func3 == 4 {
            InstCode::Blt(rs1, rs2, imm)
        } else if func3 == 5 {
            InstCode::Bge(rs1, rs2, imm)
        } else if func3 == 6 {
            InstCode::Bltu(rs1, rs2, imm)
        } else if func3 == 7 {
            InstCode::Bgeu(rs1, rs2, imm)
        } else {
            InstCode::Unknown(raw)
        }
    }

    /// Decoding of a U-type word (opcode 0x17 or 0x37).
    pub open spec fn spec_parse_normal_u(raw: u32) -> InstCode {
        let opcode = raw & 0b1111111;
        let rd = RegID::spec_decode(((raw >> 7) & 0b11111) as u8);
        let imm = (raw & 0xFFFFF000) as i32;
        if opcode == 0x17 {
            InstCode::Auipc(rd, imm)
        } else {
            InstCode::Lui(rd, imm)
        }
    }

    /// Decoding of a UJ-type word (opcode 0x6f).
    pub open spec fn spec_parse_normal_uj(raw: u32) -> InstCode {
        let rd = RegID::spec_decode(((raw >> 7) & 0b11111) as u8);
        let imm1 = (raw >> 21) & 0b1111111111;
        let imm2 = (raw >> 20) & 0b1;
        let imm3 = (raw >> 12) & 0b11111111;
        let imm4 = (raw >> 31) & 0b1;
        let imm = spec_sign_extend_i32(
            ((imm4 << 20) | (imm3 << 12) | (imm2 << 11) | (imm1 << 1)) as i32,
            11,
        );
        InstCode::Jal(rd, imm)
    }

    /// Parse the instruction encoded by the two halfwords at the fetch
    /// address (`first` the lower, `second` the upper). Returns the
    /// operation and its encoded length in bits.
    pub fn parse(first: u16, second: u16) -> (r: (InstCode, usize))
        ensures
            r == InstCode::spec_parse(first, second),
    {
        let is_compressed = (first & 0b11) != 0b11;
        let is_prolonged = (first & 0b11111) == 0b11111;
        if is_prolonged {
            return (InstCode::IllegalProlonged, 32);
        }
        if is_compressed {
            (InstCode::parse_compressed(first), 16)
        } else {
            let raw = ((second as u32) << 16) | (first as u32);
            let opcode = raw & 0b1111111;
            match opcode {
                0x33 | 0x3B => (InstCode::parse_normal_r(raw), 32),
                0x3 | 0x13 | 0x1B | 0x67 | 0x73 => (InstCode::parse_normal_i(raw), 32),
                0x23 => (InstCode::parse_normal_s(raw), 32),
                0x63 => (InstCode::parse_normal_sb(raw), 32),
                0x17 | 0x37 => (InstCode::parse_normal_u(raw), 32),
                0x6f => (InstCode::parse_normal_uj(raw), 32),
                0x0f => {
                    let func3 = (raw >> 12) & 0b111;
                    let succ = ((raw >> 20) & 0b1111) as u8;
                    let pred = ((raw >> 24) & 0b1111) as u8;
                    match func3 {
                        0 => (InstCode::Fence(pred, succ), 32),
                        1 if pred == 0 && succ == 0 => (InstCode::FenceI, 32),
                        _ => (InstCode::Unknown(raw), 32),
                    }
                },
                _ => (InstCode::Unknown(raw), 32),
            }
        }
    }

    /// Parse a compressed instruction, expanding the supported forms to
    /// their uncompressed equivalents.
    fn parse_compressed(raw: u16) -> (r: InstCode)
        ensures
            r == InstCode::spec_parse_compressed(raw),
    {
        let opcode = raw & 0b11;
        let func3 = raw >> 13;
        // Compressed register code
        let rd = (((raw >> 2) & 0b111) | 8) as u8;

        match (opcode, func3) {
            // c.addi4spn <==> addi rd', x2, nzuimm
            (0, 0) => {
                let imm = (raw >> 5) & 0b11111111;
                let nzuimm = (((imm >> 2) & 0b1111) << 6) | ((imm >> 6) << 4) | ((imm & 0b10)
                    << 1) | ((imm & 0b1) << 3);
                InstCode::Addi(RegID::decode(rd), RegID::X2, nzuimm as i16)
            },
            // c.fld not supported
            (0, 1) => InstCode::IllegalCf(raw),
            // c.lw <==> lw rd', offset[6:2](rs1')
            (0, 2) => {
                let rs1 = (((raw >> 7) & 0b111) | 8) as u8;
                let uimm = (((raw >> 10) & 0b111) << 3) | (((raw >> 5) & 0b1) << 6) | (((raw
                    >> 6) & 0b1) << 2);
                InstCode::Lw(RegID::decode(rd), RegID::decode(rs1), uimm as i16)
            },
            // c.ld <==> ld rd', offset[7:3](rs1')
            (0, 3) => {
                let rs1 = (((raw >> 7) & 0b111) | 8) as u8;
                let uimm = (((raw >> 10) & 0b111) << 3) | (((raw >> 5) & 0b11) << 6);
                InstCode::Ld(RegID::decode(rd), RegID::decode(rs1), uimm as i16)
            },
            // c.fsd not supported
            (0, 5) => InstCode::IllegalCf(raw),
            // c.sw <==> sw rs2', offset[6:2](rs1')
            (0, 6) => {
                let rs1 = (((raw >> 7) & 0b111) | 8) as u8;
                let uimm = (((raw >> 10) & 0b111) << 3) | (((raw >> 5) & 0b1) << 6) | (((raw
                    >> 6) & 0b1) << 2);
                InstCode::Sw(RegID::decode(rs1), RegID::decode(rd), uimm as i16)
            },
            // c.sd <==> sd rs2', offset[7:3](rs1')
            (0, 7) => {
                let rs1 = (((raw >> 7) & 0b111) | 8) as u8;
                let uimm = (((raw >> 10) & 0b111) << 3) | (((raw >> 5) & 0b11) << 6);
                InstCode::Sd(RegID::decode(rs1), RegID::decode(rd), uimm as i16)
            },
            // c.nop <==> addi x0, x0, 0
            (1, 0) if raw == 1 => InstCode::Addi(RegID::X0, RegID::X0, 0),
            // c.addi <==> addi rs1, rs1, nzimm[5:0]
            (1, 0) => {
                let rs1 = ((raw >> 7) & 0b11111) as u8;
                let nzimm = sign_extend_i16(
                    (((raw >> 2) & 0b11111) | (((raw >> 12) & 0b1) << 5)) as i16,
                    10,
                );
                InstCode::Addi(RegID::decode(rs1), RegID::decode(rs1), nzimm)
            },
            // c.addiw <==> addiw rd, rd, imm[5:0]
            (1, 1) => {
                let rs1 = ((raw >> 7) & 0b11111) as u8;
                let nzimm = sign_extend_i16(
                    (((raw >> 2) & 0b11111) | (((raw >> 12) & 0b1) << 5)) as i16,
                    10,
                );
                InstCode::Addiw(RegID::decode(rs1), RegID::decode(rs1), nzimm)
            },
            // c.li <==> addi rd, x0, imm[5:0]
            (1, 2) => {
                let rdf = ((raw >> 7) & 0b11111) as u8;
                let imm = sign_extend_i16(
                    (((raw >> 2) & 0b11111) | (((raw >> 12) & 0b1) << 5)) as i16,
                    10,
                );
                InstCode::Addi(RegID::decode(rdf), RegID::X0, imm)
            },
            _ => InstCode::UnknownC(raw),
        }
    }

    /// Parse an R-type instruction.
    fn parse_normal_r(raw: u32) -> (r: InstCode)
        requires
            (raw & 0b1111111) == 0x33 || (raw & 0b1111111) == 0x3B,
        ensures
            r == InstCode::spec_parse_normal_r(raw),
    {
        let opcode = raw & 0b1111111;
        let rd = RegID::decode(((raw >> 7) & 0b11111) as u8);
        let func3 = (raw >> 12) & 0b111;
        let rs1 = RegID::decode(((raw >> 15) & 0b11111) as u8);
        let rs2 = RegID::decode(((raw >> 20) & 0b11111) as u8);
        let func7 = (raw >> 25) & 0b1111111;

        if opcode == 0x33 {
            match (func3, func7) {
                (0, 0x00) => InstCode::Add(rd, rs1, rs2),
                (0, 0x01) => InstCode::Mul(rd, rs1, rs2),
                (0, 0x20) => InstCode::Sub(rd, rs1, rs2),
                (1, 0x00) => InstCode::Sll(rd, rs1, rs2),
                (1, 0x01) => InstCode::Mulh(rd, rs1, rs2),
                (2, 0x00) => InstCode::Slt(rd, rs1, rs2),
                (3, 0x00) => InstCode::Sltu(rd, rs1, rs2),
                (4, 0x00) => InstCode::Xor(rd, rs1, rs2),
                (4, 0x01) => InstCode::Div(rd, rs1, rs2),
                (5, 0x00) => InstCode::Srl(rd, rs1, rs2),
                (5, 0x20) => InstCode::Sra(rd, rs1, rs2),
                (6, 0x00) => InstCode::Or(rd, rs1, rs2),
                (6, 0x01) => InstCode::Rem(rd, rs1, rs2),
                (7, 0x00) => InstCode::And(rd, rs1, rs2),
                _ => InstCode::Unknown(raw),
            }
        } else {
            match (func3, func7) {
                (0, 0x00) => InstCode::Addw(rd, rs1, rs2),
                (0, 0x20) => InstCode::Subw(rd, rs1, rs2),
                (0, 0x01) => InstCode::Mulw(rd, rs1, rs2),
                (1, 0x00) => InstCode::Sllw(rd, rs1, rs2),
                (5, 0x00) => InstCode::Srlw(rd, rs1, rs2),
                (5, 0x20) => InstCode::Sraw(rd, rs1, rs2),
                (4, 0x01) => InstCode::Divw(rd, rs1, rs2),
                (6, 0x01) => InstCode::Remw(rd, rs1, rs2),
                _ => InstCode::Unknown(raw),
            }
        }
    }

    /// Parse an I-type instruction.
    fn parse_normal_i(raw: u32) -> (r: InstCode)
        requires
            (raw & 0b1111111) == 0x3 || (raw & 0b1111111) == 0x13 || (raw & 0b1111111) == 0x1B
                || (raw & 0b1111111) == 0x67 || (raw & 0b1111111) == 0x73,
        ensures
            r == InstCode::spec_parse_normal_i(raw),
    {
        let opcode = raw & 0b1111111;
        let rd = RegID::decode(((raw >> 7) & 0b11111) as u8);
        let func3 = (raw >> 12) & 0b111;
        let rs1 = RegID::decode(((raw >> 15) & 0b11111) as u8);
        let imm = sign_extend_i16((raw >> 20) as i16, 4);
        let csr = (raw >> 20) as u16;

        if opcode == 0x03 {
            match func3 {
                0 => InstCode::Lb(rd, rs1, imm),
                1 => InstCode::Lh(rd, rs1, imm),
                2 => InstCode::Lw(rd, rs1, imm),
                3 => InstCode::Ld(rd, rs1, imm),
                4 => InstCode::Lbu(rd, rs1, imm),
                5 => InstCode::Lhu(rd, rs1, imm),
                6 => InstCode::Lwu(rd, rs1, imm),
                _ => InstCode::Unknown(raw),
            }
        } else if opcode == 0x13 {
            match func3 {
                0 => InstCode::Addi(rd, rs1, imm),
                1 if (imm & 0b111111000000) == 0 => InstCode::Slli(rd, rs1, imm),
                2 => InstCode::Slti(rd, rs1, imm),
                3 => InstCode::Sltiu(rd, rs1, imm),
                4 => InstCode::Xori(rd, rs1, imm),
                5 if (imm & 0b111111000000) == 0 => InstCode::Srli(rd, rs1, imm),
                5 if (imm & 0b111111000000) == 0b010000000000 => InstCode::Srai(rd, rs1, imm),
                6 => InstCode::Ori(rd, rs1, imm),
                7 => InstCode::Andi(rd, rs1, imm),
                _ => InstCode::Unknown(raw),
            }
        } else if opcode == 0x1B {
            match func3 {
                0 => InstCode::Addiw(rd, rs1, imm),
                1 if (imm & 0b111111100000) == 0 => InstCode::Slliw(rd, rs1, imm),
                5 if (imm & 0b111111100000) == 0 => InstCode::Srliw(rd, rs1, imm),
                5 if (imm & 0b111111100000) == 0b010000000000 => InstCode::Sraiw(rd, rs1, imm),
                _ => InstCode::Unknown(raw),
            }
        } else if opcode == 0x67 {
            match func3 {
                0 => InstCode::Jalr(rd, rs1, imm),
                _ => InstCode::Unknown(raw),
            }
        } else {
            match func3 {
                0 => {
                    match imm {
                        0 => InstCode::Ecall,
                        1 => InstCode::Ebreak,
                        2 => InstCode::Uret,
                        0x102 => InstCode::Sret,
                        0x302 => InstCode::Mret,
                        0x105 => InstCode::Wfi,
                        _ => {
                            if (imm & 0b111111100000) == 0b000100100000 {
                                let rs2 = RegID::decode(((raw >> 20) & 0b11111) as u8);
                                InstCode::SfenceVma(rs1, rs2)
                            } else {
                                InstCode::Unknown(raw)
                            }
                        },
                    }
                },
                1 => InstCode::Csrrw(rd, rs1, csr),
                2 => InstCode::Csrrs(rd, rs1, csr),
                3 => InstCode::Csrrc(rd, rs1, csr),
                5 => InstCode::Csrrwi(rd, csr, ((raw >> 15) & 0b11111) as u8),
                6 => InstCode::Csrrsi(rd, csr, ((raw >> 15) & 0b11111) as u8),
                7 => InstCode::Csrrci(rd, csr, ((raw >> 15) & 0b11111) as u8),
                _ => InstCode::Unknown(raw),
            }
        }
    }

    /// Parse an S-type instruction.
    fn parse_normal_s(raw: u32) -> (r: InstCode)
        requires
            (raw & 0b1111111) == 0x23,
        ensures
            r == InstCode::spec_parse_normal_s(raw),
    {
        let func3 = (raw >> 12) & 0b111;
        let rs1 = RegID::decode(((raw >> 15) & 0b11111) as u8);
        let rs2 = RegID::decode(((raw >> 20) & 0b11111) as u8);

        let imm1 = ((raw >> 7) & 0b11111) as u16;
        let imm2 = ((raw >> 25) & 0b1111111) as u16;
        let imm = sign_extend_i16(((imm2 << 5) | imm1) as i16, 4);

        match func3 {
            0 => InstCode::Sb(rs1, rs2, imm),
            1 => InstCode::Sh(rs1, rs2, imm),
            2 => InstCode::Sw(rs1, rs2, imm),
            3 => InstCode::Sd(rs1, rs2, imm),
            _ => InstCode::Unknown(raw),
        }
    }

    /// Parse an SB-type instruction.
    fn parse_normal_sb(raw: u32) -> (r: InstCode)
        requires
            (raw & 0b1111111) == 0x63,
        ensures
            r == InstCode::spec_parse_normal_sb(raw),
    {
        let func3 = (raw >> 12) & 0b111;
        let rs1 = RegID::decode(((raw >> 15) & 0b11111) as u8);
        let rs2 = RegID::decode(((raw >> 20) & 0b11111) as u8);

        let imm1 = ((raw >> 8) & 0b1111) as u16;
        let imm2 = ((raw >> 25) & 0b111111) as u16;
        let imm3 = ((raw >> 7) & 0b1) as u16;
        let imm4 = (raw >> 31) as u16;
        // The encoding forces the low offset bit to zero.
        let imm = sign_extend_i16(((imm4 << 12) | (imm3 << 11) | (imm2 << 5) | (imm1 << 1)) as i16, 3);

        match func3 {
            0 => InstCode::Beq(rs1, rs2, imm),
            1 => InstCode::Bne(rs1, rs2, imm),
            4 => InstCode::Blt(rs1, rs2, imm),
            5 => InstCode::Bge(rs1, rs2, imm),
            6 => InstCode::Bltu(rs1, rs2, imm),
            7 => InstCode::Bgeu(rs1, rs2, imm),
            _ => InstCode::Unknown(raw),
        }
    }

    /// Parse a U-type instruction.
    fn parse_normal_u(raw: u32) -> (r: InstCode)
        requires
            (raw & 0b1111111) == 0x17 || (raw & 0b1111111) == 0x37,
        ensures
            r == InstCode::spec_parse_normal_u(raw),
    {
        let opcode = raw & 0b1111111;
        let rd = RegID::decode(((raw >> 7) & 0b11111) as u8);
        let imm = (raw & 0xFFFFF000) as i32;

        if opcode == 0x17 {
            InstCode::Auipc(rd, imm)
        } else {
            InstCode::Lui(rd, imm)
        }
    }

    /// Parse a UJ-type instruction.
    fn parse_normal_uj(raw: u32) -> (r: InstCode)
        requires
            (raw & 0b1111111) == 0x6f,
        ensures
            r == InstCode::spec_parse_normal_uj(raw),
    {
        let rd = RegID::decode(((raw >> 7) & 0b11111) as u8);
        let imm1 = (raw >> 21) & 0b1111111111;
        let imm2 = (raw >> 20) & 0b1;
        let imm3 = (raw >> 12) & 0b11111111;
        let imm4 = (raw >> 31) & 0b1;
        let imm = sign_extend_i32(((imm4 << 20) | (imm3 << 12) | (imm2 << 11) | (imm1 << 1)) as i32, 11);

        InstCode::Jal(rd, imm)
    }
}

} // verus!
