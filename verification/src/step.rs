//! The per-instruction stage machine: one `advance` call carries one
//! in-flight instruction through one cycle of Fetch, Decode, Execute,
//! Memory or Writeback, with bit-exact integer semantics.
//!
//! Every stage has a total specification function over the machine view;
//! `advance` is proved to return exactly what the specification says and to
//! leave the program in exactly the specified state. The drivers build on
//! this to run whole programs deterministically.

use vstd::prelude::*;
use crate::HLT_ADDR;
use crate::inst::InstCode;
use crate::inst::Stage;
use crate::program::MachineView;
use crate::program::Program;
use crate::program::spec_mem_load;
use crate::program::spec_mem_store;
use crate::regid::RegID;
use crate::register::Register;
use crate::register::regs_forward;
use crate::register::regs_lock;
use crate::register::regs_read;
use crate::register::regs_unlock;
use crate::register::regs_write;
use vstd::bytes::spec_u16_from_le_bytes;
use vstd::bytes::spec_u32_from_le_bytes;
use vstd::bytes::spec_u64_from_le_bytes;
use vstd::bytes::spec_u64_to_le_bytes;
use vstd::bytes::u16_from_le_bytes;
use vstd::bytes::u32_from_le_bytes;
use vstd::bytes::u64_from_le_bytes;
use vstd::bytes::u64_to_le_bytes;

verus! {

/// An in-flight instruction: the decoded operation plus the intermediate
/// values it carries between stages.
#[derive(Debug, Clone, Copy)]
pub struct Inst {
    pub code: InstCode,
    pub pc: u64,
    pub next_pc: u64,
    pub stage: Stage,
    /// Cycles spent in the current stage (for multi-cycle execution).
    pub progress: usize,
    /// Value read from rs1.
    pub val1: u64,
    /// Value read from rs2.
    pub val2: u64,
    /// Value produced in Execute.
    pub val_e: u64,
    /// Value read from Memory.
    pub val_m: u64,
}

/// How the Decode stage treats an operation: which source registers it
/// reads and whether it claims a destination.
#[derive(Debug, Clone, Copy, PartialEq, Eq, Structural)]
pub enum DecodeClass {
    /// Reads rs1 and rs2, claims rd.
    TwoSrcDest(RegID, RegID, RegID),
    /// Reads rs1, claims rd.
    OneSrcDest(RegID, RegID),
    /// Reads a0, a1 and a7, claims nothing.
    EcallArgs,
    /// Reads rs1 and rs2, claims nothing (stores and branches).
    TwoSrc(RegID, RegID),
    /// Claims rd, reads nothing.
    DestOnly(RegID),
    /// Not simulated; Decode leaves everything in place.
    Passive,
}

/// The decode classification of an operation.
pub open spec fn spec_class_of(code: InstCode) -> DecodeClass {
    match code {
        InstCode::Add(rd, rs1, rs2) => DecodeClass::TwoSrcDest(rd, rs1, rs2),
        InstCode::Mul(rd, rs1, rs2) => DecodeClass::TwoSrcDest(rd, rs1, rs2),
        InstCode::Sub(rd, rs1, rs2) => DecodeClass::TwoSrcDest(rd, rs1, rs2),
        InstCode::Sll(rd, rs1, rs2) => DecodeClass::TwoSrcDest(rd, rs1, rs2),
        InstCode::Mulh(rd, rs1, rs2) => DecodeClass::TwoSrcDest(rd, rs1, rs2),
        InstCode::Slt(rd, rs1, rs2) => DecodeClass::TwoSrcDest(rd, rs1, rs2),
        InstCode::Sltu(rd, rs1, rs2) => DecodeClass::TwoSrcDest(rd, rs1, rs2),
        InstCode::Xor(rd, rs1, rs2) => DecodeClass::TwoSrcDest(rd, rs1, rs2),
        InstCode::Div(rd, rs1, rs2) => DecodeClass::TwoSrcDest(rd, rs1, rs2),
        InstCode::Srl(rd, rs1, rs2) => DecodeClass::TwoSrcDest(rd, rs1, rs2),
        InstCode::Sra(rd, rs1, rs2) => DecodeClass::TwoSrcDest(rd, rs1, rs2),
        InstCode::Or(rd, rs1, rs2) => DecodeClass::TwoSrcDest(rd, rs1, rs2),
        InstCode::Rem(rd, rs1, rs2) => DecodeClass::TwoSrcDest(rd, rs1, rs2),
        InstCode::And(rd, rs1, rs2) => DecodeClass::TwoSrcDest(rd, rs1, rs2),
        InstCode::Addw(rd, rs1, rs2) => DecodeClass::TwoSrcDest(rd, rs1, rs2),
        InstCode::Subw(rd, rs1, rs2) => DecodeClass::TwoSrcDest(rd, rs1, rs2),
        InstCode::Mulw(rd, rs1, rs2) => DecodeClass::TwoSrcDest(rd, rs1, rs2),
        InstCode::Divw(rd, rs1, rs2) => DecodeClass::TwoSrcDest(rd, rs1, rs2),
        InstCode::Sllw(rd, rs1, rs2) => DecodeClass::TwoSrcDest(rd, rs1, rs2),
        InstCode::Srlw(rd, rs1, rs2) => DecodeClass::TwoSrcDest(rd, rs1, rs2),
        InstCode::Sraw(rd, rs1, rs2) => DecodeClass::TwoSrcDest(rd, rs1, rs2),
        InstCode::Remw(rd, rs1, rs2) => DecodeClass::TwoSrcDest(rd, rs1, rs2),
        InstCode::Lb(rd, rs1, _) => DecodeClass::OneSrcDest(rd, rs1),
        InstCode::Lbu(rd, rs1, _) => DecodeClass::OneSrcDest(rd, rs1),
        InstCode::Lh(rd, rs1, _) => DecodeClass::OneSrcDest(rd, rs1),
        InstCode::Lhu(rd, rs1, _) => DecodeClass::OneSrcDest(rd, rs1),
        InstCode::Lw(rd, rs1, _) => DecodeClass::OneSrcDest(rd, rs1),
        InstCode::Lwu(rd, rs1, _) => DecodeClass::OneSrcDest(rd, rs1),
        InstCode::Ld(rd, rs1, _) => DecodeClass::OneSrcDest(rd, rs1),
        InstCode::Addi(rd, rs1, _) => DecodeClass::OneSrcDest(rd, rs1),
        InstCode::Slli(rd, rs1, _) => DecodeClass::OneSrcDest(rd, rs1),
        InstCode::Slliw(rd, rs1, _) => DecodeClass::OneSrcDest(rd, rs1),
        InstCode::Slti(rd, rs1, _) => DecodeClass::OneSrcDest(rd, rs1),
        InstCode::Sltiu(rd, rs1, _) => DecodeClass::OneSrcDest(rd, rs1),
        InstCode::Xori(rd, rs1, _) => DecodeClass::OneSrcDest(rd, rs1),
        InstCode::Srli(rd, rs1, _) => DecodeClass::OneSrcDest(rd, rs1),
        InstCode::Srliw(rd, rs1, _) => DecodeClass::OneSrcDest(rd, rs1),
        InstCode::Srai(rd, rs1, _) => DecodeClass::OneSrcDest(rd, rs1),
        InstCode::Sraiw(rd, rs1, _) => DecodeClass::OneSrcDest(rd, rs1),
        InstCode::Ori(rd, rs1, _) => DecodeClass::OneSrcDest(rd, rs1),
        InstCode::Andi(rd, rs1, _) => DecodeClass::OneSrcDest(rd, rs1),
        InstCode::Addiw(rd, rs1, _) => DecodeClass::OneSrcDest(rd, rs1),
        InstCode::Jalr(rd, rs1, _) => DecodeClass::OneSrcDest(rd, rs1),
        InstCode::Ecall => DecodeClass::EcallArgs,
        InstCode::Sb(rs1, rs2, _) => DecodeClass::TwoSrc(rs1, rs2),
        InstCode::Sh(rs1, rs2, _) => DecodeClass::TwoSrc(rs1, rs2),
        InstCode::Sw(rs1, rs2, _) => DecodeClass::TwoSrc(rs1, rs2),
        InstCode::Sd(rs1, rs2, _) => DecodeClass::TwoSrc(rs1, rs2),
        InstCode::Beq(rs1, rs2, _) => DecodeClass::TwoSrc(rs1, rs2),
        InstCode::Bne(rs1, rs2, _) => DecodeClass::TwoSrc(rs1, rs2),
        InstCode::Blt(rs1, rs2, _) => DecodeClass::TwoSrc(rs1, rs2),
        InstCode::Bge(rs1, rs2, _) => DecodeClass::TwoSrc(rs1, rs2),
        InstCode::Bltu(rs1, rs2, _) => DecodeClass::TwoSrc(rs1, rs2),
        InstCode::Bgeu(rs1, rs2, _) => DecodeClass::TwoSrc(rs1, rs2),
        InstCode::Auipc(rd, _) => DecodeClass::DestOnly(rd),
        InstCode::Lui(rd, _) => DecodeClass::DestOnly(rd),
        InstCode::Jal(rd, _) => DecodeClass::DestOnly(rd),
        _ => DecodeClass::Passive,
    }
}

/// The destination register of an operation, if it has one.
pub open spec fn dest_of(code: InstCode) -> Option<RegID> {
    match spec_class_of(code) {
        DecodeClass::TwoSrcDest(rd, _, _) => Some(rd),
        DecodeClass::OneSrcDest(rd, _) => Some(rd),
        DecodeClass::DestOnly(rd) => Some(rd),
        _ => None,
    }
}

/// Whether the operation is one the stage machine simulates; anything else
/// halts during Fetch and never reaches a later stage.
pub open spec fn supported(code: InstCode) -> bool {
    match code {
        InstCode::Fence(_, _) => false,
        InstCode::FenceI => false,
        InstCode::Csrrw(_, _, _) => false,
        InstCode::Csrrs(_, _, _) => false,
        InstCode::Csrrc(_, _, _) => false,
        InstCode::Csrrwi(_, _, _) => false,
        InstCode::Csrrsi(_, _, _) => false,
        InstCode::Csrrci(_, _, _) => false,
        InstCode::Ebreak => false,
        InstCode::Uret => false,
        InstCode::Sret => false,
        InstCode::Mret => false,
        InstCode::Wfi => false,
        InstCode::SfenceVma(_, _) => false,
        InstCode::IllegalCf(_) => false,
        InstCode::IllegalProlonged => false,
        InstCode::Unknown(_) => false,
        InstCode::UnknownC(_) => false,
        InstCode::DivRem(_, _, _, _) => false,
        _ => true,
    }
}

impl Inst {
    /// A fresh, empty instruction about to fetch.
    pub fn new() -> (r: Inst)
        ensures
            r == Inst::spec_new(),
    {
        Inst {
            code: InstCode::Unknown(0),
            pc: 0,
            next_pc: 0,
            stage: Stage::Fetch,
            progress: 0,
            val1: 0,
            val2: 0,
            val_e: 0,
            val_m: 0,
        }
    }

    /// The empty instruction `new` returns.
    pub open spec fn spec_new() -> Inst {
        Inst {
            code: InstCode::Unknown(0u32),
            pc: 0u64,
            next_pc: 0u64,
            stage: Stage::Fetch,
            progress: 0usize,
            val1: 0u64,
            val2: 0u64,
            val_e: 0u64,
            val_m: 0u64,
        }
    }

    pub fn code(&self) -> (r: InstCode)
        ensures
            r == self.code,
    {
        self.code
    }

    pub fn next_pc(&self) -> (r: u64)
        ensures
            r == self.next_pc,
    {
        self.next_pc
    }

    pub fn stage(&self) -> (r: Stage)
        ensures
            r == self.stage,
    {
        self.stage
    }

    pub fn progress(&self) -> (r: usize)
        ensures
            r == self.progress,
    {
        self.progress
    }

    pub fn pc(&self) -> (r: u64)
        ensures
            r == self.pc,
    {
        self.pc
    }
}

/// What the Fetch stage does: read four bytes at the program counter,
/// decode them, and either halt (sentinel address, unreadable or
/// boundary-crossing fetch, unsupported operation) or hand the decoded
/// instruction to Decode. The machine itself is never changed by a fetch.
pub open spec fn spec_fetch(inst: Inst, m: MachineView) -> (Result<Inst, u64>, MachineView) {
    if m.program_counter == HLT_ADDR {
        (Err(HLT_ADDR), m)
    } else {
        match spec_mem_load(m.vmas, m.program_counter, 4, true) {
            None => (Err(HLT_ADDR), m),
            Some(p) => {
                if p.1 != 0 {
                    (Err(HLT_ADDR), m)
                } else {
                    let raw = spec_u32_from_le_bytes(p.0);
                    let cl = InstCode::spec_parse((raw & 0xFFFF) as u16, (raw >> 16) as u16);
                    if !supported(cl.0) {
                        (Err(HLT_ADDR), m)
                    } else {
                        let fetched = Inst {
                            code: cl.0,
                            pc: m.program_counter,
                            next_pc: vstd::wrapping::u64_specs::wrapping_add(
                                m.program_counter,
                                (cl.1 / 8) as u64,
                            ),
                            stage: Stage::Decode,
                            ..inst
                        };
                        (Ok(fetched), m)
                    }
                }
            },
        }
    }
}

/// What the Decode stage does: read the source registers the operation's
/// class requires, stalling (instruction and machine unchanged) while any
/// is not ready; once all are available, cache them and claim the
/// destination register.
pub open spec fn spec_decode(inst: Inst, m: MachineView) -> (Result<Inst, u64>, MachineView) {
    match spec_class_of(inst.code) {
        DecodeClass::TwoSrcDest(rd, rs1, rs2) => {
            match regs_read(m.registers, rs1) {
                None => (Ok(inst), m),
                Some(v1) => {
                    match regs_read(m.registers, rs2) {
                        None => (Ok(inst), m),
                        Some(v2) => {
                            let decoded = Inst {
                                val1: v1,
                                val2: v2,
                                stage: Stage::Execute,
                                ..inst
                            };
                            (
                                Ok(decoded),
                                MachineView { registers: regs_lock(m.registers, rd), ..m },
                            )
                        },
                    }
                },
            }
        },
        DecodeClass::OneSrcDest(rd, rs1) => {
            match regs_read(m.registers, rs1) {
                None => (Ok(inst), m),
                Some(v1) => {
                    let decoded = Inst { val1: v1, stage: Stage::Execute, ..inst };
                    (Ok(decoded), MachineView { registers: regs_lock(m.registers, rd), ..m })
                },
            }
        },
        DecodeClass::EcallArgs => {
            match regs_read(m.registers, RegID::X10) {
                None => (Ok(inst), m),
                Some(v1) => {
                    match regs_read(m.registers, RegID::X11) {
                        None => (Ok(inst), m),
                        Some(v2) => {
                            match regs_read(m.registers, RegID::X17) {
                                None => (Ok(inst), m),
                                Some(ve) => {
                                    let decoded = Inst {
                                        val1: v1,
                                        val2: v2,
                                        val_e: ve,
                                        stage: Stage::Execute,
                                        ..inst
                                    };
                                    (Ok(decoded), m)
                                },
                            }
                        },
                    }
                },
            }
        },
        DecodeClass::TwoSrc(rs1, rs2) => {
            match regs_read(m.registers, rs1) {
                None => (Ok(inst), m),
                Some(v1) => {
                    match regs_read(m.registers, rs2) {
                        None => (Ok(inst), m),
                        Some(v2) => {
                            let decoded = Inst { val1: v1, val2: v2, stage: Stage::Execute, ..inst };
                            (Ok(decoded), m)
                        },
                    }
                },
            }
        },
        DecodeClass::DestOnly(rd) => {
            let decoded = Inst { stage: Stage::Execute, ..inst };
            (Ok(decoded), MachineView { registers: regs_lock(m.registers, rd), ..m })
        },
        DecodeClass::Passive => (Ok(inst), m),
    }
}

/// The outcome of an execute step that produced `ve` for destination `rd`:
/// the value is cached, forwarded, and the instruction moves to Memory.
pub open spec fn alu_outcome(inst: Inst, m: MachineView, rd: RegID, ve: u64) -> (
    Result<Inst, u64>,
    MachineView,
) {
    let done = Inst { val_e: ve, stage: Stage::Memory, ..inst };
    (Ok(done), MachineView { registers: regs_forward(m.registers, rd, ve), ..m })
}

/// The outcome of a fatal execute step for destination `rd`: the claim on
/// `rd` is released and the machine halts.
pub open spec fn fault_unlock_outcome(inst: Inst, m: MachineView, rd: RegID) -> (
    Result<Inst, u64>,
    MachineView,
) {
    (Err(HLT_ADDR), MachineView { registers: regs_unlock(m.registers, rd), ..m })
}

/// A stalled multi-cycle execute step: only the progress counter moves.
pub open spec fn spin_outcome(inst: Inst, m: MachineView) -> (Result<Inst, u64>, MachineView) {
    (Ok(Inst { progress: (inst.progress + 1) as usize, ..inst }), m)
}

/// Truncating signed 64-bit division as the hardware defines it: the one
/// overflowing case (`MIN / -1`) yields `MIN`. The divisor is nonzero.
pub open spec fn spec_div_i64(a: i64, b: i64) -> i64 {
    match a.checked_div(b) {
        Some(q) => q,
        None => i64::MIN,
    }
}

/// Signed 64-bit remainder; `MIN % -1` yields 0. The divisor is nonzero.
pub open spec fn spec_rem_i64(a: i64, b: i64) -> i64 {
    match a.checked_rem(b) {
        Some(q) => q,
        None => 0i64,
    }
}

/// Truncating signed 32-bit division, as for `spec_div_i64`.
pub open spec fn spec_div_i32(a: i32, b: i32) -> i32 {
    match a.checked_div(b) {
        Some(q) => q,
        None => i32::MIN,
    }
}

/// Signed 32-bit remainder, as for `spec_rem_i64`.
pub open spec fn spec_rem_i32(a: i32, b: i32) -> i32 {
    match a.checked_rem(b) {
        Some(q) => q,
        None => 0i32,
    }
}

/// The high 64 bits of the signed 128-bit product.
pub open spec fn spec_mulh(v1: u64, v2: u64) -> u64 {
    let p = ((v1 as i64 as i128) * (v2 as i64 as i128)) as i128;
    (p >> 64) as u64
}

/// The effect of one Execute cycle on the instruction, with the stage
/// result computed by the tabulated bit-exact formula for the operation.
/// All shift amounts are taken modulo the operand width; arithmetic wraps;
/// `w`-suffix operations work on the low 32 bits and sign-extend.
#[derive(Debug, Clone, Copy, PartialEq, Eq, Structural)]
pub enum ExecEffect {
    /// Cache and forward the result, move to Memory.
    Forward(RegID, u64),
    /// As `Forward`, and redirect the next program counter (jumps).
    ForwardJump(RegID, u64, u64),
    /// Cache the computed address only, move to Memory (loads and stores).
    AddrOnly(u64),
    /// Move to Memory with no further effect.
    PassThrough,
    /// Stay in Execute for another cycle (multi-cycle operations).
    Spin,
    /// Release the destination claim and halt (division by zero).
    FaultUnlock(RegID),
    /// Halt (terminating or unrecognized system calls).
    Halt,
    /// Retire at once with the corrected program counter (taken branch).
    Branch(u64),
    /// Not simulated; nothing happens.
    Stay,
}

/// The Execute-stage effect of the instruction: the specification formula
/// for each operation, applied to the cached operands.
pub open spec fn spec_exec_effect(inst: Inst) -> ExecEffect {
    let v1 = inst.val1;
    let v2 = inst.val2;
    match inst.code {
        InstCode::Add(rd, _, _) => ExecEffect::Forward(
            rd,
            vstd::wrapping::u64_specs::wrapping_add(v1, v2),
        ),
        InstCode::Mul(rd, _, _) => {
            if inst.progress < 1 {
                ExecEffect::Spin
            } else {
                ExecEffect::Forward(
                    rd,
                    vstd::wrapping::i64_specs::wrapping_mul(v1 as i64, v2 as i64) as u64,
                )
            }
        },
        InstCode::Sub(rd, _, _) => ExecEffect::Forward(
            rd,
            vstd::wrapping::u64_specs::wrapping_sub(v1, v2),
        ),
        InstCode::Sll(rd, _, _) => ExecEffect::Forward(
            rd,
            vstd::wrapping::u64_specs::wrapping_shl(v1, (v2 & 0b111111) as u32),
        ),
        InstCode::Mulh(rd, _, _) => {
            if inst.progress < 1 {
                ExecEffect::Spin
            } else {
                ExecEffect::Forward(rd, spec_mulh(v1, v2))
            }
        },
        InstCode::Slt(rd, _, _) => ExecEffect::Forward(
            rd,
            if (v1 as i64) < (v2 as i64) {
                1u64
            } else {
                0u64
            },
        ),
        InstCode::Sltu(rd, _, _) => ExecEffect::Forward(
            rd,
            if v1 < v2 {
                1u64
            } else {
                0u64
            },
        ),
        InstCode::Xor(rd, _, _) => ExecEffect::Forward(rd, v1 ^ v2),
        InstCode::Div(rd, _, _) => {
            if v2 == 0 {
                ExecEffect::FaultUnlock(rd)
            } else if inst.progress < 39 {
                ExecEffect::Spin
            } else {
                ExecEffect::Forward(rd, spec_div_i64(v1 as i64, v2 as i64) as u64)
            }
        },
        InstCode::Srl(rd, _, _) => ExecEffect::Forward(
            rd,
            vstd::wrapping::u64_specs::wrapping_shr(v1, (v2 & 0b111111) as u32),
        ),
        InstCode::Sra(rd, _, _) => ExecEffect::Forward(
            rd,
            vstd::wrapping::i64_specs::wrapping_shr(v1 as i64, (v2 & 0b111111) as u32) as u64,
        ),
        InstCode::Or(rd, _, _) => ExecEffect::Forward(rd, v1 | v2),
        InstCode::Rem(rd, _, _) => {
            if v2 == 0 {
                ExecEffect::FaultUnlock(rd)
            } else if inst.progress < 39 {
                ExecEffect::Spin
            } else {
                ExecEffect::Forward(rd, spec_rem_i64(v1 as i64, v2 as i64) as u64)
            }
        },
        InstCode::And(rd, _, _) => ExecEffect::Forward(rd, v1 & v2),
        InstCode::Addw(rd, _, _) => ExecEffect::Forward(
            rd,
            vstd::wrapping::i32_specs::wrapping_add(v1 as i32, v2 as i32) as i64 as u64,
        ),
        InstCode::Subw(rd, _, _) => ExecEffect::Forward(
            rd,
            vstd::wrapping::i32_specs::wrapping_sub(v1 as i32, v2 as i32) as i64 as u64,
        ),
        InstCode::Mulw(rd, _, _) => ExecEffect::Forward(
            rd,
            vstd::wrapping::i32_specs::wrapping_mul(v1 as i32, v2 as i32) as i64 as u64,
        ),
        InstCode::Divw(rd, _, _) => {
            if v2 == 0 {
                ExecEffect::FaultUnlock(rd)
            } else if inst.progress < 39 {
                ExecEffect::Spin
            } else {
                ExecEffect::Forward(rd, spec_div_i32(v1 as i32, v2 as i32) as i64 as u64)
            }
        },
        InstCode::Sllw(rd, _, _) => ExecEffect::Forward(
            rd,
            vstd::wrapping::i32_specs::wrapping_shl(v1 as i32, (v2 & 0b11111) as u32) as i64
                as u64,
        ),
        InstCode::Srlw(rd, _, _) => ExecEffect::Forward(
            rd,
            vstd::wrapping::u32_specs::wrapping_shr(v1 as u32, (v2 & 0b11111) as u32) as i32
                as i64 as u64,
        ),
        InstCode::Sraw(rd, _, _) => ExecEffect::Forward(
            rd,
            vstd::wrapping::i32_specs::wrapping_shr(v1 as i32, (v2 & 0b11111) as u32) as i64
                as u64,
        ),
        InstCode::Remw(rd, _, _) => {
            if v2 == 0 {
                ExecEffect::FaultUnlock(rd)
            } else if inst.progress < 39 {
                ExecEffect::Spin
            } else {
                ExecEffect::Forward(rd, spec_rem_i32(v1 as i32, v2 as i32) as i64 as u64)
            }
        },
        InstCode::Lb(_, _, imm) | InstCode::Lbu(_, _, imm) | InstCode::Lh(_, _, imm)
            | InstCode::Lhu(_, _, imm) | InstCode::Lw(_, _, imm) | InstCode::Lwu(_, _, imm)
            | InstCode::Ld(_, _, imm) | InstCode::Sb(_, _, imm) | InstCode::Sh(_, _, imm)
            | InstCode::Sw(_, _, imm) | InstCode::Sd(_, _, imm) => ExecEffect::AddrOnly(
            vstd::wrapping::i64_specs::wrapping_add(v1 as i64, imm as i64) as u64,
        ),
        InstCode::Addi(rd, _, imm) => ExecEffect::Forward(
            rd,
            vstd::wrapping::i64_specs::wrapping_add(v1 as i64, imm as i64) as u64,
        ),
        InstCode::Slli(rd, _, imm) => ExecEffect::Forward(
            rd,
            vstd::wrapping::u64_specs::wrapping_shl(v1, imm as u32),
        ),
        InstCode::Slliw(rd, _, imm) => ExecEffect::Forward(
            rd,
            vstd::wrapping::i32_specs::wrapping_shl(v1 as i32, imm as u32) as i64 as u64,
        ),
        InstCode::Slti(rd, _, imm) => ExecEffect::Forward(
            rd,
            if (v1 as i64) < (imm as i64) {
                1u64
            } else {
                0u64
            },
        ),
        InstCode::Sltiu(rd, _, imm) => ExecEffect::Forward(
            rd,
            if v1 < (imm as i64 as u64) {
                1u64
            } else {
                0u64
            },
        ),
        InstCode::Xori(rd, _, imm) => ExecEffect::Forward(rd, v1 ^ (imm as i64 as u64)),
        InstCode::Srli(rd, _, imm) => ExecEffect::Forward(
            rd,
            vstd::wrapping::u64_specs::wrapping_shr(v1, imm as u32),
        ),
        InstCode::Srliw(rd, _, imm) => ExecEffect::Forward(
            rd,
            vstd::wrapping::u32_specs::wrapping_shr(v1 as u32, imm as u32) as i32 as i64 as u64,
        ),
        InstCode::Srai(rd, _, imm) => ExecEffect::Forward(
            rd,
            vstd::wrapping::i64_specs::wrapping_shr(v1 as i64, imm as u32) as u64,
        ),
        InstCode::Sraiw(rd, _, imm) => ExecEffect::Forward(
            rd,
            vstd::wrapping::i32_specs::wrapping_shr(v1 as i32, imm as u32) as i64 as u64,
        ),
        InstCode::Ori(rd, _, imm) => ExecEffect::Forward(rd, v1 | (imm as i64 as u64)),
        InstCode::Andi(rd, _, imm) => ExecEffect::Forward(rd, v1 & (imm as i64 as u64)),
        InstCode::Addiw(rd, _, imm) => ExecEffect::Forward(
            rd,
            vstd::wrapping::i32_specs::wrapping_add(v1 as i32, imm as i32) as i64 as u64,
        ),
        InstCode::Jalr(rd, _, imm) => ExecEffect::ForwardJump(
            rd,
            vstd::wrapping::u64_specs::wrapping_add(inst.pc, 4),
            (vstd::wrapping::i64_specs::wrapping_add(v1 as i64, imm as i64) as u64)
                & 0xFFFF_FFFF_FFFF_FFFEu64,
        ),
        InstCode::Ecall => {
            if inst.val_e == 57 || inst.val_e == 80 || inst.val_e == 62 || inst.val_e == 214
                || inst.val_e == 64 || inst.val_e == 63 || inst.val_e == 93 {
                ExecEffect::Halt
            } else if v1 == 10 {
                ExecEffect::Halt
            } else if v1 == 1 {
                ExecEffect::PassThrough
            } else {
                ExecEffect::Halt
            }
        },
        InstCode::Beq(_, _, ofs) => {
            if v1 == v2 {
                ExecEffect::Branch(
                    vstd::wrapping::i64_specs::wrapping_add(inst.pc as i64, ofs as i64) as u64,
                )
            } else {
                ExecEffect::PassThrough
            }
        },
        InstCode::Bne(_, _, ofs) => {
            if v1 != v2 {
                ExecEffect::Branch(
                    vstd::wrapping::i64_specs::wrapping_add(inst.pc as i64, ofs as i64) as u64,
                )
            } else {
                ExecEffect::PassThrough
            }
        },
        InstCode::Blt(_, _, ofs) => {
            if (v1 as i64) < (v2 as i64) {
                ExecEffect::Branch(
                    vstd::wrapping::i64_specs::wrapping_add(inst.pc as i64, ofs as i64) as u64,
                )
            } else {
                ExecEffect::PassThrough
            }
        },
        InstCode::Bltu(_, _, ofs) => {
            if v1 < v2 {
                ExecEffect::Branch(
                    vstd::wrapping::i64_specs::wrapping_add(inst.pc as i64, ofs as i64) as u64,
                )
            } else {
                ExecEffect::PassThrough
            }
        },
        InstCode::Bge(_, _, ofs) => {
            if (v1 as i64) >= (v2 as i64) {
                ExecEffect::Branch(
                    vstd::wrapping::i64_specs::wrapping_add(inst.pc as i64, ofs as i64) as u64,
                )
            } else {
                ExecEffect::PassThrough
            }
        },
        InstCode::Bgeu(_, _, ofs) => {
            if v1 >= v2 {
                ExecEffect::Branch(
                    vstd::wrapping::i64_specs::wrapping_add(inst.pc as i64, ofs as i64) as u64,
                )
            } else {
                ExecEffect::PassThrough
            }
        },
        InstCode::Auipc(rd, imm) => ExecEffect::Forward(
            rd,
            vstd::wrapping::i64_specs::wrapping_add(inst.pc as i64, imm as i64) as u64,
        ),
        InstCode::Lui(rd, imm) => ExecEffect::Forward(rd, imm as i64 as u64),
        InstCode::Jal(rd, imm) => ExecEffect::ForwardJump(
            rd,
            vstd::wrapping::u64_specs::wrapping_add(inst.pc, 4),
            vstd::wrapping::i64_specs::wrapping_add(inst.pc as i64, imm as i64) as u64,
        ),
        _ => ExecEffect::Stay,
    }
}

/// What the Execute stage does: apply the operation's effect to the
/// instruction and the machine.
pub open spec fn spec_execute(inst: Inst, m: MachineView) -> (Result<Inst, u64>, MachineView) {
    match spec_exec_effect(inst) {
        ExecEffect::Forward(rd, ve) => alu_outcome(inst, m, rd, ve),
        ExecEffect::ForwardJump(rd, ve, target) => {
            let done = Inst { val_e: ve, next_pc: target, stage: Stage::Memory, ..inst };
            (Ok(done), MachineView { registers: regs_forward(m.registers, rd, ve), ..m })
        },
        ExecEffect::AddrOnly(ve) => (Ok(Inst { val_e: ve, stage: Stage::Memory, ..inst }), m),
        ExecEffect::PassThrough => (Ok(Inst { stage: Stage::Memory, ..inst }), m),
        ExecEffect::Spin => spin_outcome(inst, m),
        ExecEffect::FaultUnlock(rd) => fault_unlock_outcome(inst, m, rd),
        ExecEffect::Halt => (Err(HLT_ADDR), m),
        ExecEffect::Branch(target) => (Err(target), m),
        ExecEffect::Stay => (Ok(inst), m),
    }
}

/// Whether the operation reads memory (its retired value is `val_m`).
pub open spec fn is_load(code: InstCode) -> bool {
    match code {
        InstCode::Lb(_, _, _) | InstCode::Lbu(_, _, _) | InstCode::Lh(_, _, _) | InstCode::Lhu(
            _,
            _,
            _,
        ) | InstCode::Lw(_, _, _) | InstCode::Lwu(_, _, _) | InstCode::Ld(_, _, _) => true,
        _ => false,
    }
}

/// The outcome of a load step that read `raw` with no remainder: the value
/// is extended per the operation, forwarded, and the instruction moves to
/// Writeback.
pub open spec fn load_outcome(inst: Inst, m: MachineView, rd: RegID, vm: u64) -> (
    Result<Inst, u64>,
    MachineView,
) {
    let done = Inst { val_m: vm, stage: Stage::Writeback, ..inst };
    (Ok(done), MachineView { registers: regs_forward(m.registers, rd, vm), ..m })
}

/// The bytes a store writes: the low `width` bytes of `val2`,
/// little-endian.
pub open spec fn store_bytes(val2: u64, width: int) -> Seq<u8> {
    spec_u64_to_le_bytes(val2).subrange(0, width)
}

/// The outcome of a store of `width` bytes at `val_e`.
pub open spec fn store_outcome(inst: Inst, m: MachineView, width: int) -> (
    Result<Inst, u64>,
    MachineView,
) {
    let sr = spec_mem_store(m.vmas, inst.val_e, store_bytes(inst.val2, width), 0);
    if !sr.0 {
        (Err(HLT_ADDR), MachineView { vmas: sr.1, ..m })
    } else {
        (Ok(Inst { stage: Stage::Writeback, ..inst }), MachineView { vmas: sr.1, ..m })
    }
}

/// What the Memory stage does: loads read at the address computed in
/// Execute, sign- or zero-extending to 64 bits; a failed or
/// boundary-crossing access releases the destination claim and halts.
/// Stores write the low bytes of the cached rs2 value and halt on failure.
/// Every other operation passes through unchanged.
pub open spec fn spec_memory(inst: Inst, m: MachineView) -> (Result<Inst, u64>, MachineView) {
    match inst.code {
        InstCode::Lb(rd, _, _) | InstCode::Lbu(rd, _, _) => {
            match spec_mem_load(m.vmas, inst.val_e, 1, false) {
                None => fault_unlock_outcome(inst, m, rd),
                Some(p) => {
                    if p.1 != 0 {
                        fault_unlock_outcome(inst, m, rd)
                    } else {
                        let vm = if inst.code matches InstCode::Lb(_, _, _) {
                            p.0[0] as i8 as i64 as u64
                        } else {
                            p.0[0] as u64
                        };
                        load_outcome(inst, m, rd, vm)
                    }
                },
            }
        },
        InstCode::Lh(rd, _, _) | InstCode::Lhu(rd, _, _) => {
            match spec_mem_load(m.vmas, inst.val_e, 2, false) {
                None => fault_unlock_outcome(inst, m, rd),
                Some(p) => {
                    if p.1 != 0 {
                        fault_unlock_outcome(inst, m, rd)
                    } else {
                        let vm = if inst.code matches InstCode::Lh(_, _, _) {
                            spec_u16_from_le_bytes(p.0) as i16 as i64 as u64
                        } else {
                            spec_u16_from_le_bytes(p.0) as u64
                        };
                        load_outcome(inst, m, rd, vm)
                    }
                },
            }
        },
        InstCode::Lw(rd, _, _) | InstCode::Lwu(rd, _, _) => {
            match spec_mem_load(m.vmas, inst.val_e, 4, false) {
                None => fault_unlock_outcome(inst, m, rd),
                Some(p) => {
                    if p.1 != 0 {
                        fault_unlock_outcome(inst, m, rd)
                    } else {
                        let vm = if inst.code matches InstCode::Lw(_, _, _) {
                            spec_u32_from_le_bytes(p.0) as i32 as i64 as u64
                        } else {
                            spec_u32_from_le_bytes(p.0) as u64
                        };
                        load_outcome(inst, m, rd, vm)
                    }
                },
            }
        },
        InstCode::Ld(rd, _, _) => {
            match spec_mem_load(m.vmas, inst.val_e, 8, false) {
                None => fault_unlock_outcome(inst, m, rd),
                Some(p) => {
                    if p.1 != 0 {
                        fault_unlock_outcome(inst, m, rd)
                    } else {
                        load_outcome(inst, m, rd, spec_u64_from_le_bytes(p.0))
                    }
                },
            }
        },
        InstCode::Sb(_, _, _) => store_outcome(inst, m, 1),
        InstCode::Sh(_, _, _) => store_outcome(inst, m, 2),
        InstCode::Sw(_, _, _) => store_outcome(inst, m, 4),
        InstCode::Sd(_, _, _) => store_outcome(inst, m, 8),
        _ => (Ok(Inst { stage: Stage::Writeback, ..inst }), m),
    }
}

/// What the Writeback stage does: commit the retired value (the memory
/// value for loads, the execute value otherwise) to the destination,
/// release the claim on it, and retire with the next program counter.
pub open spec fn spec_writeback(inst: Inst, m: MachineView) -> (Result<Inst, u64>, MachineView) {
    match dest_of(inst.code) {
        Some(rd) => {
            let v = if is_load(inst.code) {
                inst.val_m
            } else {
                inst.val_e
            };
            (
                Err(inst.next_pc),
                MachineView { registers: regs_unlock(regs_write(m.registers, rd, v), rd), ..m },
            )
        },
        None => (Err(inst.next_pc), m),
    }
}

/// One cycle of the stage machine, as a total function of the instruction
/// and the machine.
pub open spec fn spec_advance(inst: Inst, m: MachineView) -> (Result<Inst, u64>, MachineView) {
    match inst.stage {
        Stage::Fetch => spec_fetch(inst, m),
        Stage::Decode => spec_decode(inst, m),
        Stage::Execute => spec_execute(inst, m),
        Stage::Memory => spec_memory(inst, m),
        Stage::Writeback => spec_writeback(inst, m),
    }
}

/// What `advance` needs of the machine: past Fetch the operation is one
/// the machine simulates, a destination about to be claimed has headroom
/// in its pending counter, and a destination about to be released is
/// actually claimed.
pub open spec fn advance_wf(inst: Inst, m: MachineView) -> bool {
    &&& inst.stage != Stage::Fetch ==> supported(inst.code)
    &&& match dest_of(inst.code) {
        Some(rd) => {
            let cnt = m.registers[rd.spec_encode() as int].write_cnt;
            &&& inst.stage == Stage::Decode ==> cnt < usize::MAX
            &&& (inst.stage == Stage::Execute || inst.stage == Stage::Memory || inst.stage
                == Stage::Writeback) ==> cnt > 0
        },
        None => true,
    }
}

impl Inst {
    /// Advance this instruction by one cycle. `Ok` carries the (possibly
    /// stalled) instruction still in flight; `Err` retires it, carrying the
    /// program counter the driver should use next — `HLT_ADDR` on fatal
    /// faults, the branch target on a taken branch, and the instruction's
    /// own `next_pc` on normal retirement from Writeback.
    pub fn advance(self, prog: &mut Program) -> (r: Result<Inst, u64>)
        requires
            old(prog).wf(),
            advance_wf(self, old(prog)@),
        ensures
            final(prog).wf(),
            r == spec_advance(self, old(prog)@).0,
            final(prog)@ == spec_advance(self, old(prog)@).1,
    {
        match self.stage {
            Stage::Fetch => self.fetch_stage(prog),
            Stage::Decode => self.decode_stage(prog),
            Stage::Execute => self.execute_stage(prog),
            Stage::Memory => self.memory_stage(prog),
            Stage::Writeback => self.writeback_stage(prog),
        }
    }

    #[verifier::rlimit(100)]
    fn fetch_stage(self, prog: &mut Program) -> (r: Result<Inst, u64>)
        requires
            old(prog).wf(),
            self.stage == Stage::Fetch,
        ensures
            final(prog).wf(),
            r == spec_fetch(self, old(prog)@).0,
            final(prog)@ == spec_fetch(self, old(prog)@).1,
    {
        if prog.program_counter == HLT_ADDR {
            return Err(HLT_ADDR);
        }
        match prog.mem_load(prog.program_counter, 4, true) {
            None => Err(HLT_ADDR),
            Some((data, rem)) => {
                if rem != 0 {
                    return Err(HLT_ADDR);
                }
                assert(data@.len() == 4);
                let raw = u32_from_le_bytes(data.as_slice());
                let (code, len) = InstCode::parse((raw & 0xFFFF) as u16, (raw >> 16) as u16);
                match code {
                    InstCode::Unknown(_) | InstCode::IllegalCf(_) | InstCode::UnknownC(_)
                        | InstCode::IllegalProlonged | InstCode::Fence(_, _) | InstCode::FenceI
                        | InstCode::Csrrw(_, _, _) | InstCode::Csrrs(_, _, _) | InstCode::Csrrc(
                        _,
                        _,
                        _,
                    ) | InstCode::Csrrwi(_, _, _) | InstCode::Csrrsi(_, _, _) | InstCode::Csrrci(
                        _,
                        _,
                        _,
                    ) | InstCode::Ebreak | InstCode::Uret | InstCode::Sret | InstCode::Mret
                        | InstCode::Wfi | InstCode::SfenceVma(_, _) | InstCode::DivRem(
                        _,
                        _,
                        _,
                        _,
                    ) => {
                        return Err(HLT_ADDR);
                    },
                    _ => {},
                }
                let mut s = self;
                s.code = code;
                s.pc = prog.program_counter;
                s.next_pc = prog.program_counter.wrapping_add((len / 8) as u64);
                s.stage = Stage::Decode;
                Ok(s)
            },
        }
    }

    #[verifier::rlimit(100)]
    fn decode_stage(self, prog: &mut Program) -> (r: Result<Inst, u64>)
        requires
            old(prog).wf(),
            advance_wf(self, old(prog)@),
            self.stage == Stage::Decode,
        ensures
            final(prog).wf(),
            r == spec_decode(self, old(prog)@).0,
            final(prog)@ == spec_decode(self, old(prog)@).1,
    {
        match self.code.class_of() {
            DecodeClass::TwoSrcDest(rd, rs1, rs2) => {
                let val1 = match prog.registers.read(rs1) {
                    Some(val) => val,
                    None => {
                        return Ok(self);
                    },
                };
                let val2 = match prog.registers.read(rs2) {
                    Some(val) => val,
                    None => {
                        return Ok(self);
                    },
                };
                let mut s = self;
                s.val1 = val1;
                s.val2 = val2;
                prog.registers.lock(rd);
                s.stage = Stage::Execute;
                Ok(s)
            },
            DecodeClass::OneSrcDest(rd, rs1) => {
                let val1 = match prog.registers.read(rs1) {
                    Some(val) => val,
                    None => {
                        return Ok(self);
                    },
                };
                let mut s = self;
                s.val1 = val1;
                prog.registers.lock(rd);
                s.stage = Stage::Execute;
                Ok(s)
            },
            DecodeClass::EcallArgs => {
                // a0, a1 and a7 carry the call's arguments and function code.
                let val1 = match prog.registers.read(RegID::X10) {
                    Some(val) => val,
                    None => {
                        return Ok(self);
                    },
                };
                let val2 = match prog.registers.read(RegID::X11) {
                    Some(val) => val,
                    None => {
                        return Ok(self);
                    },
                };
                let val_e = match prog.registers.read(RegID::X17) {
                    Some(val) => val,
                    None => {
                        return Ok(self);
                    },
                };
                let mut s = self;
                s.val1 = val1;
                s.val2 = val2;
                s.val_e = val_e;
                s.stage = Stage::Execute;
                Ok(s)
            },
            DecodeClass::TwoSrc(rs1, rs2) => {
                let val1 = match prog.registers.read(rs1) {
                    Some(val) => val,
                    None => {
                        return Ok(self);
                    },
                };
                let val2 = match prog.registers.read(rs2) {
                    Some(val) => val,
                    None => {
                        return Ok(self);
                    },
                };
                let mut s = self;
                s.val1 = val1;
                s.val2 = val2;
                s.stage = Stage::Execute;
                Ok(s)
            },
            DecodeClass::DestOnly(rd) => {
                prog.registers.lock(rd);
                let mut s = self;
                s.stage = Stage::Execute;
                Ok(s)
            },
            DecodeClass::Passive => Ok(self),
        }
    }

    /// Forward `ve` to `rd` and move to Memory with `ve` cached.
    fn alu_step(self, prog: &mut Program, rd: RegID, ve: u64) -> (r: Result<Inst, u64>)
        requires
            old(prog).wf(),
        ensures
            final(prog).wf(),
            r == alu_outcome(self, old(prog)@, rd, ve).0,
            final(prog)@ == alu_outcome(self, old(prog)@, rd, ve).1,
    {
        prog.registers.forward(rd, ve, Stage::Memory);
        let mut s = self;
        s.val_e = ve;
        s.stage = Stage::Memory;
        Ok(s)
    }

    #[verifier::rlimit(100)]
    fn execute_stage(self, prog: &mut Program) -> (r: Result<Inst, u64>)
        requires
            old(prog).wf(),
            advance_wf(self, old(prog)@),
            self.stage == Stage::Execute,
        ensures
            final(prog).wf(),
            r == spec_execute(self, old(prog)@).0,
            final(prog)@ == spec_execute(self, old(prog)@).1,
    {
        let v1 = self.val1;
        let v2 = self.val2;
        match self.code {
            InstCode::Add(rd, _, _) => self.alu_step(prog, rd, v1.wrapping_add(v2)),
            InstCode::Mul(rd, _, _) => {
                if self.progress < 1 {
                    let mut s = self;
                    s.progress = s.progress + 1;
                    return Ok(s);
                }
                self.alu_step(prog, rd, (v1 as i64).wrapping_mul(v2 as i64) as u64)
            },
            InstCode::Sub(rd, _, _) => self.alu_step(prog, rd, v1.wrapping_sub(v2)),
            InstCode::Sll(rd, _, _) => self.alu_step(
                prog,
                rd,
                v1.wrapping_shl((v2 & 0b111111) as u32),
            ),
            InstCode::Mulh(rd, _, _) => {
                if self.progress < 1 {
                    let mut s = self;
                    s.progress = s.progress + 1;
                    return Ok(s);
                }
                let a = v1 as i64 as i128;
                let b = v2 as i64 as i128;
                proof {
                    assert(i128::MIN <= a * b <= i128::MAX) by (nonlinear_arith)
                        requires
                            -0x8000_0000_0000_0000 <= a <= 0x7FFF_FFFF_FFFF_FFFF,
                            -0x8000_0000_0000_0000 <= b <= 0x7FFF_FFFF_FFFF_FFFF,
                    ;
                }
                let p = a * b;
                self.alu_step(prog, rd, (p >> 64u32) as u64)
            },
            InstCode::Slt(rd, _, _) => self.alu_step(
                prog,
                rd,
                if (v1 as i64) < (v2 as i64) {
                    1
                } else {
                    0
                },
            ),
            InstCode::Sltu(rd, _, _) => self.alu_step(
                prog,
                rd,
                if v1 < v2 {
                    1
                } else {
                    0
                },
            ),
            InstCode::Xor(rd, _, _) => self.alu_step(prog, rd, v1 ^ v2),
            InstCode::Div(rd, _, _) => {
                if v2 == 0 {
                    prog.registers.unlock(rd);
                    return Err(HLT_ADDR);
                }
                if self.progress < 39 {
                    let mut s = self;
                    s.progress = s.progress + 1;
                    return Ok(s);
                }
                let q = match (v1 as i64).checked_div(v2 as i64) {
                    Some(q) => q,
                    None => i64::MIN,
                };
                self.alu_step(prog, rd, q as u64)
            },
            InstCode::Srl(rd, _, _) => self.alu_step(
                prog,
                rd,
                v1.wrapping_shr((v2 & 0b111111) as u32),
            ),
            InstCode::Sra(rd, _, _) => self.alu_step(
                prog,
                rd,
                (v1 as i64).wrapping_shr((v2 & 0b111111) as u32) as u64,
            ),
            InstCode::Or(rd, _, _) => self.alu_step(prog, rd, v1 | v2),
            InstCode::Rem(rd, _, _) => {
                if v2 == 0 {
                    prog.registers.unlock(rd);
                    return Err(HLT_ADDR);
                }
                if self.progress < 39 {
                    let mut s = self;
                    s.progress = s.progress + 1;
                    return Ok(s);
                }
                let q = match (v1 as i64).checked_rem(v2 as i64) {
                    Some(q) => q,
                    None => 0i64,
                };
                self.alu_step(prog, rd, q as u64)
            },
            InstCode::And(rd, _, _) => self.alu_step(prog, rd, v1 & v2),
            InstCode::Addw(rd, _, _) => self.alu_step(
                prog,
                rd,
                (v1 as i32).wrapping_add(v2 as i32) as i64 as u64,
            ),
            InstCode::Subw(rd, _, _) => self.alu_step(
                prog,
                rd,
                (v1 as i32).wrapping_sub(v2 as i32) as i64 as u64,
            ),
            InstCode::Mulw(rd, _, _) => self.alu_step(
                prog,
                rd,
                (v1 as i32).wrapping_mul(v2 as i32) as i64 as u64,
            ),
            InstCode::Divw(rd, _, _) => {
                if v2 == 0 {
                    prog.registers.unlock(rd);
                    return Err(HLT_ADDR);
                }
                if self.progress < 39 {
                    let mut s = self;
                    s.progress = s.progress + 1;
                    return Ok(s);
                }
                let q = match (v1 as i32).checked_div(v2 as i32) {
                    Some(q) => q,
                    None => i32::MIN,
                };
                self.alu_step(prog, rd, q as i64 as u64)
            },
            InstCode::Sllw(rd, _, _) => self.alu_step(
                prog,
                rd,
                (v1 as i32).wrapping_shl((v2 & 0b11111) as u32) as i64 as u64,
            ),
            InstCode::Srlw(rd, _, _) => self.alu_step(
                prog,
                rd,
                (v1 as u32).wrapping_shr((v2 & 0b11111) as u32) as i32 as i64 as u64,
            ),
            InstCode::Sraw(rd, _, _) => self.alu_step(
                prog,
                rd,
                (v1 as i32).wrapping_shr((v2 & 0b11111) as u32) as i64 as u64,
            ),
            InstCode::Remw(rd, _, _) => {
                if v2 == 0 {
                    prog.registers.unlock(rd);
                    return Err(HLT_ADDR);
                }
                if self.progress < 39 {
                    let mut s = self;
                    s.progress = s.progress + 1;
                    return Ok(s);
                }
                let q = match (v1 as i32).checked_rem(v2 as i32) {
                    Some(q) => q,
                    None => 0i32,
                };
                self.alu_step(prog, rd, q as i64 as u64)
            },
            InstCode::Lb(_, _, imm) | InstCode::Lbu(_, _, imm) | InstCode::Lh(_, _, imm)
                | InstCode::Lhu(_, _, imm) | InstCode::Lw(_, _, imm) | InstCode::Lwu(_, _, imm)
                | InstCode::Ld(_, _, imm) | InstCode::Sb(_, _, imm) | InstCode::Sh(_, _, imm)
                | InstCode::Sw(_, _, imm) | InstCode::Sd(_, _, imm) => {
                let mut s = self;
                s.val_e = (v1 as i64).wrapping_add(imm as i64) as u64;
                s.stage = Stage::Memory;
                Ok(s)
            },
            InstCode::Addi(rd, _, imm) => self.alu_step(
                prog,
                rd,
                (v1 as i64).wrapping_add(imm as i64) as u64,
            ),
            InstCode::Slli(rd, _, imm) => self.alu_step(prog, rd, v1.wrapping_shl(imm as u32)),
            InstCode::Slliw(rd, _, imm) => self.alu_step(
                prog,
                rd,
                (v1 as i32).wrapping_shl(imm as u32) as i64 as u64,
            ),
            InstCode::Slti(rd, _, imm) => self.alu_step(
                prog,
                rd,
                if (v1 as i64) < (imm as i64) {
                    1
                } else {
                    0
                },
            ),
            InstCode::Sltiu(rd, _, imm) => self.alu_step(
                prog,
                rd,
                if v1 < (imm as i64 as u64) {
                    1
                } else {
                    0
                },
            ),
            InstCode::Xori(rd, _, imm) => self.alu_step(prog, rd, v1 ^ (imm as i64 as u64)),
            InstCode::Srli(rd, _, imm) => self.alu_step(prog, rd, v1.wrapping_shr(imm as u32)),
            InstCode::Srliw(rd, _, imm) => self.alu_step(
                prog,
                rd,
                (v1 as u32).wrapping_shr(imm as u32) as i32 as i64 as u64,
            ),
            InstCode::Srai(rd, _, imm) => self.alu_step(
                prog,
                rd,
                (v1 as i64).wrapping_shr(imm as u32) as u64,
            ),
            InstCode::Sraiw(rd, _, imm) => self.alu_step(
                prog,
                rd,
                (v1 as i32).wrapping_shr(imm as u32) as i64 as u64,
            ),
            InstCode::Ori(rd, _, imm) => self.alu_step(prog, rd, v1 | (imm as i64 as u64)),
            InstCode::Andi(rd, _, imm) => self.alu_step(prog, rd, v1 & (imm as i64 as u64)),
            InstCode::Addiw(rd, _, imm) => self.alu_step(
                prog,
                rd,
                (v1 as i32).wrapping_add(imm as i32) as i64 as u64,
            ),
            InstCode::Jalr(rd, _, imm) => {
                let ve = self.pc.wrapping_add(4);
                let target = ((v1 as i64).wrapping_add(imm as i64) as u64)
                    & 0xFFFF_FFFF_FFFF_FFFEu64;
                prog.registers.forward(rd, ve, Stage::Memory);
                let mut s = self;
                s.val_e = ve;
                s.next_pc = target;
                s.stage = Stage::Memory;
                Ok(s)
            },
            InstCode::Ecall => {
                // Recognized system-call function codes terminate the
                // simulation; a0 == 1 prints a1 (the driver reports it) and
                // continues, a0 == 10 exits, anything else is fatal.
                let f = self.val_e;
                if f == 57 || f == 80 || f == 62 || f == 214 || f == 64 || f == 63 || f == 93 {
                    return Err(HLT_ADDR);
                }
                if v1 == 10 {
                    return Err(HLT_ADDR);
                }
                if v1 == 1 {
                    let mut s = self;
                    s.stage = Stage::Memory;
                    return Ok(s);
                }
                Err(HLT_ADDR)
            },
            InstCode::Beq(_, _, ofs) => {
                if v1 == v2 {
                    return Err((self.pc as i64).wrapping_add(ofs as i64) as u64);
                }
                let mut s = self;
                s.stage = Stage::Memory;
                Ok(s)
            },
            InstCode::Bne(_, _, ofs) => {
                if v1 != v2 {
                    return Err((self.pc as i64).wrapping_add(ofs as i64) as u64);
                }
                let mut s = self;
                s.stage = Stage::Memory;
                Ok(s)
            },
            InstCode::Blt(_, _, ofs) => {
                if (v1 as i64) < (v2 as i64) {
                    return Err((self.pc as i64).wrapping_add(ofs as i64) as u64);
                }
                let mut s = self;
                s.stage = Stage::Memory;
                Ok(s)
            },
            InstCode::Bltu(_, _, ofs) => {
                if v1 < v2 {
                    return Err((self.pc as i64).wrapping_add(ofs as i64) as u64);
                }
                let mut s = self;
                s.stage = Stage::Memory;
                Ok(s)
            },
            InstCode::Bge(_, _, ofs) => {
                if (v1 as i64) >= (v2 as i64) {
                    return Err((self.pc as i64).wrapping_add(ofs as i64) as u64);
                }
                let mut s = self;
                s.stage = Stage::Memory;
                Ok(s)
            },
            InstCode::Bgeu(_, _, ofs) => {
                if v1 >= v2 {
                    return Err((self.pc as i64).wrapping_add(ofs as i64) as u64);
                }
                let mut s = self;
                s.stage = Stage::Memory;
                Ok(s)
            },
            InstCode::Auipc(rd, imm) => self.alu_step(
                prog,
                rd,
                (self.pc as i64).wrapping_add(imm as i64) as u64,
            ),
            InstCode::Lui(rd, imm) => self.alu_step(prog, rd, imm as i64 as u64),
            InstCode::Jal(rd, imm) => {
                let ve = self.pc.wrapping_add(4);
                let target = (self.pc as i64).wrapping_add(imm as i64) as u64;
                prog.registers.forward(rd, ve, Stage::Memory);
                let mut s = self;
                s.val_e = ve;
                s.next_pc = target;
                s.stage = Stage::Memory;
                Ok(s)
            },
            _ => Ok(self),
        }
    }

    /// Forward the loaded value to `rd` and move to Writeback.
    fn load_step(self, prog: &mut Program, rd: RegID, vm: u64) -> (r: Result<Inst, u64>)
        requires
            old(prog).wf(),
        ensures
            final(prog).wf(),
            r == load_outcome(self, old(prog)@, rd, vm).0,
            final(prog)@ == load_outcome(self, old(prog)@, rd, vm).1,
    {
        prog.registers.forward(rd, vm, Stage::Writeback);
        let mut s = self;
        s.val_m = vm;
        s.stage = Stage::Writeback;
        Ok(s)
    }

    /// Store the low `width` bytes of the cached rs2 value at `val_e`.
    fn store_step(self, prog: &mut Program, width: usize) -> (r: Result<Inst, u64>)
        requires
            old(prog).wf(),
            1 <= width <= 8,
        ensures
            final(prog).wf(),
            r == store_outcome(self, old(prog)@, width as int).0,
            final(prog)@ == store_outcome(self, old(prog)@, width as int).1,
    {
        let full = u64_to_le_bytes(self.val2);
        proof {
            vstd::bytes::lemma_auto_spec_u64_to_from_le_bytes();
        }
        let bytes = crate::program::vec_subrange(&full, 0, width);
        if !prog.mem_store(self.val_e, &bytes) {
            Err(HLT_ADDR)
        } else {
            let mut s = self;
            s.stage = Stage::Writeback;
            Ok(s)
        }
    }

    #[verifier::rlimit(100)]
    fn memory_stage(self, prog: &mut Program) -> (r: Result<Inst, u64>)
        requires
            old(prog).wf(),
            advance_wf(self, old(prog)@),
            self.stage == Stage::Memory,
        ensures
            final(prog).wf(),
            r == spec_memory(self, old(prog)@).0,
            final(prog)@ == spec_memory(self, old(prog)@).1,
    {
        match self.code {
            InstCode::Lb(rd, _, _) | InstCode::Lbu(rd, _, _) => {
                match prog.mem_load(self.val_e, 1, false) {
                    None => {
                        prog.registers.unlock(rd);
                        Err(HLT_ADDR)
                    },
                    Some((data, rem)) => {
                        if rem != 0 {
                            prog.registers.unlock(rd);
                            return Err(HLT_ADDR);
                        }
                        assert(data@.len() == 1);
                        let vm = if matches!(self.code, InstCode::Lb(_, _, _)) {
                            data[0] as i8 as i64 as u64
                        } else {
                            data[0] as u64
                        };
                        self.load_step(prog, rd, vm)
                    },
                }
            },
            InstCode::Lh(rd, _, _) | InstCode::Lhu(rd, _, _) => {
                match prog.mem_load(self.val_e, 2, false) {
                    None => {
                        prog.registers.unlock(rd);
                        Err(HLT_ADDR)
                    },
                    Some((data, rem)) => {
                        if rem != 0 {
                            prog.registers.unlock(rd);
                            return Err(HLT_ADDR);
                        }
                        assert(data@.len() == 2);
                        let half = u16_from_le_bytes(data.as_slice());
                        let vm = if matches!(self.code, InstCode::Lh(_, _, _)) {
                            half as i16 as i64 as u64
                        } else {
                            half as u64
                        };
                        self.load_step(prog, rd, vm)
                    },
                }
            },
            InstCode::Lw(rd, _, _) | InstCode::Lwu(rd, _, _) => {
                match prog.mem_load(self.val_e, 4, false) {
                    None => {
                        prog.registers.unlock(rd);
                        Err(HLT_ADDR)
                    },
                    Some((data, rem)) => {
                        if rem != 0 {
                            prog.registers.unlock(rd);
                            return Err(HLT_ADDR);
                        }
                        assert(data@.len() == 4);
                        let word = u32_from_le_bytes(data.as_slice());
                        let vm = if matches!(self.code, InstCode::Lw(_, _, _)) {
                            word as i32 as i64 as u64
                        } else {
                            word as u64
                        };
                        self.load_step(prog, rd, vm)
                    },
                }
            },
            InstCode::Ld(rd, _, _) => {
                match prog.mem_load(self.val_e, 8, false) {
                    None => {
                        prog.registers.unlock(rd);
                        Err(HLT_ADDR)
                    },
                    Some((data, rem)) => {
                        if rem != 0 {
                            prog.registers.unlock(rd);
                            return Err(HLT_ADDR);
                        }
                        assert(data@.len() == 8);
                        let vm = u64_from_le_bytes(data.as_slice());
                        self.load_step(prog, rd, vm)
                    },
                }
            },
            InstCode::Sb(_, _, _) => self.store_step(prog, 1),
            InstCode::Sh(_, _, _) => self.store_step(prog, 2),
            InstCode::Sw(_, _, _) => self.store_step(prog, 4),
            InstCode::Sd(_, _, _) => self.store_step(prog, 8),
            _ => {
                let mut s = self;
                s.stage = Stage::Writeback;
                Ok(s)
            },
        }
    }

    #[verifier::rlimit(100)]
    fn writeback_stage(self, prog: &mut Program) -> (r: Result<Inst, u64>)
        requires
            old(prog).wf(),
            advance_wf(self, old(prog)@),
            self.stage == Stage::Writeback,
        ensures
            final(prog).wf(),
            r == spec_writeback(self, old(prog)@).0,
            final(prog)@ == spec_writeback(self, old(prog)@).1,
    {
        match self.code.dest_reg() {
            Some(rd) => {
                let v = if self.code.mem_read() {
                    self.val_m
                } else {
                    self.val_e
                };
                prog.registers.write(rd, v);
                prog.registers.unlock(rd);
            },
            None => {},
        }
        // The instruction always retires from Writeback.
        Err(self.next_pc)
    }
}

impl InstCode {
    /// The decode classification of this operation.
    #[verifier::rlimit(100)]
    pub fn class_of(&self) -> (r: DecodeClass)
        ensures
            r == spec_class_of(*self),
    {
        match *self {
            InstCode::Add(rd, rs1, rs2) => DecodeClass::TwoSrcDest(rd, rs1, rs2),
            InstCode::Mul(rd, rs1, rs2) => DecodeClass::TwoSrcDest(rd, rs1, rs2),
            InstCode::Sub(rd, rs1, rs2) => DecodeClass::TwoSrcDest(rd, rs1, rs2),
            InstCode::Sll(rd, rs1, rs2) => DecodeClass::TwoSrcDest(rd, rs1, rs2),
            InstCode::Mulh(rd, rs1, rs2) => DecodeClass::TwoSrcDest(rd, rs1, rs2),
            InstCode::Slt(rd, rs1, rs2) => DecodeClass::TwoSrcDest(rd, rs1, rs2),
            InstCode::Sltu(rd, rs1, rs2) => DecodeClass::TwoSrcDest(rd, rs1, rs2),
            InstCode::Xor(rd, rs1, rs2) => DecodeClass::TwoSrcDest(rd, rs1, rs2),
            InstCode::Div(rd, rs1, rs2) => DecodeClass::TwoSrcDest(rd, rs1, rs2),
            InstCode::Srl(rd, rs1, rs2) => DecodeClass::TwoSrcDest(rd, rs1, rs2),
            InstCode::Sra(rd, rs1, rs2) => DecodeClass::TwoSrcDest(rd, rs1, rs2),
            InstCode::Or(rd, rs1, rs2) => DecodeClass::TwoSrcDest(rd, rs1, rs2),
            InstCode::Rem(rd, rs1, rs2) => DecodeClass::TwoSrcDest(rd, rs1, rs2),
            InstCode::And(rd, rs1, rs2) => DecodeClass::TwoSrcDest(rd, rs1, rs2),
            InstCode::Addw(rd, rs1, rs2) => DecodeClass::TwoSrcDest(rd, rs1, rs2),
            InstCode::Subw(rd, rs1, rs2) => DecodeClass::TwoSrcDest(rd, rs1, rs2),
            InstCode::Mulw(rd, rs1, rs2) => DecodeClass::TwoSrcDest(rd, rs1, rs2),
            InstCode::Divw(rd, rs1, rs2) => DecodeClass::TwoSrcDest(rd, rs1, rs2),
            InstCode::Sllw(rd, rs1, rs2) => DecodeClass::TwoSrcDest(rd, rs1, rs2),
            InstCode::Srlw(rd, rs1, rs2) => DecodeClass::TwoSrcDest(rd, rs1, rs2),
            InstCode::Sraw(rd, rs1, rs2) => DecodeClass::TwoSrcDest(rd, rs1, rs2),
            InstCode::Remw(rd, rs1, rs2) => DecodeClass::TwoSrcDest(rd, rs1, rs2),
            InstCode::Lb(rd, rs1, _) => DecodeClass::OneSrcDest(rd, rs1),
            InstCode::Lbu(rd, rs1, _) => DecodeClass::OneSrcDest(rd, rs1),
            InstCode::Lh(rd, rs1, _) => DecodeClass::OneSrcDest(rd, rs1),
            InstCode::Lhu(rd, rs1, _) => DecodeClass::OneSrcDest(rd, rs1),
            InstCode::Lw(rd, rs1, _) => DecodeClass::OneSrcDest(rd, rs1),
            InstCode::Lwu(rd, rs1, _) => DecodeClass::OneSrcDest(rd, rs1),
            InstCode::Ld(rd, rs1, _) => DecodeClass::OneSrcDest(rd, rs1),
            InstCode::Addi(rd, rs1, _) => DecodeClass::OneSrcDest(rd, rs1),
            InstCode::Slli(rd, rs1, _) => DecodeClass::OneSrcDest(rd, rs1),
            InstCode::Slliw(rd, rs1, _) => DecodeClass::OneSrcDest(rd, rs1),
            InstCode::Slti(rd, rs1, _) => DecodeClass::OneSrcDest(rd, rs1),
            InstCode::Sltiu(rd, rs1, _) => DecodeClass::OneSrcDest(rd, rs1),
            InstCode::Xori(rd, rs1, _) => DecodeClass::OneSrcDest(rd, rs1),
            InstCode::Srli(rd, rs1, _) => DecodeClass::OneSrcDest(rd, rs1),
            InstCode::Srliw(rd, rs1, _) => DecodeClass::OneSrcDest(rd, rs1),
            InstCode::Srai(rd, rs1, _) => DecodeClass::OneSrcDest(rd, rs1),
            InstCode::Sraiw(rd, rs1, _) => DecodeClass::OneSrcDest(rd, rs1),
            InstCode::Ori(rd, rs1, _) => DecodeClass::OneSrcDest(rd, rs1),
            InstCode::Andi(rd, rs1, _) => DecodeClass::OneSrcDest(rd, rs1),
            InstCode::Addiw(rd, rs1, _) => DecodeClass::OneSrcDest(rd, rs1),
            InstCode::Jalr(rd, rs1, _) => DecodeClass::OneSrcDest(rd, rs1),
            InstCode::Ecall => DecodeClass::EcallArgs,
            InstCode::Sb(rs1, rs2, _) => DecodeClass::TwoSrc(rs1, rs2),
            InstCode::Sh(rs1, rs2, _) => DecodeClass::TwoSrc(rs1, rs2),
            InstCode::Sw(rs1, rs2, _) => DecodeClass::TwoSrc(rs1, rs2),
            InstCode::Sd(rs1, rs2, _) => DecodeClass::TwoSrc(rs1, rs2),
            InstCode::Beq(rs1, rs2, _) => DecodeClass::TwoSrc(rs1, rs2),
            InstCode::Bne(rs1, rs2, _) => DecodeClass::TwoSrc(rs1, rs2),
            InstCode::Blt(rs1, rs2, _) => DecodeClass::TwoSrc(rs1, rs2),
            InstCode::Bge(rs1, rs2, _) => DecodeClass::TwoSrc(rs1, rs2),
            InstCode::Bltu(rs1, rs2, _) => DecodeClass::TwoSrc(rs1, rs2),
            InstCode::Bgeu(rs1, rs2, _) => DecodeClass::TwoSrc(rs1, rs2),
            InstCode::Auipc(rd, _) => DecodeClass::DestOnly(rd),
            InstCode::Lui(rd, _) => DecodeClass::DestOnly(rd),
            InstCode::Jal(rd, _) => DecodeClass::DestOnly(rd),
            _ => DecodeClass::Passive,
        }
    }

    /// The destination register of this operation, if it has one.
    pub fn dest_reg(&self) -> (r: Option<RegID>)
        ensures
            r == dest_of(*self),
    {
        match self.class_of() {
            DecodeClass::TwoSrcDest(rd, _, _) => Some(rd),
            DecodeClass::OneSrcDest(rd, _) => Some(rd),
            DecodeClass::DestOnly(rd) => Some(rd),
            _ => None,
        }
    }

    /// Whether this operation reads memory.
    pub fn mem_read(&self) -> (r: bool)
        ensures
            r == is_load(*self),
    {
        matches!(
            *self,
            InstCode::Lb(_, _, _) | InstCode::Lbu(_, _, _) | InstCode::Lh(_, _, _) | InstCode::Lhu(
                _,
                _,
                _,
            ) | InstCode::Lw(_, _, _) | InstCode::Lwu(_, _, _) | InstCode::Ld(_, _, _)
        )
    }
}

/// Why a cycle halted the simulation: the cause (with the address or value
/// that identifies it) of the single warning or exit notice the driver
/// reports for a fatal runtime error.
#[derive(Debug, Clone, Copy, PartialEq, Eq, Structural)]
pub enum HaltCause {
    /// Four bytes could not be read at this fetch address.
    FetchFault(u64),
    /// The fetch at this address crossed a VMA boundary.
    FetchAcrossVmas(u64),
    /// The word does not decode to any known instruction.
    UnknownInstruction(u32),
    /// The compressed word does not decode to any known instruction.
    UnknownCompressed(u16),
    /// A floating-point compressed instruction.
    IllegalFloatCompressed(u16),
    /// An encoding of 48 bits or more at this fetch address.
    ProlongedEncoding(u64),
    /// A recognized operation the machine does not simulate.
    UnsupportedInstruction(InstCode),
    /// Division by zero at this instruction address.
    DivideByZero(u64),
    /// Remainder by zero at this instruction address.
    RemainderByZero(u64),
    /// An `ecall` whose function code (a7) is recognized but not simulated.
    EcallUnsimulated(u64),
    /// A terminating `ecall` (a7 = 93, or a0 = 10); carries (a7, a0).
    EcallExit(u64, u64),
    /// An `ecall` whose function code (a7) is unknown.
    EcallUnknown(u64),
    /// A load at this address hit unmapped or unreadable memory.
    LoadFault(u64),
    /// A load at this address crossed a VMA boundary.
    LoadAcrossVmas(u64),
    /// A store at this address hit unmapped or unwritable memory.
    StoreFault(u64),
}

/// The cause a halting cycle of this instruction reports. It is consulted
/// only when the cycle actually retired with the halt sentinel: branch
/// retirement, normal Writeback retirement and a clean fetch at the
/// sentinel report nothing, and a store names its cause whether or not the
/// store would fail. The memory-consulting cases read only state a fatal
/// cycle leaves unchanged (the VMAs and the program counter), so the cause
/// may be computed after the cycle.
pub open spec fn spec_halt_cause(inst: Inst, m: MachineView) -> Option<HaltCause> {
    match inst.stage {
        Stage::Fetch => {
            if m.program_counter == HLT_ADDR {
                None
            } else {
                match spec_mem_load(m.vmas, m.program_counter, 4, true) {
                    None => Some(HaltCause::FetchFault(m.program_counter)),
                    Some(p) => {
                        if p.1 != 0 {
                            Some(HaltCause::FetchAcrossVmas(m.program_counter))
                        } else {
                            let raw = spec_u32_from_le_bytes(p.0);
                            let cl = InstCode::spec_parse((raw & 0xFFFF) as u16, (raw >> 16) as u16);
                            match cl.0 {
                                InstCode::Unknown(w) => Some(HaltCause::UnknownInstruction(w)),
                                InstCode::UnknownC(w) => Some(HaltCause::UnknownCompressed(w)),
                                InstCode::IllegalCf(w) => Some(
                                    HaltCause::IllegalFloatCompressed(w),
                                ),
                                InstCode::IllegalProlonged => Some(
                                    HaltCause::ProlongedEncoding(m.program_counter),
                                ),
                                _ => if !supported(cl.0) {
                                    Some(HaltCause::UnsupportedInstruction(cl.0))
                                } else {
                                    None
                                },
                            }
                        }
                    },
                }
            }
        },
        Stage::Decode => None,
        Stage::Execute => match inst.code {
            InstCode::Div(_, _, _) | InstCode::Divw(_, _, _) => if inst.val2 == 0 {
                Some(HaltCause::DivideByZero(inst.pc))
            } else {
                None
            },
            InstCode::Rem(_, _, _) | InstCode::Remw(_, _, _) => if inst.val2 == 0 {
                Some(HaltCause::RemainderByZero(inst.pc))
            } else {
                None
            },
            InstCode::Ecall => {
                let f = inst.val_e;
                if f == 93 {
                    Some(HaltCause::EcallExit(f, inst.val1))
                } else if f == 57 || f == 80 || f == 62 || f == 214 || f == 64 || f == 63 {
                    Some(HaltCause::EcallUnsimulated(f))
                } else if inst.val1 == 10 {
                    Some(HaltCause::EcallExit(f, inst.val1))
                } else if inst.val1 == 1 {
                    None
                } else {
                    Some(HaltCause::EcallUnknown(f))
                }
            },
            _ => None,
        },
        Stage::Memory => match inst.code {
            InstCode::Lb(_, _, _) | InstCode::Lbu(_, _, _) => spec_load_cause(inst.val_e, 1, m),
            InstCode::Lh(_, _, _) | InstCode::Lhu(_, _, _) => spec_load_cause(inst.val_e, 2, m),
            InstCode::Lw(_, _, _) | InstCode::Lwu(_, _, _) => spec_load_cause(inst.val_e, 4, m),
            InstCode::Ld(_, _, _) => spec_load_cause(inst.val_e, 8, m),
            InstCode::Sb(_, _, _) | InstCode::Sh(_, _, _) | InstCode::Sw(_, _, _) | InstCode::Sd(
                _,
                _,
                _,
            ) => Some(HaltCause::StoreFault(inst.val_e)),
            _ => None,
        },
        Stage::Writeback => None,
    }
}

/// The cause a failing load of `sz` bytes at `addr` reports.
pub open spec fn spec_load_cause(addr: u64, sz: usize, m: MachineView) -> Option<HaltCause> {
    match spec_mem_load(m.vmas, addr, sz, false) {
        None => Some(HaltCause::LoadFault(addr)),
        Some(p) => if p.1 != 0 {
            Some(HaltCause::LoadAcrossVmas(addr))
        } else {
            None
        },
    }
}

impl Inst {
    /// The warning (or exit notice) a halting cycle of this instruction
    /// reports, per `spec_halt_cause`.
    pub fn halt_cause(&self, prog: &Program) -> (r: Option<HaltCause>)
        requires
            prog.wf(),
        ensures
            r == spec_halt_cause(*self, prog@),
    {
        match self.stage {
            Stage::Fetch => {
                if prog.program_counter == HLT_ADDR {
                    return None;
                }
                match prog.mem_load(prog.program_counter, 4, true) {
                    None => Some(HaltCause::FetchFault(prog.program_counter)),
                    Some((data, rem)) => {
                        if rem != 0 {
                            return Some(HaltCause::FetchAcrossVmas(prog.program_counter));
                        }
                        assert(data@.len() == 4);
                        let raw = u32_from_le_bytes(data.as_slice());
                        let (code, _) = InstCode::parse((raw & 0xFFFF) as u16, (raw >> 16) as u16);
                        match code {
                            InstCode::Unknown(w) => Some(HaltCause::UnknownInstruction(w)),
                            InstCode::UnknownC(w) => Some(HaltCause::UnknownCompressed(w)),
                            InstCode::IllegalCf(w) => Some(HaltCause::IllegalFloatCompressed(w)),
                            InstCode::IllegalProlonged => Some(
                                HaltCause::ProlongedEncoding(prog.program_counter),
                            ),
                            InstCode::Fence(_, _) | InstCode::FenceI | InstCode::Csrrw(_, _, _)
                                | InstCode::Csrrs(_, _, _) | InstCode::Csrrc(_, _, _)
                                | InstCode::Csrrwi(_, _, _) | InstCode::Csrrsi(_, _, _)
                                | InstCode::Csrrci(_, _, _) | InstCode::Ebreak | InstCode::Uret
                                | InstCode::Sret | InstCode::Mret | InstCode::Wfi
                                | InstCode::SfenceVma(_, _) | InstCode::DivRem(_, _, _, _) => Some(
                                HaltCause::UnsupportedInstruction(code),
                            ),
                            _ => None,
                        }
                    },
                }
            },
            Stage::Decode => None,
            Stage::Execute => match self.code {
                InstCode::Div(_, _, _) | InstCode::Divw(_, _, _) => {
                    if self.val2 == 0 {
                        Some(HaltCause::DivideByZero(self.pc))
                    } else {
                        None
                    }
                },
                InstCode::Rem(_, _, _) | InstCode::Remw(_, _, _) => {
                    if self.val2 == 0 {
                        Some(HaltCause::RemainderByZero(self.pc))
                    } else {
                        None
                    }
                },
                InstCode::Ecall => {
                    let f = self.val_e;
                    if f == 93 {
                        Some(HaltCause::EcallExit(f, self.val1))
                    } else if f == 57 || f == 80 || f == 62 || f == 214 || f == 64 || f == 63 {
                        Some(HaltCause::EcallUnsimulated(f))
                    } else if self.val1 == 10 {
                        Some(HaltCause::EcallExit(f, self.val1))
                    } else if self.val1 == 1 {
                        None
                    } else {
                        Some(HaltCause::EcallUnknown(f))
                    }
                },
                _ => None,
            },
            Stage::Memory => match self.code {
                InstCode::Lb(_, _, _) | InstCode::Lbu(_, _, _) => self.load_cause(prog, 1),
                InstCode::Lh(_, _, _) | InstCode::Lhu(_, _, _) => self.load_cause(prog, 2),
                InstCode::Lw(_, _, _) | InstCode::Lwu(_, _, _) => self.load_cause(prog, 4),
                InstCode::Ld(_, _, _) => self.load_cause(prog, 8),
                InstCode::Sb(_, _, _) | InstCode::Sh(_, _, _) | InstCode::Sw(_, _, _)
                    | InstCode::Sd(_, _, _) => Some(HaltCause::StoreFault(self.val_e)),
                _ => None,
            },
            Stage::Writeback => None,
        }
    }

    /// The cause a failing load of `sz` bytes at the computed address
    /// reports.
    fn load_cause(&self, prog: &Program, sz: usize) -> (r: Option<HaltCause>)
        requires
            prog.wf(),
        ensures
            r == spec_load_cause(self.val_e, sz, prog@),
    {
        match prog.mem_load(self.val_e, sz, false) {
            None => Some(HaltCause::LoadFault(self.val_e)),
            Some((_, rem)) => {
                if rem != 0 {
                    Some(HaltCause::LoadAcrossVmas(self.val_e))
                } else {
                    None
                }
            },
        }
    }
}

/// How many destination claims the in-flight instruction holds on register
/// index `i`: one claim on its destination from the moment Decode completes
/// (it enters Execute) until Writeback completes.
pub open spec fn claims_of(inst: Inst, i: int) -> nat {
    if inst.stage == Stage::Execute || inst.stage == Stage::Memory || inst.stage
        == Stage::Writeback {
        match dest_of(inst.code) {
            Some(rd) => if rd.spec_encode() == i {
                1nat
            } else {
                0nat
            },
            None => 0nat,
        }
    } else {
        0nat
    }
}

/// The claims the outcome of one cycle still holds on register index `i`:
/// those of the surviving instruction, none after retirement.
pub open spec fn claims_after(r: Result<Inst, u64>, i: int) -> nat {
    match r {
        Ok(inst) => claims_of(inst, i),
        Err(_) => 0nat,
    }
}

/// One cycle of the stage machine moves each register's write-pending
/// count exactly with the claims the instruction holds on it: Decode's
/// completion adds the claim, retirement from Writeback (or release on a
/// fatal fault) removes it, and every other step leaves the counts alone.
pub proof fn lemma_advance_claims(inst: Inst, m: MachineView)
    requires
        m.registers.len() == 32,
        advance_wf(inst, m),
    ensures
        spec_advance(inst, m).1.registers.len() == 32,
        forall|i: int|
            0 <= i < 32 ==> #[trigger] spec_advance(inst, m).1.registers[i].write_cnt
                == m.registers[i].write_cnt + claims_after(spec_advance(inst, m).0, i) - claims_of(
                inst,
                i,
            ),
    decreases 0int,
{
    let o = spec_advance(inst, m);
    match inst.stage {
        Stage::Fetch => {
        },
        Stage::Decode => {
            lemma_stage_claims_decode(inst, m);
        },
        Stage::Execute => {
            lemma_stage_claims_execute(inst, m);
        },
        Stage::Memory => {
            lemma_stage_claims_memory(inst, m);
        },
        Stage::Writeback => {
            lemma_stage_claims_writeback(inst, m);
        },
    }
}

proof fn lemma_stage_claims_decode(inst: Inst, m: MachineView)
    requires
        m.registers.len() == 32,
        advance_wf(inst, m),
        inst.stage == Stage::Decode,
    ensures
        spec_decode(inst, m).1.registers.len() == 32,
        forall|i: int|
            0 <= i < 32 ==> #[trigger] spec_decode(inst, m).1.registers[i].write_cnt
                == m.registers[i].write_cnt + claims_after(spec_decode(inst, m).0, i) - claims_of(
                inst,
                i,
            ),
{
}

/// The Execute effect is consistent with the operation's destination: a
/// release names the destination, and the effects that retire without a
/// release belong to operations without one.
#[verifier::rlimit(100)]
pub proof fn lemma_exec_effect_dest(inst: Inst)
    ensures
        match spec_exec_effect(inst) {
            ExecEffect::FaultUnlock(rd) => dest_of(inst.code) == Some(rd),
            ExecEffect::Halt => dest_of(inst.code) is None,
            ExecEffect::Branch(_) => dest_of(inst.code) is None,
            _ => true,
        },
{
}

proof fn lemma_stage_claims_execute(inst: Inst, m: MachineView)
    requires
        m.registers.len() == 32,
        advance_wf(inst, m),
        inst.stage == Stage::Execute,
    ensures
        spec_execute(inst, m).1.registers.len() == 32,
        forall|i: int|
            0 <= i < 32 ==> #[trigger] spec_execute(inst, m).1.registers[i].write_cnt
                == m.registers[i].write_cnt + claims_after(spec_execute(inst, m).0, i) - claims_of(
                inst,
                i,
            ),
{
    broadcast use crate::register::lemma_forward_cnt;
    broadcast use crate::register::lemma_unlock_cnt;

    lemma_exec_effect_dest(inst);
}

proof fn lemma_stage_claims_memory(inst: Inst, m: MachineView)
    requires
        m.registers.len() == 32,
        advance_wf(inst, m),
        inst.stage == Stage::Memory,
    ensures
        spec_memory(inst, m).1.registers.len() == 32,
        forall|i: int|
            0 <= i < 32 ==> #[trigger] spec_memory(inst, m).1.registers[i].write_cnt
                == m.registers[i].write_cnt + claims_after(spec_memory(inst, m).0, i) - claims_of(
                inst,
                i,
            ),
{
}

proof fn lemma_stage_claims_writeback(inst: Inst, m: MachineView)
    requires
        m.registers.len() == 32,
        advance_wf(inst, m),
        inst.stage == Stage::Writeback,
    ensures
        spec_writeback(inst, m).1.registers.len() == 32,
        forall|i: int|
            0 <= i < 32 ==> #[trigger] spec_writeback(inst, m).1.registers[i].write_cnt
                == m.registers[i].write_cnt + claims_after(spec_writeback(inst, m).0, i)
                - claims_of(inst, i),
{
}

} // verus!
