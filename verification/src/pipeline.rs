//! The five-stage pipeline driver: one slot per stage plus a dedicated
//! slot for the second multiplier cycle. Each simulated cycle advances the
//! slots back to front — an instruction vacating a later stage opens room
//! for its predecessor in the same cycle — stalls on structural and data
//! hazards, bubbles younger slots on control hazards, and accumulates the
//! cycle, instruction and hazard counters.
//!
//! A cycle is a total function of the pipeline and the machine
//! (`spec_pipe_step`); the executable `step` is proved to produce exactly
//! that, so a whole run is reproducible from the initial state alone.

use vstd::prelude::*;
use crate::HLT_ADDR;
use crate::inst::InstCode;
use crate::inst::Stage;
use crate::program::LibFunc;
use crate::program::MachineView;
use crate::program::Program;
use crate::program::spec_cstring;
use crate::program::spec_lib_lookup;
use crate::regid::RegID;
use crate::register::regs_clear_forward;
use crate::register::regs_read;
use crate::sequential::SimOutput;
use crate::sequential::SimOutputView;
use crate::step::Inst;
use crate::step::claims_after;
use crate::step::claims_of;
use crate::step::dest_of;
use crate::step::lemma_advance_claims;
use crate::step::spec_advance;
use crate::step::spec_halt_cause;
use crate::step::supported;

verus! {

/// The pipeline: in-flight instructions by stage (the Fetch position needs
/// no slot), the pending program counter, and the CPI bookkeeping.
#[derive(Debug)]
pub struct Pipeline {
    pub decode: Option<Inst>,
    pub execute: Option<Inst>,
    /// Second cycle of a two-cycle multiplication.
    pub execute_mult: Option<Inst>,
    pub memory: Option<Inst>,
    pub writeback: Option<Inst>,
    /// The program counter the next fetch will commit.
    pub next_pc: u64,
    /// Whether CPI collection has started (a committed fetch PC equal to
    /// the configured start PC).
    pub started: bool,
    pub cycles: u128,
    pub instructions: u128,
    pub data_hazards: u128,
    pub control_hazards: u128,
}

/// The destination claims a slot's occupant holds on register index `i`.
pub open spec fn slot_claims(s: Option<Inst>, i: int) -> nat {
    match s {
        Some(inst) => claims_of(inst, i),
        None => 0nat,
    }
}

/// The claims all in-flight instructions hold on register index `i`.
pub open spec fn pipe_claims(p: Pipeline, i: int) -> nat {
    (slot_claims(p.decode, i) + slot_claims(p.execute, i) + slot_claims(p.execute_mult, i)
        + slot_claims(p.memory, i) + slot_claims(p.writeback, i)) as nat
}

/// A slot either is empty or holds a supported instruction in the slot's
/// stage.
pub open spec fn slot_ok(s: Option<Inst>, stage: Stage) -> bool {
    match s {
        None => true,
        Some(inst) => inst.stage == stage && supported(inst.code),
    }
}

/// The progress constraint of the Execute slot: a multiplication has not
/// yet spent its first cycle, a division has not finished spinning.
pub open spec fn exec_progress_ok(inst: Inst) -> bool {
    match inst.code {
        InstCode::Mul(_, _, _) | InstCode::Mulh(_, _, _) => inst.progress == 0,
        InstCode::Div(_, _, _) | InstCode::Divw(_, _, _) | InstCode::Rem(_, _, _)
            | InstCode::Remw(_, _, _) => inst.progress <= 39,
        _ => true,
    }
}

/// The pipeline invariant: every slot is well-placed, and each register's
/// write-pending count equals the number of in-flight instructions that
/// have passed Decode and not yet completed Writeback with it as
/// destination.
pub open spec fn pipe_inv(p: Pipeline, m: MachineView) -> bool {
    &&& m.registers.len() == 32
    &&& slot_ok(p.decode, Stage::Decode)
    &&& (match p.decode {
        Some(inst) => inst.progress == 0,
        None => true,
    })
    &&& slot_ok(p.execute, Stage::Execute)
    &&& (match p.execute {
        Some(inst) => exec_progress_ok(inst),
        None => true,
    })
    &&& slot_ok(p.execute_mult, Stage::Execute)
    &&& (match p.execute_mult {
        Some(inst) => (inst.code matches InstCode::Mul(_, _, _) || inst.code
            matches InstCode::Mulh(_, _, _)) && inst.progress == 1,
        None => true,
    })
    &&& slot_ok(p.memory, Stage::Memory)
    &&& slot_ok(p.writeback, Stage::Writeback)
    &&& forall|i: int| 0 <= i < 32 ==> #[trigger] m.registers[i].write_cnt == pipe_claims(p, i)
}

/// All slots are empty.
pub open spec fn pipe_empty(p: Pipeline) -> bool {
    &&& p.decode is None
    &&& p.execute is None
    &&& p.execute_mult is None
    &&& p.memory is None
    &&& p.writeback is None
}

/// After a fatal memory fault the pipeline is drained: everything is
/// flushed and the pending program counter is the halt sentinel. The
/// claims of the flushed instructions are reconciled only by the halt.
pub open spec fn pipe_drained(p: Pipeline, m: MachineView) -> bool {
    &&& m.registers.len() == 32
    &&& pipe_empty(p)
    &&& p.next_pc == HLT_ADDR
}

/// The Writeback phase: the oldest instruction retires, counted once CPI
/// collection has started.
#[verifier::opaque]
pub open spec fn spec_wb_phase(p: Pipeline, m: MachineView) -> (Pipeline, MachineView, bool) {
    match p.writeback {
        None => (p, m, false),
        Some(inst) => {
            let o = spec_advance(inst, m);
            let instructions2 = if p.started {
                (p.instructions + 1) as u128
            } else {
                p.instructions
            };
            (
                Pipeline { writeback: None, instructions: instructions2, ..p },
                o.1,
                true,
            )
        },
    }
}

/// The Memory phase: the occupant moves to Writeback, or faults — which
/// flushes every younger slot, reports the cause and halts.
#[verifier::opaque]
pub open spec fn spec_mem_phase(p: Pipeline, m: MachineView) -> (
    Pipeline,
    MachineView,
    bool,
    Seq<SimOutputView>,
) {
    match p.memory {
        None => (p, m, false, Seq::empty()),
        Some(inst) => {
            let o = spec_advance(inst, m);
            match o.0 {
                Ok(i2) => (
                    Pipeline { memory: None, writeback: Some(i2), ..p },
                    o.1,
                    true,
                    Seq::empty(),
                ),
                Err(_) => {
                    let instructions2 = if p.started {
                        (p.instructions + 1) as u128
                    } else {
                        p.instructions
                    };
                    let outs: Seq<SimOutputView> = match spec_halt_cause(inst, o.1) {
                        Some(c) => seq![SimOutputView::Halt(c)],
                        None => Seq::empty(),
                    };
                    (
                        Pipeline {
                            decode: None,
                            execute: None,
                            execute_mult: None,
                            memory: None,
                            next_pc: HLT_ADDR,
                            instructions: instructions2,
                            ..p
                        },
                        o.1,
                        true,
                        outs,
                    )
                },
            }
        },
    }
}

/// The multiplier phase-2 slot: its occupant moves to Memory when that
/// slot is free, else stalls.
#[verifier::opaque]
pub open spec fn spec_mult_phase(p: Pipeline, m: MachineView) -> (Pipeline, MachineView, bool) {
    match p.execute_mult {
        None => (p, m, false),
        Some(inst) => {
            if p.memory is None {
                let o = spec_advance(inst, m);
                match o.0 {
                    Ok(i2) => (
                        Pipeline { execute_mult: None, memory: Some(i2), ..p },
                        o.1,
                        true,
                    ),
                    Err(_) => (p, m, true),
                }
            } else {
                (p, m, true)
            }
        },
    }
}

/// The Execute phase: multiplications migrate to the phase-2 slot,
/// divisions spin in place, jumps and taken branches flush the younger
/// slots and redirect the fetch, everything else moves to Memory when it
/// is free.
#[verifier::opaque]
pub open spec fn spec_exec_phase(p: Pipeline, m: MachineView) -> (
    Pipeline,
    MachineView,
    bool,
    Seq<SimOutputView>,
) {
    match p.execute {
        None => (p, m, false, Seq::empty()),
        Some(inst) => {
            match inst.code {
                InstCode::Mul(_, _, _) | InstCode::Mulh(_, _, _) => {
                    if p.execute_mult is None {
                        let o = spec_advance(inst, m);
                        match o.0 {
                            Ok(i2) => (
                                Pipeline { execute: None, execute_mult: Some(i2), ..p },
                                o.1,
                                true,
                                Seq::empty(),
                            ),
                            Err(_) => (p, m, true, Seq::empty()),
                        }
                    } else {
                        (p, m, true, Seq::empty())
                    }
                },
                InstCode::Div(_, _, _) | InstCode::Divw(_, _, _) | InstCode::Rem(_, _, _)
                    | InstCode::Remw(_, _, _) => {
                    if inst.progress <= 38 || p.memory is None {
                        let o = spec_advance(inst, m);
                        match o.0 {
                            Ok(i2) => {
                                if i2.stage == Stage::Memory {
                                    (
                                        Pipeline { execute: None, memory: Some(i2), ..p },
                                        o.1,
                                        true,
                                        Seq::empty(),
                                    )
                                } else {
                                    (
                                        Pipeline { execute: Some(i2), ..p },
                                        o.1,
                                        true,
                                        Seq::empty(),
                                    )
                                }
                            },
                            Err(_) => {
                                // Division by zero: flush the younger slots,
                                // report the cause and halt.
                                let instructions2 = if p.started {
                                    (p.instructions + 1) as u128
                                } else {
                                    p.instructions
                                };
                                let outs: Seq<SimOutputView> = match spec_halt_cause(inst, o.1) {
                                    Some(c) => seq![SimOutputView::Halt(c)],
                                    None => Seq::empty(),
                                };
                                (
                                    Pipeline {
                                        decode: None,
                                        execute: None,
                                        next_pc: HLT_ADDR,
                                        instructions: instructions2,
                                        ..p
                                    },
                                    o.1,
                                    true,
                                    outs,
                                )
                            },
                        }
                    } else {
                        (p, m, true, Seq::empty())
                    }
                },
                _ => {
                    if p.memory is None {
                        let o = spec_advance(inst, m);
                        let outs: Seq<SimOutputView> = if inst.code == InstCode::Ecall && o.0
                            is Ok {
                            seq![SimOutputView::EcallPrint(inst.val2)]
                        } else {
                            Seq::empty()
                        };
                        match o.0 {
                            Ok(i2) => {
                                let jump = i2.code matches InstCode::Jal(_, _) || i2.code
                                    matches InstCode::Jalr(_, _, _);
                                if jump {
                                    let hazards2 = if p.started {
                                        (p.control_hazards + 1) as u128
                                    } else {
                                        p.control_hazards
                                    };
                                    (
                                        Pipeline {
                                            decode: None,
                                            execute: None,
                                            memory: Some(i2),
                                            next_pc: i2.next_pc,
                                            control_hazards: hazards2,
                                            ..p
                                        },
                                        o.1,
                                        true,
                                        outs,
                                    )
                                } else {
                                    (
                                        Pipeline { execute: None, memory: Some(i2), ..p },
                                        o.1,
                                        true,
                                        outs,
                                    )
                                }
                            },
                            Err(branch) => {
                                // A taken branch (or a terminating system
                                // call) retires here and redirects the
                                // fetch; a terminating call reports its
                                // cause.
                                let hazards2 = if p.started {
                                    (p.control_hazards + 1) as u128
                                } else {
                                    p.control_hazards
                                };
                                let instructions2 = if p.started {
                                    (p.instructions + 1) as u128
                                } else {
                                    p.instructions
                                };
                                let outs2: Seq<SimOutputView> = match spec_halt_cause(inst, o.1) {
                                    Some(c) => seq![SimOutputView::Halt(c)],
                                    None => Seq::empty(),
                                };
                                (
                                    Pipeline {
                                        decode: None,
                                        execute: None,
                                        next_pc: branch,
                                        control_hazards: hazards2,
                                        instructions: instructions2,
                                        ..p
                                    },
                                    o.1,
                                    true,
                                    outs2,
                                )
                            },
                        }
                    } else {
                        (p, m, true, Seq::empty())
                    }
                },
            }
        },
    }
}

/// The Decode phase: the occupant moves to Execute when it is free and all
/// its sources are ready; a not-ready source is a data hazard.
#[verifier::opaque]
pub open spec fn spec_decode_phase(p: Pipeline, m: MachineView) -> (Pipeline, MachineView, bool) {
    match p.decode {
        None => (p, m, false),
        Some(inst) => {
            if p.execute is None {
                let o = spec_advance(inst, m);
                match o.0 {
                    Ok(i2) => {
                        if i2.stage == Stage::Execute {
                            (Pipeline { decode: None, execute: Some(i2), ..p }, o.1, true)
                        } else {
                            let hazards2 = if p.started {
                                (p.data_hazards + 1) as u128
                            } else {
                                p.data_hazards
                            };
                            (
                                Pipeline { decode: Some(i2), data_hazards: hazards2, ..p },
                                o.1,
                                true,
                            )
                        }
                    },
                    Err(_) => (p, m, true),
                }
            } else {
                (p, m, true)
            }
        },
    }
}

/// The fetch phase: intercept a simulated library call at the pending PC
/// (a not-ready argument register stalls the fetch as a data hazard),
/// commit the PC, and fill the Decode slot from memory unless it is
/// occupied or the PC is the halt sentinel. CPI collection starts the
/// first cycle the committed fetch PC equals the configured start PC, and
/// the cycle counter advances here once it has.
#[verifier::opaque]
pub open spec fn spec_fetch_phase(p: Pipeline, m: MachineView, start_pc: u64) -> (
    Pipeline,
    MachineView,
    bool,
    Seq<SimOutputView>,
) {
    let shim = spec_lib_lookup(m.lib_funcs, p.next_pc, 0);
    let stalled = match shim {
        Some(LibFunc::Puts) => regs_read(m.registers, RegID::X10) is None,
        _ => false,
    };
    if shim is Some && stalled {
        // Data hazard on the shim's argument register: keep fetching from
        // this special address next cycle.
        let cycles2 = if p.started {
            (p.cycles + 1) as u128
        } else {
            p.cycles
        };
        let hazards2 = if p.started {
            (p.data_hazards + 1) as u128
        } else {
            p.data_hazards
        };
        (Pipeline { cycles: cycles2, data_hazards: hazards2, ..p }, m, true, Seq::empty())
    } else {
        let outs: Seq<SimOutputView> = match shim {
            Some(LibFunc::Puts) => {
                let a0 = match regs_read(m.registers, RegID::X10) {
                    Some(v) => v,
                    None => 0u64,
                };
                match spec_cstring(m.vmas, a0) {
                    None => seq![SimOutputView::PutsFault(a0)],
                    Some(bytes) => seq![SimOutputView::Puts(bytes)],
                }
            },
            _ => Seq::empty(),
        };
        let next1: u64 = match shim {
            Some(LibFunc::Puts) => {
                let a0 = match regs_read(m.registers, RegID::X10) {
                    Some(v) => v,
                    None => 0u64,
                };
                match spec_cstring(m.vmas, a0) {
                    None => HLT_ADDR,
                    Some(_) => vstd::wrapping::u64_specs::wrapping_add(m.program_counter, 4),
                }
            },
            Some(LibFunc::Printf) => HLT_ADDR,
            None => p.next_pc,
        };
        let worked_shim = shim is Some;
        let started2 = p.started || next1 == start_pc;
        let m2 = MachineView { program_counter: next1, ..m };
        if next1 != HLT_ADDR && p.decode is None {
            let o = spec_advance(Inst::spec_new(), m2);
            match o.0 {
                Ok(fetched) => {
                    let cycles2 = if started2 {
                        (p.cycles + 1) as u128
                    } else {
                        p.cycles
                    };
                    (
                        Pipeline {
                            decode: Some(fetched),
                            next_pc: fetched.next_pc,
                            started: started2,
                            cycles: cycles2,
                            ..p
                        },
                        o.1,
                        true,
                        outs,
                    )
                },
                Err(_) => {
                    let cycles2 = if started2 {
                        (p.cycles + 1) as u128
                    } else {
                        p.cycles
                    };
                    let outs2: Seq<SimOutputView> = match spec_halt_cause(Inst::spec_new(), o.1) {
                        Some(c) => seq![SimOutputView::Halt(c)],
                        None => Seq::empty(),
                    };
                    (
                        Pipeline { next_pc: HLT_ADDR, started: started2, cycles: cycles2, ..p },
                        o.1,
                        worked_shim,
                        outs + outs2,
                    )
                },
            }
        } else {
            let cycles2 = if started2 {
                (p.cycles + 1) as u128
            } else {
                p.cycles
            };
            (
                Pipeline { next_pc: next1, started: started2, cycles: cycles2, ..p },
                m2,
                worked_shim,
                outs,
            )
        }
    }
}

/// One simulated cycle: clear the forwarding slots, advance the stages
/// back to front, then fetch.
pub open spec fn spec_pipe_step(p: Pipeline, m: MachineView, start_pc: u64) -> (
    Pipeline,
    MachineView,
    Seq<SimOutputView>,
    bool,
) {
    let m1 = MachineView { registers: regs_clear_forward(m.registers), ..m };
    let b = spec_wb_phase(p, m1);
    let c = spec_mem_phase(b.0, b.1);
    let d = spec_mult_phase(c.0, c.1);
    let e = spec_exec_phase(d.0, d.1);
    let f = spec_decode_phase(e.0, e.1);
    let g = spec_fetch_phase(f.0, f.1, start_pc);
    (g.0, g.1, c.3 + e.3 + g.3, !(b.2 || c.2 || d.2 || e.2 || f.2 || g.2))
}

impl Pipeline {
    /// An empty pipeline about to fetch from `next_pc`.
    pub fn new(next_pc: u64) -> (r: Pipeline)
        ensures
            r == (Pipeline {
                decode: None::<Inst>,
                execute: None::<Inst>,
                execute_mult: None::<Inst>,
                memory: None::<Inst>,
                writeback: None::<Inst>,
                next_pc,
                started: false,
                cycles: 0u128,
                instructions: 0u128,
                data_hazards: 0u128,
                control_hazards: 0u128,
            }),
            pipe_empty(r),
    {
        Pipeline {
            decode: None,
            execute: None,
            execute_mult: None,
            memory: None,
            writeback: None,
            next_pc,
            started: false,
            cycles: 0,
            instructions: 0,
            data_hazards: 0,
            control_hazards: 0,
        }
    }

    fn wb_phase(&mut self, prog: &mut Program) -> (worked: bool)
        requires
            old(prog).wf(),
            old(self).instructions < u128::MAX,
            old(self).writeback is Some ==> pipe_inv(*old(self), old(prog)@),
        ensures
            final(prog).wf(),
            (*final(self), final(prog)@, worked) == spec_wb_phase(*old(self), old(prog)@),
            old(self).writeback is Some && pipe_inv(*old(self), old(prog)@) ==> pipe_inv(
                *final(self),
                final(prog)@,
            ),
            old(self).writeback is None ==> *final(self) == *old(self) && *final(prog) == *old(
                prog,
            ),
            final(self).instructions <= old(self).instructions + 1,
            final(self).cycles == old(self).cycles,
            final(self).data_hazards == old(self).data_hazards,
            final(self).control_hazards == old(self).control_hazards,
            final(self).writeback is None,
            final(self).memory == old(self).memory,
            final(self).execute == old(self).execute,
            final(self).execute_mult == old(self).execute_mult,
            final(self).decode == old(self).decode,
            final(self).next_pc == old(self).next_pc,
            final(prog)@.lib_funcs == old(prog)@.lib_funcs,
    {
        broadcast use crate::regid::lemma_spec_encode_bound;

        proof {
            reveal(spec_wb_phase);
        }
        match self.writeback {
            None => false,
            Some(inst) => {
                proof {
                    let idx = dest_of(inst.code);
                    match idx {
                        Some(rd) => {
                            assert(old(prog)@.registers[rd.spec_encode() as int].write_cnt
                                == pipe_claims(*old(self), rd.spec_encode() as int));
                        },
                        None => {},
                    }
                    lemma_advance_claims(inst, old(prog)@);
                }
                match inst.advance(prog) {
                    Ok(_) => {
                        proof {
                            assert(false);
                        }
                    },
                    Err(_) => {},
                }
                if self.started {
                    self.instructions = self.instructions + 1;
                }
                self.writeback = None;
                proof {
                    assert forall|i: int| 0 <= i < 32 implies #[trigger] prog@.registers[i].write_cnt == pipe_claims(*self, i) by {
                        assert(prog@.registers[i].write_cnt == old(prog)@.registers[i].write_cnt + claims_after(
                            spec_advance(inst, old(prog)@).0,
                            i,
                        ) - claims_of(inst, i));
                    }
                }
                true
            },
        }
    }

    #[verifier::rlimit(100)]
    fn mem_phase(&mut self, prog: &mut Program) -> (r: (bool, Vec<SimOutput>))
        requires
            old(prog).wf(),
            old(self).instructions < u128::MAX,
            old(self).writeback is None,
            old(self).memory is Some ==> pipe_inv(*old(self), old(prog)@),
        ensures
            final(prog).wf(),
            ({
                let c = spec_mem_phase(*old(self), old(prog)@);
                &&& (*final(self), final(prog)@, r.0) == (c.0, c.1, c.2)
                &&& r.1@.map_values(|o: SimOutput| o@) == c.3
            }),
            old(self).memory is Some && pipe_inv(*old(self), old(prog)@) ==> (pipe_inv(
                *final(self),
                final(prog)@,
            ) || pipe_drained(*final(self), final(prog)@)),
            old(self).memory is None ==> *final(self) == *old(self) && *final(prog) == *old(prog),
            final(self).instructions <= old(self).instructions + 1,
            final(self).cycles == old(self).cycles,
            final(self).data_hazards == old(self).data_hazards,
            final(self).control_hazards == old(self).control_hazards,
            final(prog)@.lib_funcs == old(prog)@.lib_funcs,
    {
        broadcast use crate::regid::lemma_spec_encode_bound;

        proof {
            reveal(spec_mem_phase);
        }
        let mut outs: Vec<SimOutput> = Vec::new();
        match self.memory {
            None => (false, outs),
            Some(inst) => {
                proof {
                    match dest_of(inst.code) {
                        Some(rd) => {
                            assert(old(prog)@.registers[rd.spec_encode() as int].write_cnt
                                == pipe_claims(*old(self), rd.spec_encode() as int));
                        },
                        None => {},
                    }
                    lemma_advance_claims(inst, old(prog)@);
                }
                match inst.advance(prog) {
                    Ok(i2) => {
                        proof {
                            assert(i2.stage == Stage::Writeback && i2.code == inst.code);
                        }
                        self.memory = None;
                        self.writeback = Some(i2);
                        proof {
                            assert forall|i: int| 0 <= i < 32 implies #[trigger] prog@.registers[i].write_cnt == pipe_claims(*self, i) by {
                                assert(prog@.registers[i].write_cnt == old(prog)@.registers[i].write_cnt + claims_after(
                                    spec_advance(inst, old(prog)@).0,
                                    i,
                                ) - claims_of(inst, i));
                            }
                        }
                    },
                    Err(_) => {
                        // Fatal memory access: flush everything younger,
                        // report the cause and halt. The flushed claims are
                        // reconciled by the halt itself.
                        if let Some(c) = inst.halt_cause(prog) {
                            outs.push(SimOutput::Halt(c));
                        }
                        self.decode = None;
                        self.execute = None;
                        self.execute_mult = None;
                        self.memory = None;
                        self.next_pc = HLT_ADDR;
                        if self.started {
                            self.instructions = self.instructions + 1;
                        }
                    },
                }
                proof {
                    let c = spec_mem_phase(*old(self), old(prog)@);
                    assert(outs@.map_values(|o: SimOutput| o@) =~= c.3);
                }
                (true, outs)
            },
        }
    }

    fn mult_phase(&mut self, prog: &mut Program) -> (worked: bool)
        requires
            old(prog).wf(),
            old(self).execute_mult is Some ==> pipe_inv(*old(self), old(prog)@),
        ensures
            final(prog).wf(),
            (*final(self), final(prog)@, worked) == spec_mult_phase(*old(self), old(prog)@),
            old(self).execute_mult is Some && pipe_inv(*old(self), old(prog)@) ==> pipe_inv(
                *final(self),
                final(prog)@,
            ),
            old(self).execute_mult is None ==> *final(self) == *old(self) && *final(prog) == *old(prog),
            final(self).instructions == old(self).instructions,
            final(self).cycles == old(self).cycles,
            final(self).data_hazards == old(self).data_hazards,
            final(self).control_hazards == old(self).control_hazards,
            final(prog)@.lib_funcs == old(prog)@.lib_funcs,
    {
        broadcast use crate::regid::lemma_spec_encode_bound;

        proof {
            reveal(spec_mult_phase);
        }
        match self.execute_mult {
            None => false,
            Some(inst) => {
                if self.memory.is_none() {
                    proof {
                        match dest_of(inst.code) {
                            Some(rd) => {
                                assert(old(prog)@.registers[rd.spec_encode() as int].write_cnt
                                    == pipe_claims(*old(self), rd.spec_encode() as int));
                            },
                            None => {},
                        }
                        lemma_advance_claims(inst, old(prog)@);
                    }
                    match inst.advance(prog) {
                        Ok(i2) => {
                            proof {
                                assert(i2.stage == Stage::Memory && i2.code == inst.code);
                            }
                            self.execute_mult = None;
                            self.memory = Some(i2);
                            proof {
                                assert forall|i: int| 0 <= i < 32 implies #[trigger] prog@.registers[i].write_cnt == pipe_claims(*self, i) by {
                                    assert(prog@.registers[i].write_cnt == old(prog)@.registers[i].write_cnt + claims_after(
                                        spec_advance(inst, old(prog)@).0,
                                        i,
                                    ) - claims_of(inst, i));
                                }
                            }
                        },
                        Err(_) => {
                            proof {
                                assert(false);
                            }
                        },
                    }
                    true
                } else {
                    // Structural stall: Memory is occupied.
                    true
                }
            },
        }
    }

    #[verifier::rlimit(100)]
    fn exec_phase(&mut self, prog: &mut Program) -> (r: (bool, Vec<SimOutput>))
        requires
            old(prog).wf(),
            old(self).instructions < u128::MAX,
            old(self).control_hazards < u128::MAX,
            old(self).execute is Some ==> pipe_inv(*old(self), old(prog)@),
        ensures
            final(prog).wf(),
            ({
                let e = spec_exec_phase(*old(self), old(prog)@);
                &&& (*final(self), final(prog)@, r.0) == (e.0, e.1, e.2)
                &&& r.1@.map_values(|o: SimOutput| o@) == e.3
            }),
            old(self).execute is Some && pipe_inv(*old(self), old(prog)@) ==> pipe_inv(
                *final(self),
                final(prog)@,
            ),
            old(self).execute is None ==> *final(self) == *old(self) && *final(prog) == *old(prog),
            final(self).instructions <= old(self).instructions + 1,
            final(self).control_hazards <= old(self).control_hazards + 1,
            final(self).cycles == old(self).cycles,
            final(self).data_hazards == old(self).data_hazards,
            final(prog)@.lib_funcs == old(prog)@.lib_funcs,
    {
        broadcast use crate::regid::lemma_spec_encode_bound;

        proof {
            reveal(spec_exec_phase);
        }
        let mut outs: Vec<SimOutput> = Vec::new();
        match self.execute {
            None => (false, outs),
            Some(inst) => {
                proof {
                    match dest_of(inst.code) {
                        Some(rd) => {
                            assert(old(prog)@.registers[rd.spec_encode() as int].write_cnt
                                == pipe_claims(*old(self), rd.spec_encode() as int));
                        },
                        None => {},
                    }
                    lemma_advance_claims(inst, old(prog)@);
                    crate::step::lemma_exec_effect_dest(inst);
                }
                if matches!(inst.code, InstCode::Mul(_, _, _) | InstCode::Mulh(_, _, _)) {
                    if self.execute_mult.is_none() {
                        match inst.advance(prog) {
                            Ok(i2) => {
                                proof {
                                    assert(i2.stage == Stage::Execute && i2.progress == 1
                                        && i2.code == inst.code);
                                }
                                self.execute = None;
                                self.execute_mult = Some(i2);
                                proof {
                                    assert forall|i: int| 0 <= i < 32 implies #[trigger] prog@.registers[i].write_cnt == pipe_claims(*self, i) by {
                                        assert(prog@.registers[i].write_cnt == old(prog)@.registers[i].write_cnt + claims_after(
                                            spec_advance(inst, old(prog)@).0,
                                            i,
                                        ) - claims_of(inst, i));
                                    }
                                }
                            },
                            Err(_) => {
                                proof {
                                    assert(false);
                                }
                            },
                        }
                        (true, outs)
                    } else {
                        (true, outs)
                    }
                } else if matches!(
                    inst.code,
                    InstCode::Div(_, _, _) | InstCode::Divw(_, _, _) | InstCode::Rem(_, _, _)
                        | InstCode::Remw(_, _, _)
                ) {
                    if inst.progress <= 38 || self.memory.is_none() {
                        match inst.advance(prog) {
                            Ok(i2) => {
                                proof {
                                    assert(i2.code == inst.code);
                                }
                                if i2.stage() == Stage::Execute {
                                    self.execute = Some(i2);
                                } else {
                                    proof {
                                        assert(i2.stage == Stage::Memory);
                                    }
                                    self.execute = None;
                                    self.memory = Some(i2);
                                }
                                proof {
                                    assert forall|i: int| 0 <= i < 32 implies #[trigger] prog@.registers[i].write_cnt == pipe_claims(*self, i) by {
                                        assert(prog@.registers[i].write_cnt == old(prog)@.registers[i].write_cnt + claims_after(
                                            spec_advance(inst, old(prog)@).0,
                                            i,
                                        ) - claims_of(inst, i));
                                    }
                                }
                            },
                            Err(_) => {
                                // Division by zero: the claim on the
                                // destination was already released; report
                                // the cause and halt.
                                if let Some(c) = inst.halt_cause(prog) {
                                    outs.push(SimOutput::Halt(c));
                                }
                                self.decode = None;
                                self.execute = None;
                                self.next_pc = HLT_ADDR;
                                if self.started {
                                    self.instructions = self.instructions + 1;
                                }
                                proof {
                                    assert forall|i: int| 0 <= i < 32 implies #[trigger] prog@.registers[i].write_cnt == pipe_claims(*self, i) by {
                                        assert(prog@.registers[i].write_cnt == old(prog)@.registers[i].write_cnt + claims_after(
                                            spec_advance(inst, old(prog)@).0,
                                            i,
                                        ) - claims_of(inst, i));
                                    }
                                }
                            },
                        }
                        proof {
                            let e = spec_exec_phase(*old(self), old(prog)@);
                            assert(outs@.map_values(|o: SimOutput| o@) =~= e.3);
                        }
                        (true, outs)
                    } else {
                        (true, outs)
                    }
                } else {
                    if self.memory.is_none() {
                        let is_print = matches!(inst.code, InstCode::Ecall);
                        let pval = inst.val2;
                        match inst.advance(prog) {
                            Ok(i2) => {
                                proof {
                                    assert(i2.stage == Stage::Memory && i2.code == inst.code);
                                }
                                if is_print {
                                    outs.push(SimOutput::EcallPrint(pval));
                                }
                                self.execute = None;
                                self.memory = Some(i2);
                                if matches!(i2.code(), InstCode::Jal(_, _)) || matches!(
                                    i2.code(),
                                    InstCode::Jalr(_, _, _),
                                ) {
                                    // Control hazard: flush the younger
                                    // slots; the corrected PC is fetched
                                    // next.
                                    self.next_pc = i2.next_pc();
                                    self.decode = None;
                                    if self.started {
                                        self.control_hazards = self.control_hazards + 1;
                                    }
                                }
                                proof {
                                    assert forall|i: int| 0 <= i < 32 implies #[trigger] prog@.registers[i].write_cnt == pipe_claims(*self, i) by {
                                        assert(prog@.registers[i].write_cnt == old(prog)@.registers[i].write_cnt + claims_after(
                                            spec_advance(inst, old(prog)@).0,
                                            i,
                                        ) - claims_of(inst, i));
                                    }
                                }
                            },
                            Err(branch) => {
                                // A terminating system call reports its
                                // cause; a taken branch reports nothing.
                                if let Some(c) = inst.halt_cause(prog) {
                                    outs.push(SimOutput::Halt(c));
                                }
                                self.next_pc = branch;
                                self.decode = None;
                                self.execute = None;
                                if self.started {
                                    self.control_hazards = self.control_hazards + 1;
                                    self.instructions = self.instructions + 1;
                                }
                                proof {
                                    assert forall|i: int| 0 <= i < 32 implies #[trigger] prog@.registers[i].write_cnt == pipe_claims(*self, i) by {
                                        assert(prog@.registers[i].write_cnt == old(prog)@.registers[i].write_cnt + claims_after(
                                            spec_advance(inst, old(prog)@).0,
                                            i,
                                        ) - claims_of(inst, i));
                                    }
                                }
                            },
                        }
                        proof {
                            let e = spec_exec_phase(*old(self), old(prog)@);
                            assert(outs@.map_values(|o: SimOutput| o@) =~= e.3);
                        }
                        (true, outs)
                    } else {
                        (true, outs)
                    }
                }
            },
        }
    }

    fn decode_phase(&mut self, prog: &mut Program) -> (worked: bool)
        requires
            old(prog).wf(),
            old(self).data_hazards < u128::MAX,
            old(self).decode is Some ==> pipe_inv(*old(self), old(prog)@),
        ensures
            final(prog).wf(),
            (*final(self), final(prog)@, worked) == spec_decode_phase(*old(self), old(prog)@),
            old(self).decode is Some && pipe_inv(*old(self), old(prog)@) ==> pipe_inv(
                *final(self),
                final(prog)@,
            ),
            old(self).decode is None ==> *final(self) == *old(self) && *final(prog) == *old(prog),
            final(self).instructions == old(self).instructions,
            final(self).cycles == old(self).cycles,
            final(self).data_hazards <= old(self).data_hazards + 1,
            final(self).control_hazards == old(self).control_hazards,
            final(prog)@.lib_funcs == old(prog)@.lib_funcs,
    {
        broadcast use crate::regid::lemma_spec_encode_bound;

        proof {
            reveal(spec_decode_phase);
        }
        match self.decode {
            None => false,
            Some(inst) => {
                if self.execute.is_none() {
                    proof {
                        match dest_of(inst.code) {
                            Some(rd) => {
                                let idx = rd.spec_encode() as int;
                                assert(old(prog)@.registers[idx].write_cnt == pipe_claims(
                                    *old(self),
                                    idx,
                                ));
                                assert(pipe_claims(*old(self), idx) <= 5);
                            },
                            None => {},
                        }
                        lemma_advance_claims(inst, old(prog)@);
                    }
                    match inst.advance(prog) {
                        Ok(i2) => {
                            proof {
                                assert(i2.code == inst.code && i2.progress == inst.progress);
                                assert(i2.stage == Stage::Execute || i2 == inst);
                            }
                            if i2.stage() == Stage::Execute {
                                self.decode = None;
                                self.execute = Some(i2);
                            } else {
                                // Data hazard: a source register is not
                                // ready.
                                self.decode = Some(i2);
                                if self.started {
                                    self.data_hazards = self.data_hazards + 1;
                                }
                            }
                            proof {
                                assert forall|i: int| 0 <= i < 32 implies #[trigger] prog@.registers[i].write_cnt == pipe_claims(*self, i) by {
                                    assert(prog@.registers[i].write_cnt == old(prog)@.registers[i].write_cnt + claims_after(
                                        spec_advance(inst, old(prog)@).0,
                                        i,
                                    ) - claims_of(inst, i));
                                }
                            }
                        },
                        Err(_) => {
                            proof {
                                assert(false);
                            }
                        },
                    }
                    true
                } else {
                    // Structural stall: Execute is occupied.
                    true
                }
            },
        }
    }

    #[verifier::rlimit(100)]
    fn fetch_phase(&mut self, prog: &mut Program, start_pc: u64) -> (r: (bool, Vec<SimOutput>))
        requires
            old(prog).wf(),
            old(self).cycles < u128::MAX,
            old(self).data_hazards < u128::MAX,
            pipe_inv(*old(self), old(prog)@) || pipe_drained(*old(self), old(prog)@),
        ensures
            final(prog).wf(),
            ({
                let g = spec_fetch_phase(*old(self), old(prog)@, start_pc);
                &&& (*final(self), final(prog)@, r.0) == (g.0, g.1, g.2)
                &&& r.1@.map_values(|o: SimOutput| o@) == g.3
            }),
            pipe_inv(*old(self), old(prog)@) ==> pipe_inv(*final(self), final(prog)@),
            pipe_drained(*old(self), old(prog)@) && spec_lib_lookup(
                old(prog)@.lib_funcs,
                HLT_ADDR,
                0,
            ) is None ==> pipe_drained(*final(self), final(prog)@),
            final(prog)@.lib_funcs == old(prog)@.lib_funcs,
            final(self).cycles <= old(self).cycles + 1,
            final(self).data_hazards <= old(self).data_hazards + 1,
            final(self).instructions == old(self).instructions,
            final(self).control_hazards == old(self).control_hazards,
    {
        proof {
            reveal(spec_fetch_phase);
        }
        let mut outs: Vec<SimOutput> = Vec::new();
        let shim = prog.lib_func_at(self.next_pc);
        let mut worked_shim = false;
        let mut next1 = self.next_pc;
        match shim {
            Some(LibFunc::Puts) => {
                worked_shim = true;
                match prog.registers.read(RegID::X10) {
                    None => {
                        // Data hazard on a0: keep fetching from this
                        // special address next cycle.
                        if self.started {
                            self.cycles = self.cycles + 1;
                            self.data_hazards = self.data_hazards + 1;
                        }
                        proof {
                            let g = spec_fetch_phase(*old(self), old(prog)@, start_pc);
                            assert(outs@.map_values(|o: SimOutput| o@) =~= g.3);
                        }
                        return (true, outs);
                    },
                    Some(a0) => {
                        match prog.cstring_at(a0) {
                            None => {
                                outs.push(SimOutput::PutsFault(a0));
                                next1 = HLT_ADDR;
                            },
                            Some(bytes) => {
                                outs.push(SimOutput::Puts(bytes));
                                // Skip the control transfer and resume
                                // after the call.
                                next1 = prog.program_counter.wrapping_add(4);
                            },
                        }
                    },
                }
            },
            Some(LibFunc::Printf) => {
                // Only `puts` is simulated; any other registered library
                // function is fatal.
                worked_shim = true;
                next1 = HLT_ADDR;
            },
            None => {},
        }
        prog.program_counter = next1;
        if next1 == start_pc {
            self.started = true;
        }
        if next1 != HLT_ADDR && self.decode.is_none() {
            let fresh = Inst::new();
            match fresh.advance(prog) {
                Ok(fetched) => {
                    proof {
                        assert(fetched.stage == Stage::Decode && supported(fetched.code)
                            && fetched.progress == 0);
                    }
                    self.decode = Some(fetched);
                    self.next_pc = fetched.next_pc();
                    if self.started {
                        self.cycles = self.cycles + 1;
                    }
                    proof {
                        let g = spec_fetch_phase(*old(self), old(prog)@, start_pc);
                        assert(outs@.map_values(|o: SimOutput| o@) =~= g.3);
                    }
                    (true, outs)
                },
                Err(_) => {
                    // A failed or unsupported fetch reports its cause.
                    if let Some(c) = fresh.halt_cause(prog) {
                        outs.push(SimOutput::Halt(c));
                    }
                    self.next_pc = HLT_ADDR;
                    if self.started {
                        self.cycles = self.cycles + 1;
                    }
                    proof {
                        let g = spec_fetch_phase(*old(self), old(prog)@, start_pc);
                        assert(outs@.map_values(|o: SimOutput| o@) =~= g.3);
                    }
                    (worked_shim, outs)
                },
            }
        } else {
            self.next_pc = next1;
            if self.started {
                self.cycles = self.cycles + 1;
            }
            proof {
                let g = spec_fetch_phase(*old(self), old(prog)@, start_pc);
                assert(outs@.map_values(|o: SimOutput| o@) =~= g.3);
            }
            (worked_shim, outs)
        }
    }

    /// One simulated cycle: clear the forwarding slots, advance Writeback,
    /// Memory, the multiplier slot, Execute and Decode in that order, then
    /// fetch. Returns what the cycle printed and whether the pipeline did
    /// no work at all (the driver's termination signal).
    #[verifier::rlimit(100)]
    pub fn step(&mut self, prog: &mut Program, start_pc: u64) -> (r: (Vec<SimOutput>, bool))
        requires
            old(prog).wf(),
            pipe_inv(*old(self), old(prog)@) || pipe_drained(*old(self), old(prog)@),
            spec_lib_lookup(old(prog)@.lib_funcs, HLT_ADDR, 0) is None,
            old(self).cycles < u128::MAX - 2,
            old(self).instructions < u128::MAX - 2,
            old(self).data_hazards < u128::MAX - 2,
            old(self).control_hazards < u128::MAX - 2,
        ensures
            final(prog).wf(),
            ({
                let s = spec_pipe_step(*old(self), old(prog)@, start_pc);
                &&& *final(self) == s.0
                &&& final(prog)@ == s.1
                &&& r.0@.map_values(|o: SimOutput| o@) == s.2
                &&& r.1 == s.3
            }),
            pipe_inv(*final(self), final(prog)@) || pipe_drained(*final(self), final(prog)@),
            final(prog)@.lib_funcs == old(prog)@.lib_funcs,
            final(self).cycles <= old(self).cycles + 1,
            final(self).instructions <= old(self).instructions + 3,
            final(self).data_hazards <= old(self).data_hazards + 2,
            final(self).control_hazards <= old(self).control_hazards + 1,
    {
        proof {
            assert(prog@.registers.len() == 32);
        }
        prog.registers.update_forward();
        proof {
            assert(prog@.registers =~= regs_clear_forward(old(prog)@.registers));
            assert(prog@ == MachineView {
                registers: regs_clear_forward(old(prog)@.registers),
                ..old(prog)@
            });
            if pipe_inv(*old(self), old(prog)@) {
                assert forall|i: int| 0 <= i < 32 implies #[trigger] prog@.registers[i].write_cnt
                    == pipe_claims(*old(self), i) by {
                    assert(prog@.registers[i] == old(
                        prog,
                    )@.registers[i].spec_clear_forward());
                }
                assert(pipe_inv(*old(self), prog@));
            }
        }
        let ghost m1 = prog@;
        let ghost p0 = *self;
        let w_b = self.wb_phase(prog);
        proof {
            assert((*self, prog@, w_b) == spec_wb_phase(p0, m1));
        }
        let (w_c, outs_c) = self.mem_phase(prog);
        proof {
            let b = spec_wb_phase(p0, m1);
            let c = spec_mem_phase(b.0, b.1);
            assert((*self, prog@, w_c) == (c.0, c.1, c.2));
            assert(outs_c@.map_values(|o: SimOutput| o@) == c.3);
        }
        let w_d = self.mult_phase(prog);
        proof {
            let b = spec_wb_phase(p0, m1);
            let c = spec_mem_phase(b.0, b.1);
            assert((*self, prog@, w_d) == spec_mult_phase(c.0, c.1));
        }
        let (w_e, outs_e) = self.exec_phase(prog);
        proof {
            let b = spec_wb_phase(p0, m1);
            let c = spec_mem_phase(b.0, b.1);
            let d = spec_mult_phase(c.0, c.1);
            let e = spec_exec_phase(d.0, d.1);
            assert((*self, prog@, w_e) == (e.0, e.1, e.2));
            assert(outs_e@.map_values(|o: SimOutput| o@) == e.3);
        }
        let w_f = self.decode_phase(prog);
        let (w_g, outs_g) = self.fetch_phase(prog, start_pc);
        let mut outs = outs_c;
        let mut mid = outs_e;
        let mut rest = outs_g;
        outs.append(&mut mid);
        outs.append(&mut rest);
        proof {
            let s = spec_pipe_step(*old(self), old(prog)@, start_pc);
            assert(outs@.map_values(|o: SimOutput| o@) =~= s.2);
        }
        (outs, !(w_b || w_c || w_d || w_e || w_f || w_g))
    }
}

/// Totals of a pipelined run.
#[derive(Debug, Clone, Copy, PartialEq, Eq)]
pub struct PipeOutcome {
    pub instructions: u128,
    pub cycles: u128,
    /// Cycles Decode (or a library shim) spent waiting on a source
    /// register.
    pub data_hazards: u128,
    /// Bubbles inserted for jumps and taken branches.
    pub control_hazards: u128,
    /// Whether the pipeline drained (as opposed to running out of fuel).
    pub halted: bool,
}

/// The full result of a pipelined run.
pub struct PipeRun {
    pub machine: MachineView,
    pub pipeline: Pipeline,
    pub outputs: Seq<SimOutputView>,
    pub halted: bool,
}

/// What the pipeline driver does, as a total function: step cycles until
/// one does no work at all, or the fuel is gone.
pub open spec fn spec_run_pipeline(p: Pipeline, m: MachineView, start_pc: u64, fuel: nat) -> PipeRun
    decreases fuel,
{
    if fuel == 0 {
        PipeRun { machine: m, pipeline: p, outputs: Seq::empty(), halted: false }
    } else {
        let s = spec_pipe_step(p, m, start_pc);
        if s.3 {
            PipeRun { machine: s.1, pipeline: s.0, outputs: s.2, halted: true }
        } else {
            let rest = spec_run_pipeline(s.0, s.1, start_pc, (fuel - 1) as nat);
            PipeRun {
                machine: rest.machine,
                pipeline: rest.pipeline,
                outputs: s.2 + rest.outputs,
                halted: rest.halted,
            }
        }
    }
}

/// Run the program through the pipeline from its current program counter
/// until the pipeline drains or `fuel` cycles are spent. CPI collection
/// starts the first cycle the committed fetch PC equals `start_pc`. The
/// image must be
/// fresh (no claim outstanding) and may not register a library function
/// at the reserved halt sentinel. The result is exactly
/// `spec_run_pipeline` applied to the initial state, so a re-run from an
/// equal machine reproduces the retired-instruction count, the cycle and
/// hazard counters, the outputs, the registers and the memory.
pub fn run_pipeline(prog: &mut Program, start_pc: u64, fuel: u64) -> (r: (
    PipeOutcome,
    Vec<SimOutput>,
))
    requires
        old(prog).wf(),
        forall|i: int| 0 <= i < 32 ==> #[trigger] old(prog)@.registers[i].write_cnt == 0,
        spec_lib_lookup(old(prog)@.lib_funcs, HLT_ADDR, 0) is None,
    ensures
        final(prog).wf(),
        ({
            let p0 = Pipeline {
                decode: None::<Inst>,
                execute: None::<Inst>,
                execute_mult: None::<Inst>,
                memory: None::<Inst>,
                writeback: None::<Inst>,
                next_pc: old(prog)@.program_counter,
                started: false,
                cycles: 0u128,
                instructions: 0u128,
                data_hazards: 0u128,
                control_hazards: 0u128,
            };
            let fin = spec_run_pipeline(p0, old(prog)@, start_pc, fuel as nat);
            &&& final(prog)@ == fin.machine
            &&& r.1@.map_values(|o: SimOutput| o@) == fin.outputs
            &&& r.0.instructions == fin.pipeline.instructions
            &&& r.0.cycles == fin.pipeline.cycles
            &&& r.0.data_hazards == fin.pipeline.data_hazards
            &&& r.0.control_hazards == fin.pipeline.control_hazards
            &&& r.0.halted == fin.halted
        }),
{
    let ghost m0 = prog@;
    let mut pipe = Pipeline::new(prog.program_counter);
    let ghost pipe0 = pipe;
    let mut outputs: Vec<SimOutput> = Vec::new();
    let mut left = fuel;
    proof {
        assert(pipe_inv(pipe, prog@));
    }
    loop
        invariant
            m0 == old(prog)@,
            pipe0 == (Pipeline {
                decode: None::<Inst>,
                execute: None::<Inst>,
                execute_mult: None::<Inst>,
                memory: None::<Inst>,
                writeback: None::<Inst>,
                next_pc: m0.program_counter,
                started: false,
                cycles: 0u128,
                instructions: 0u128,
                data_hazards: 0u128,
                control_hazards: 0u128,
            }),
            prog.wf(),
            pipe_inv(pipe, prog@) || pipe_drained(pipe, prog@),
            prog@.lib_funcs == m0.lib_funcs,
            spec_lib_lookup(prog@.lib_funcs, HLT_ADDR, 0) is None,
            left <= fuel,
            pipe.cycles <= (fuel - left) as u128,
            pipe.instructions <= 3 * ((fuel - left) as u128),
            pipe.data_hazards <= 2 * ((fuel - left) as u128),
            pipe.control_hazards <= (fuel - left) as u128,
            ({
                let fin = spec_run_pipeline(pipe0, m0, start_pc, fuel as nat);
                let cur = spec_run_pipeline(pipe, prog@, start_pc, left as nat);
                &&& fin.machine == cur.machine
                &&& fin.pipeline == cur.pipeline
                &&& fin.outputs == outputs@.map_values(|o: SimOutput| o@) + cur.outputs
                &&& fin.halted == cur.halted
            }),
        decreases left,
    {
        if left == 0 {
            return (
                PipeOutcome {
                    instructions: pipe.instructions,
                    cycles: pipe.cycles,
                    data_hazards: pipe.data_hazards,
                    control_hazards: pipe.control_hazards,
                    halted: false,
                },
                outputs,
            );
        }
        let ghost outs_pre = outputs@;
        let (mut outs, empty) = pipe.step(prog, start_pc);
        proof {
            let all = outs_pre.map_values(|o: SimOutput| o@) + outs@.map_values(
                |o: SimOutput| o@,
            );
            assert((outs_pre + outs@).map_values(|o: SimOutput| o@) =~= all);
        }
        outputs.append(&mut outs);
        left = left - 1;
        if empty {
            return (
                PipeOutcome {
                    instructions: pipe.instructions,
                    cycles: pipe.cycles,
                    data_hazards: pipe.data_hazards,
                    control_hazards: pipe.control_hazards,
                    halted: true,
                },
                outputs,
            );
        }
    }
}

} // verus!
