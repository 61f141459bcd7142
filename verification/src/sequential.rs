//! The sequential driver: runs one instruction to retirement before
//! fetching the next, intercepting simulated library calls, and reports
//! cycle and instruction totals for CPI.
//!
//! The driver is a total function of the initial machine, the configured
//! start PC and a fuel bound (`spec_run_seq`); the executable driver is
//! proved to return exactly that. Re-running from an equal machine
//! therefore reproduces the registers, the memory and the totals.

use vstd::prelude::*;
use crate::HLT_ADDR;
use crate::inst::InstCode;
use crate::inst::Stage;
use crate::program::LibFunc;
use crate::program::MachineView;
use crate::program::Program;
use crate::program::spec_cstring;
use crate::program::spec_lib_lookup;
use crate::regid::RegID;
use crate::register::regs_read;
use crate::step::HaltCause;
use crate::step::Inst;
use crate::step::advance_wf;
use crate::step::claims_of;
use crate::step::dest_of;
use crate::step::lemma_advance_claims;
use crate::step::spec_advance;
use crate::step::spec_halt_cause;
use crate::step::supported;

verus! {

/// One line of output the simulation produced.
#[derive(Debug, PartialEq, Eq)]
pub enum SimOutput {
    /// A simulated `puts` printed these bytes (NUL included).
    Puts(Vec<u8>),
    /// A simulated `puts` could not read its string at this address.
    PutsFault(u64),
    /// An `ecall` with a0 = 1 printed the value of a1.
    EcallPrint(u64),
    /// The run halted for this cause: the warning (or exit notice) line.
    Halt(HaltCause),
}

/// The mathematical image of one output line.
pub enum SimOutputView {
    Puts(Seq<u8>),
    PutsFault(u64),
    EcallPrint(u64),
    Halt(HaltCause),
}

impl View for SimOutput {
    type V = SimOutputView;

    open spec fn view(&self) -> SimOutputView {
        match self {
            SimOutput::Puts(bytes) => SimOutputView::Puts(bytes@),
            SimOutput::PutsFault(a) => SimOutputView::PutsFault(*a),
            SimOutput::EcallPrint(v) => SimOutputView::EcallPrint(*v),
            SimOutput::Halt(c) => SimOutputView::Halt(*c),
        }
    }
}

/// Totals of a sequential run.
#[derive(Debug, Clone, Copy, PartialEq, Eq)]
pub struct SeqOutcome {
    /// Retired instructions counted for CPI.
    pub instructions: u64,
    /// Cycles counted for CPI (each instruction counts at least five, for
    /// comparability with the pipeline).
    pub cycles: u128,
    /// Whether the run reached the halt sentinel (as opposed to running
    /// out of fuel).
    pub halted: bool,
}

/// A single in-flight instruction owns exactly the destination claims its
/// stage implies, and past Fetch it is one the machine simulates. This is
/// the register-file invariant of the sequential model.
pub open spec fn solo_inflight(inst: Inst, m: MachineView) -> bool {
    &&& m.registers.len() == 32
    &&& inst.stage != Stage::Fetch ==> supported(inst.code)
    &&& forall|i: int| 0 <= i < 32 ==> #[trigger] m.registers[i].write_cnt == claims_of(inst, i)
}

/// The sequential invariant implies everything one `advance` call needs.
proof fn lemma_solo_advance_wf(inst: Inst, m: MachineView)
    requires
        solo_inflight(inst, m),
    ensures
        advance_wf(inst, m),
{
    match dest_of(inst.code) {
        Some(rd) => {
            assert(m.registers[rd.spec_encode() as int].write_cnt == claims_of(
                inst,
                rd.spec_encode() as int,
            ));
        },
        None => {},
    }
}

/// One cycle preserves the sequential invariant; retirement (or a fatal
/// fault) leaves no claim outstanding.
proof fn lemma_solo_preserved(inst: Inst, m: MachineView)
    requires
        solo_inflight(inst, m),
    ensures
        ({
            let o = spec_advance(inst, m);
            &&& o.1.registers.len() == 32
            &&& match o.0 {
                Ok(i2) => solo_inflight(i2, o.1),
                Err(_) => forall|i: int|
                    0 <= i < 32 ==> #[trigger] o.1.registers[i].write_cnt == 0,
            }
        }),
{
    lemma_solo_advance_wf(inst, m);
    lemma_advance_claims(inst, m);
}

/// The run of a single instruction to retirement: iterate the stage
/// machine until it retires or the fuel is gone.
pub struct InstRun {
    pub result: Option<u64>,
    pub machine: MachineView,
    pub cycles: nat,
    /// The value an `ecall` print surfaced along the way, if any.
    pub print: Option<u64>,
    /// The warning (or exit notice) of a halting cycle, if any.
    pub cause: Option<HaltCause>,
}

/// What running one instruction does, as a total function.
pub open spec fn spec_run_inst(inst: Inst, m: MachineView, fuel: nat) -> InstRun
    decreases fuel,
{
    if fuel == 0 {
        InstRun { result: None, machine: m, cycles: 0, print: None, cause: None }
    } else {
        let o = spec_advance(inst, m);
        let stepprint: Option<u64> = if inst.stage == Stage::Execute && inst.code
            == InstCode::Ecall && o.0 is Ok {
            Some(inst.val2)
        } else {
            None
        };
        match o.0 {
            Err(next) => InstRun {
                result: Some(next),
                machine: o.1,
                cycles: 1,
                print: None,
                cause: spec_halt_cause(inst, o.1),
            },
            Ok(i2) => {
                let rec = spec_run_inst(i2, o.1, (fuel - 1) as nat);
                InstRun {
                    result: rec.result,
                    machine: rec.machine,
                    cycles: (rec.cycles + 1) as nat,
                    print: if stepprint is Some {
                        stepprint
                    } else {
                        rec.print
                    },
                    cause: rec.cause,
                }
            },
        }
    }
}

/// The cycle count of a single-instruction run is between one (fuel
/// permitting) and the fuel spent.
proof fn lemma_run_inst_cycles(inst: Inst, m: MachineView, fuel: nat)
    ensures
        spec_run_inst(inst, m, fuel).cycles <= fuel,
        fuel > 0 ==> spec_run_inst(inst, m, fuel).cycles >= 1,
    decreases fuel,
{
    if fuel > 0 {
        let o = spec_advance(inst, m);
        match o.0 {
            Err(_) => {},
            Ok(i2) => {
                lemma_run_inst_cycles(i2, o.1, (fuel - 1) as nat);
            },
        }
    }
}

/// Run one freshly fetched instruction to retirement (or until the fuel
/// is gone). Returns the retirement result, the cycles spent, the `ecall`
/// print surfaced, and the halting cycle's cause, if any.
fn run_inst(start: Inst, prog: &mut Program, fuel: u64) -> (r: (
    Option<u64>,
    u64,
    Option<u64>,
    Option<HaltCause>,
))
    requires
        old(prog).wf(),
        solo_inflight(start, old(prog)@),
    ensures
        final(prog).wf(),
        ({
            let s = spec_run_inst(start, old(prog)@, fuel as nat);
            &&& r.0 == s.result
            &&& final(prog)@ == s.machine
            &&& r.1 == s.cycles
            &&& r.2 == s.print
            &&& r.3 == s.cause
            &&& r.1 <= fuel
            &&& (fuel > 0 ==> r.1 >= 1)
            &&& (r.0 is Some ==> forall|i: int|
                0 <= i < 32 ==> #[trigger] final(prog)@.registers[i].write_cnt == 0)
        }),
{
    proof {
        lemma_run_inst_cycles(start, prog@, fuel as nat);
    }
    let ghost m0 = prog@;
    let mut cur = start;
    let mut used: u64 = 0;
    let mut print: Option<u64> = None;
    loop
        invariant
            m0 == old(prog)@,
            prog.wf(),
            solo_inflight(cur, prog@),
            used <= fuel,
            ({
                let fin = spec_run_inst(start, m0, fuel as nat);
                let rem = spec_run_inst(cur, prog@, (fuel - used) as nat);
                &&& fin.result == rem.result
                &&& fin.machine == rem.machine
                &&& fin.cycles == used + rem.cycles
                &&& fin.print == (if print is Some {
                    print
                } else {
                    rem.print
                })
                &&& fin.cause == rem.cause
            }),
        decreases fuel - used,
    {
        if used == fuel {
            return (None, used, print, None);
        }
        proof {
            lemma_solo_advance_wf(cur, prog@);
            lemma_solo_preserved(cur, prog@);
        }
        let is_print_step = cur.stage == Stage::Execute && matches!(cur.code, InstCode::Ecall);
        let pval = cur.val2;
        match cur.advance(prog) {
            Err(next) => {
                used = used + 1;
                let cause = cur.halt_cause(prog);
                return (Some(next), used, print, cause);
            },
            Ok(i2) => {
                if is_print_step && print.is_none() {
                    print = Some(pval);
                }
                cur = i2;
                used = used + 1;
            },
        }
    }
}

/// The full result of a sequential run.
pub struct SeqRun {
    pub machine: MachineView,
    pub outputs: Seq<SimOutputView>,
    pub instructions: nat,
    pub cycles: nat,
    pub halted: bool,
}

/// What the sequential driver does, as a total function of the machine,
/// the pending next program counter, the configured start PC (where CPI
/// collection begins), and the fuel bound on stage-machine cycles.
///
/// Each unfolding is one driver iteration: intercept a simulated library
/// call at the pending PC, commit the PC, stop at the halt sentinel, then
/// run one instruction to retirement; once collection has started, each
/// instruction counts at least five cycles.
pub open spec fn spec_run_seq(
    m: MachineView,
    next_pc: u64,
    start_pc: u64,
    started: bool,
    fuel: nat,
) -> SeqRun
    decreases fuel,
{
    let shim = spec_lib_lookup(m.lib_funcs, next_pc, 0);
    let outs: Seq<SimOutputView> = match shim {
        Some(LibFunc::Puts) => {
            let a0 = match regs_read(m.registers, RegID::X10) {
                Some(v) => v,
                None => 0u64,
            };
            match spec_cstring(m.vmas, a0) {
                None => seq![SimOutputView::PutsFault(a0)],
                Some(bytes) => seq![SimOutputView::Puts(bytes)],
            }
        },
        _ => Seq::empty(),
    };
    let next1: u64 = match shim {
        Some(LibFunc::Puts) => {
            let a0 = match regs_read(m.registers, RegID::X10) {
                Some(v) => v,
                None => 0u64,
            };
            match spec_cstring(m.vmas, a0) {
                None => HLT_ADDR,
                Some(_) => vstd::wrapping::u64_specs::wrapping_add(m.program_counter, 4),
            }
        },
        Some(LibFunc::Printf) => HLT_ADDR,
        None => next_pc,
    };
    let m2 = MachineView { program_counter: next1, ..m };
    if next1 == HLT_ADDR {
        SeqRun { machine: m2, outputs: outs, instructions: 0, cycles: 0, halted: true }
    } else {
        let started2 = started || start_pc == next1;
        if fuel == 0 {
            SeqRun { machine: m2, outputs: outs, instructions: 0, cycles: 0, halted: false }
        } else {
            let run = spec_run_inst(Inst::spec_new(), m2, fuel);
            let used: nat = if 1 <= run.cycles <= fuel {
                run.cycles
            } else {
                1nat
            };
            match run.result {
                None => SeqRun {
                    machine: run.machine,
                    outputs: outs,
                    instructions: 0,
                    cycles: 0,
                    halted: false,
                },
                Some(next2) => {
                    let outs2 = outs + (match run.print {
                        Some(v) => seq![SimOutputView::EcallPrint(v)],
                        None => Seq::empty(),
                    }) + (match run.cause {
                        Some(c) => seq![SimOutputView::Halt(c)],
                        None => Seq::empty(),
                    });
                    let acc_i: nat = if started2 {
                        1nat
                    } else {
                        0nat
                    };
                    let acc_c: nat = if started2 {
                        if used < 5 {
                            5nat
                        } else {
                            used
                        }
                    } else {
                        0nat
                    };
                    let rest = spec_run_seq(run.machine, next2, start_pc, started2, (fuel
                        - used) as nat);
                    SeqRun {
                        machine: rest.machine,
                        outputs: outs2 + rest.outputs,
                        instructions: (acc_i + rest.instructions) as nat,
                        cycles: (acc_c + rest.cycles) as nat,
                        halted: rest.halted,
                    }
                },
            }
        }
    }
}

/// Run the program sequentially from its current program counter until it
/// halts or `fuel` stage-machine cycles are spent. CPI collection starts
/// when the committed program counter first equals `start_pc`. Returns the
/// totals and everything the run printed, and is exactly
/// `spec_run_seq` applied to the initial machine.
#[verifier::rlimit(100)]
pub fn run_seq(prog: &mut Program, start_pc: u64, fuel: u64) -> (r: (SeqOutcome, Vec<SimOutput>))
    requires
        old(prog).wf(),
        forall|i: int| 0 <= i < 32 ==> #[trigger] old(prog)@.registers[i].write_cnt == 0,
    ensures
        final(prog).wf(),
        ({
            let fin = spec_run_seq(
                old(prog)@,
                old(prog)@.program_counter,
                start_pc,
                false,
                fuel as nat,
            );
            &&& final(prog)@ == fin.machine
            &&& r.1@.map_values(|o: SimOutput| o@) == fin.outputs
            &&& r.0.instructions == fin.instructions
            &&& r.0.cycles == fin.cycles
            &&& r.0.halted == fin.halted
        }),
{
    let ghost m0 = prog@;
    let ghost pc0 = prog@.program_counter;
    let mut outputs: Vec<SimOutput> = Vec::new();
    let mut next_pc = prog.program_counter;
    let mut started = false;
    let mut instructions: u64 = 0;
    let mut cycles: u128 = 0;
    let mut left = fuel;
    loop
        invariant
            m0 == old(prog)@,
            pc0 == old(prog)@.program_counter,
            prog.wf(),
            forall|i: int| 0 <= i < 32 ==> #[trigger] prog@.registers[i].write_cnt == 0,
            left <= fuel,
            instructions <= fuel - left,
            cycles <= 5 * ((fuel - left) as u128),
            ({
                let fin = spec_run_seq(m0, pc0, start_pc, false, fuel as nat);
                let cur = spec_run_seq(prog@, next_pc, start_pc, started, left as nat);
                &&& fin.machine == cur.machine
                &&& fin.outputs == outputs@.map_values(|o: SimOutput| o@) + cur.outputs
                &&& fin.instructions == instructions + cur.instructions
                &&& fin.cycles == cycles + cur.cycles
                &&& fin.halted == cur.halted
            }),
        decreases left,
    {
        let ghost outs_pre = outputs@;
        // Intercept a simulated library call at the pending PC.
        match prog.lib_func_at(next_pc) {
            Some(LibFunc::Puts) => {
                let a0 = match prog.registers.read(RegID::X10) {
                    Some(v) => v,
                    None => 0u64,
                };
                match prog.cstring_at(a0) {
                    None => {
                        outputs.push(SimOutput::PutsFault(a0));
                        next_pc = HLT_ADDR;
                    },
                    Some(bytes) => {
                        outputs.push(SimOutput::Puts(bytes));
                        // Skip the control transfer: resume after the call.
                        next_pc = prog.program_counter.wrapping_add(4);
                    },
                }
                proof {
                    assert(outputs@.map_values(|o: SimOutput| o@) =~= outs_pre.map_values(
                        |o: SimOutput| o@,
                    ) + seq![outputs@.last()@]);
                }
            },
            Some(LibFunc::Printf) => {
                // Only `puts` is simulated; any other registered library
                // function is fatal.
                next_pc = HLT_ADDR;
            },
            None => {},
        }
        prog.program_counter = next_pc;
        if prog.program_counter == HLT_ADDR {
            return (SeqOutcome { instructions, cycles, halted: true }, outputs);
        }
        if start_pc == prog.program_counter {
            started = true;
        }
        if left == 0 {
            return (SeqOutcome { instructions, cycles, halted: false }, outputs);
        }
        let fresh = Inst::new();
        let ghost m_before = prog@;
        proof {
            lemma_run_inst_cycles(fresh, prog@, left as nat);
        }
        let (res, used, print, cause) = run_inst(fresh, prog, left);
        match res {
            None => {
                return (SeqOutcome { instructions, cycles, halted: false }, outputs);
            },
            Some(next2) => {
                let ghost outs_mid = outputs@;
                match print {
                    Some(v) => {
                        outputs.push(SimOutput::EcallPrint(v));
                        proof {
                            assert(outputs@.map_values(|o: SimOutput| o@) =~= outs_mid.map_values(
                                |o: SimOutput| o@,
                            ) + seq![SimOutputView::EcallPrint(v)]);
                        }
                    },
                    None => {
                        proof {
                            assert(outputs@.map_values(|o: SimOutput| o@) =~= outs_mid.map_values(
                                |o: SimOutput| o@,
                            ) + Seq::<SimOutputView>::empty());
                        }
                    },
                }
                let ghost outs_mid2 = outputs@;
                match cause {
                    Some(c) => {
                        outputs.push(SimOutput::Halt(c));
                        proof {
                            assert(outputs@.map_values(|o: SimOutput| o@) =~= outs_mid2.map_values(
                                |o: SimOutput| o@,
                            ) + seq![SimOutputView::Halt(c)]);
                        }
                    },
                    None => {
                        proof {
                            assert(outputs@.map_values(|o: SimOutput| o@) =~= outs_mid2.map_values(
                                |o: SimOutput| o@,
                            ) + Seq::<SimOutputView>::empty());
                        }
                    },
                }
                next_pc = next2;
                if started {
                    instructions = instructions + 1;
                    let add: u128 = if used < 5 {
                        5
                    } else {
                        used as u128
                    };
                    cycles = cycles + add;
                }
                left = left - used;
            },
        }
    }
}

} // verus!
