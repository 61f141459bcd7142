use rsim_pipe::HLT_ADDR;
use rsim_pipe::LibFunc;
use rsim_pipe::Program;
use rsim_pipe::RegID;
use rsim_pipe::SimOutput;
use rsim_pipe::VMA;
use rsim_pipe::pipeline::run_pipeline;
use rsim_pipe::sequential::run_seq;

fn words_to_bytes(words: &[u32]) -> Vec<u8> {
    let mut bytes = Vec::new();
    for w in words {
        bytes.extend_from_slice(&w.to_le_bytes());
    }
    bytes
}

fn code_vma(words: &[u32]) -> VMA {
    let memory = words_to_bytes(words);
    VMA {
        lower_bound: 0x1000,
        size: memory.len() as u64,
        readable: true,
        writable: false,
        executable: true,
        memory,
    }
}

fn data_vma() -> VMA {
    VMA {
        lower_bound: 0x2000,
        size: 64,
        readable: true,
        writable: true,
        executable: false,
        memory: vec![0u8; 64],
    }
}

fn make_prog(words: &[u32], forwarding: bool) -> Program {
    Program::assemble(
        0x1000,
        vec![code_vma(words), data_vma()],
        Vec::new(),
        Vec::new(),
        forwarding,
    )
}

fn reg(prog: &Program, id: RegID) -> u64 {
    prog.registers.read(id).unwrap()
}

#[test]
fn seq_add_program() {
    // addi x5, x0, 7; addi x6, x0, 5; add x7, x5, x6; jalr x0, x1, 0
    let words = [0x00700293, 0x00500313, 0x006283B3, 0x00008067];
    let mut prog = make_prog(&words, false);
    let (out, _) = run_seq(&mut prog, 0x1000, 100_000);
    assert!(out.halted);
    assert_eq!(reg(&prog, RegID::X5), 7);
    assert_eq!(reg(&prog, RegID::X6), 5);
    assert_eq!(reg(&prog, RegID::X7), 12);
    assert_eq!(out.instructions, 4);
}

#[test]
fn seq_logical_vs_arithmetic_shift() {
    // addi x5, x0, -1; srli x6, x5, 4; srai x7, x5, 4; jalr x0, x1, 0
    let words = [0xFFF00293, 0x0042D313, 0x4042D393, 0x00008067];
    let mut prog = make_prog(&words, false);
    let (out, _) = run_seq(&mut prog, 0x1000, 100_000);
    assert!(out.halted);
    assert_eq!(reg(&prog, RegID::X6), 0x0FFF_FFFF_FFFF_FFFF);
    assert_eq!(reg(&prog, RegID::X7), 0xFFFF_FFFF_FFFF_FFFF);
}

#[test]
fn seq_store_then_load() {
    // addi x5, x0, 0x10; sd x5, 0(x28); ld x6, 0(x28); jalr x0, x1, 0
    let words = [0x01000293, 0x005E3023, 0x000E3303, 0x00008067];
    let mut prog = make_prog(&words, false);
    prog.registers.write(RegID::X28, 0x2000);
    let (out, _) = run_seq(&mut prog, 0x1000, 100_000);
    assert!(out.halted);
    let (mem, rem) = prog.mem_load(0x2000, 8, false).unwrap();
    assert_eq!(rem, 0);
    assert_eq!(mem, vec![0x10, 0, 0, 0, 0, 0, 0, 0]);
    assert_eq!(reg(&prog, RegID::X6), 0x10);
}

#[test]
fn seq_divide_by_zero_halts_and_restores_claim() {
    // addi x5, x0, 10; add x6, x0, x0; div x7, x5, x6
    let words = [0x00A00293, 0x00000333, 0x0262C3B3];
    let mut prog = make_prog(&words, false);
    let (out, _) = run_seq(&mut prog, 0x1000, 100_000);
    assert!(out.halted);
    assert_eq!(reg(&prog, RegID::X7), 0);
    // The claim taken at Decode was released on the fault.
    assert_eq!(prog.registers.registers[7].write_cnt, 0);
}

#[test]
fn seq_signed_and_unsigned_byte_loads() {
    // lb x6, 0(x28); lbu x7, 0(x28); jalr x0, x1, 0
    let words = [0x000E0303, 0x000E4383, 0x00008067];
    let mut prog = make_prog(&words, false);
    prog.registers.write(RegID::X28, 0x2000);
    assert!(prog.mem_store(0x2000, &vec![0xFFu8]));
    let (out, _) = run_seq(&mut prog, 0x1000, 100_000);
    assert!(out.halted);
    assert_eq!(reg(&prog, RegID::X6), 0xFFFF_FFFF_FFFF_FFFF);
    assert_eq!(reg(&prog, RegID::X7), 0x0000_0000_0000_00FF);
}

#[test]
fn seq_multiply_and_remainder() {
    // addi x5, x0, 7; addi x6, x0, 5; mul x7, x5, x6; jalr x0, x1, 0
    let words = [0x00700293, 0x00500313, 0x026283B3, 0x00008067];
    let mut prog = make_prog(&words, false);
    let (out, _) = run_seq(&mut prog, 0x1000, 100_000);
    assert!(out.halted);
    assert_eq!(reg(&prog, RegID::X7), 35);
}

#[test]
fn seq_fetch_at_halt_sentinel_runs_nothing() {
    let words = [0x00700293];
    let mut prog = make_prog(&words, false);
    prog.program_counter = HLT_ADDR;
    let (out, outs) = run_seq(&mut prog, 0x1000, 100_000);
    assert!(out.halted);
    assert_eq!(out.instructions, 0);
    assert_eq!(out.cycles, 0);
    assert!(outs.is_empty());
    assert_eq!(reg(&prog, RegID::X5), 0);
}

#[test]
fn seq_rerun_reproduces_machine() {
    let words = [0xFFF00293, 0x0042D313, 0x4042D393, 0x00008067];
    let mut p1 = make_prog(&words, false);
    let mut p2 = make_prog(&words, false);
    let (o1, outs1) = run_seq(&mut p1, 0x1000, 100_000);
    let (o2, outs2) = run_seq(&mut p2, 0x1000, 100_000);
    assert_eq!(o1, o2);
    assert_eq!(outs1, outs2);
    for e in 0u8..32 {
        let id = RegID::decode(e);
        assert_eq!(p1.registers.read(id), p2.registers.read(id));
    }
    let m1 = p1.mem_load(0x2000, 64, false).unwrap();
    let m2 = p2.mem_load(0x2000, 64, false).unwrap();
    assert_eq!(m1, m2);
}

#[test]
fn seq_puts_shim_prints_string() {
    // jal x0, +0x2000 (to the simulated puts); jalr x0, x1, 0
    let words = [0x0000206F, 0x00008067];
    let mut prog = Program::assemble(
        0x1000,
        vec![code_vma(&words), data_vma()],
        vec![(0x3000, LibFunc::Puts)],
        Vec::new(),
        false,
    );
    assert!(prog.mem_store(0x2004, &vec![b'h', b'i', 0]));
    prog.registers.write(RegID::X10, 0x2004);
    let (out, outs) = run_seq(&mut prog, 0x1000, 100_000);
    assert!(out.halted);
    assert_eq!(outs, vec![SimOutput::Puts(vec![b'h', b'i', 0])]);
}

#[test]
fn seq_ecall_prints_a1() {
    // addi x10, x0, 1; addi x11, x0, 0xAB; ecall; jalr x0, x1, 0
    let words = [0x00100513, 0x0AB00593, 0x00000073, 0x00008067];
    let mut prog = make_prog(&words, false);
    let (out, outs) = run_seq(&mut prog, 0x1000, 100_000);
    assert!(out.halted);
    assert_eq!(outs, vec![SimOutput::EcallPrint(0xAB)]);
}

#[test]
fn seq_ecall_exit_halts() {
    // addi x10, x0, 10; ecall -- a0 = 10 means exit
    let words = [0x00A00513, 0x00000073];
    let mut prog = make_prog(&words, false);
    let (out, outs) = run_seq(&mut prog, 0x1000, 100_000);
    assert!(out.halted);
    assert_eq!(
        outs,
        vec![SimOutput::Halt(rsim_pipe::HaltCause::EcallExit(0, 10))]
    );
}

#[test]
fn pipe_add_program() {
    let words = [0x00700293, 0x00500313, 0x006283B3, 0x00008067];
    let mut prog = make_prog(&words, true);
    let (out, _) = run_pipeline(&mut prog, 0x1000, 100_000);
    assert!(out.halted);
    assert_eq!(reg(&prog, RegID::X5), 7);
    assert_eq!(reg(&prog, RegID::X6), 5);
    assert_eq!(reg(&prog, RegID::X7), 12);
    assert_eq!(out.instructions, 4);
}

#[test]
fn pipe_taken_branch_bubbles_once() {
    // addi x5, x0, 3; addi x6, x0, 3; beq x5, x6, +8; addi x7, x0, 99;
    // addi x8, x0, 1; div x9, x5, x0 (halts without a control hazard)
    let words = [
        0x00300293, 0x00300313, 0x00628463, 0x06300393, 0x00100413, 0x0202C4B3,
    ];
    let mut prog = make_prog(&words, false);
    let (out, _) = run_pipeline(&mut prog, 0x1000, 100_000);
    assert!(out.halted);
    assert_eq!(reg(&prog, RegID::X7), 0);
    assert_eq!(reg(&prog, RegID::X8), 1);
    assert_eq!(out.control_hazards, 1);
}

#[test]
fn pipe_forwarding_removes_data_hazard() {
    // addi x5, x0, 1; add x6, x5, x5; jalr x0, x1, 0 -- a dependent pair
    // right at the entry. With forwarding the add never stalls; without it
    // the Decode stalls are recorded, since collection starts at the first
    // fetch from the entry.
    let words = [0x00100293, 0x00528333, 0x00008067];
    let mut with_fwd = make_prog(&words, true);
    let (out_fwd, _) = run_pipeline(&mut with_fwd, 0x1000, 100_000);
    assert!(out_fwd.halted);
    assert_eq!(reg(&with_fwd, RegID::X6), 2);
    assert_eq!(out_fwd.data_hazards, 0);

    let mut without = make_prog(&words, false);
    let (out_plain, _) = run_pipeline(&mut without, 0x1000, 100_000);
    assert!(out_plain.halted);
    assert_eq!(reg(&without, RegID::X6), 2);
    assert!(out_plain.data_hazards >= 1);
}

#[test]
fn pipe_rerun_reproduces_trace_and_cpi() {
    let words = [
        0x00300293, 0x00300313, 0x00628463, 0x06300393, 0x00100413, 0x0202C4B3,
    ];
    let mut p1 = make_prog(&words, true);
    let mut p2 = make_prog(&words, true);
    let (o1, outs1) = run_pipeline(&mut p1, 0x1000, 100_000);
    let (o2, outs2) = run_pipeline(&mut p2, 0x1000, 100_000);
    assert_eq!(o1, o2);
    assert_eq!(outs1, outs2);
    for e in 0u8..32 {
        let id = RegID::decode(e);
        assert_eq!(p1.registers.read(id), p2.registers.read(id));
    }
}

#[test]
fn pipe_divide_by_zero_halts() {
    let words = [0x00A00293, 0x00000333, 0x0262C3B3];
    let mut prog = make_prog(&words, false);
    let (out, _) = run_pipeline(&mut prog, 0x1000, 100_000);
    assert!(out.halted);
    assert_eq!(reg(&prog, RegID::X7), 0);
    assert_eq!(prog.registers.registers[7].write_cnt, 0);
}

#[test]
fn pipe_multiply_two_cycle_unit() {
    let words = [0x00700293, 0x00500313, 0x026283B3, 0x00008067];
    let mut prog = make_prog(&words, true);
    let (out, _) = run_pipeline(&mut prog, 0x1000, 100_000);
    assert!(out.halted);
    assert_eq!(reg(&prog, RegID::X7), 35);
}

#[test]
fn pipe_and_seq_agree_on_registers() {
    let words = [0xFFF00293, 0x0042D313, 0x4042D393, 0x00008067];
    let mut ps = make_prog(&words, false);
    let mut pp = make_prog(&words, false);
    let (so, _) = run_seq(&mut ps, 0x1000, 100_000);
    let (po, _) = run_pipeline(&mut pp, 0x1000, 100_000);
    assert!(so.halted && po.halted);
    for e in 0u8..32 {
        let id = RegID::decode(e);
        assert_eq!(ps.registers.read(id), pp.registers.read(id));
    }
}

#[test]
fn seq_fuel_runs_out_reports_not_halted() {
    let words = [0x00700293, 0x00500313, 0x006283B3, 0x00008067];
    let mut prog = make_prog(&words, false);
    let (out, _) = run_seq(&mut prog, 0x1000, 3);
    assert!(!out.halted);
}
