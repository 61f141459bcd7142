use rsim_pipe::HaltCause;
use rsim_pipe::Inst;
use rsim_pipe::InstCode;
use rsim_pipe::Program;
use rsim_pipe::RegID;
use rsim_pipe::SimOutput;
use rsim_pipe::Stage;
use rsim_pipe::VMA;
use rsim_pipe::pipeline::run_pipeline;
use rsim_pipe::sequential::run_seq;

fn words_to_bytes(words: &[u32]) -> Vec<u8> {
    let mut bytes = Vec::new();
    for w in words {
        bytes.extend_from_slice(&w.to_le_bytes());
    }
    bytes
}

fn make_prog(words: &[u32]) -> Program {
    let memory = words_to_bytes(words);
    let code = VMA {
        lower_bound: 0x1000,
        size: memory.len() as u64,
        readable: true,
        writable: false,
        executable: true,
        memory,
    };
    let data = VMA {
        lower_bound: 0x2000,
        size: 64,
        readable: true,
        writable: true,
        executable: false,
        memory: vec![0u8; 64],
    };
    Program::assemble(0x1000, vec![code, data], Vec::new(), Vec::new(), false)
}

fn run(words: &[u32]) -> Program {
    let mut prog = make_prog(words);
    let (out, _) = run_seq(&mut prog, 0x1000, 1_000_000);
    assert!(out.halted);
    prog
}

fn reg(prog: &Program, id: RegID) -> u64 {
    prog.registers.read(id).unwrap()
}

#[test]
fn word_shifts_follow_the_table() {
    // addi x5, x0, -8; addi x7, x0, 2; sraw x6, x5, x7; srlw x8, x5, x7;
    // jalr x0, x1, 0
    let prog = run(&[
        0xFF800293, 0x00200393, 0x4072D33B, 0x0072D43B, 0x00008067,
    ]);
    // sraw: arithmetic right shift of the low 32 bits, sign-extended.
    assert_eq!(reg(&prog, RegID::X6), 0xFFFF_FFFF_FFFF_FFFE);
    // srlw: logical right shift of the low 32 bits, then sign-extension of
    // the (positive) 32-bit result.
    assert_eq!(reg(&prog, RegID::X8), 0x0000_0000_3FFF_FFFE);
}

#[test]
fn mulh_takes_high_signed_bits() {
    // addi x5, x0, -1; addi x6, x0, -1; mulh x7, x5, x6; jalr x0, x1, 0
    let prog = run(&[0xFFF00293, 0xFFF00313, 0x026293B3, 0x00008067]);
    // (-1) * (-1) = 1; its high 64 bits are zero.
    assert_eq!(reg(&prog, RegID::X7), 0);
}

#[test]
fn division_truncates_toward_zero() {
    // addi x5, x0, -7; addi x6, x0, 2; div x7, x5, x6; jalr x0, x1, 0
    let prog = run(&[0xFF900293, 0x00200313, 0x0262C3B3, 0x00008067]);
    assert_eq!(reg(&prog, RegID::X7), (-3i64) as u64);
}

#[test]
fn remainder_of_positive_operands() {
    // addi x5, x0, 7; addi x6, x0, 5; rem x7, x5, x6; jalr x0, x1, 0
    let prog = run(&[0x00700293, 0x00500313, 0x0262E3B3, 0x00008067]);
    assert_eq!(reg(&prog, RegID::X7), 2);
}

#[test]
fn signed_and_unsigned_compare_differ() {
    // addi x5, x0, -1; addi x6, x0, 1; slt x7, x5, x6; sltu x8, x5, x6;
    // jalr x0, x1, 0
    let prog = run(&[
        0xFFF00293, 0x00100313, 0x0062A3B3, 0x0062B433, 0x00008067,
    ]);
    assert_eq!(reg(&prog, RegID::X7), 1);
    assert_eq!(reg(&prog, RegID::X8), 0);
}

#[test]
fn addw_wraps_and_sign_extends() {
    // lui x5, 0x7FFFF; addiw x5, x5, 0x7FF (x5 = 0x7FFFF7FF);
    // addw x5, x5, x5; jalr x0, x1, 0
    let prog = run(&[0x7FFFF2B7, 0x7FF2829B, 0x005282BB, 0x00008067]);
    // 0x7FFFF7FF + 0x7FFFF7FF wraps the 32-bit sign bit.
    assert_eq!(reg(&prog, RegID::X5), 0xFFFF_FFFF_FFFF_EFFE);
}

#[test]
fn pipeline_load_fault_halts_and_releases_claim() {
    // ld x6, 0(x28) with x28 pointing at unmapped memory
    let words = [0x000E3303, 0x00008067];
    let mut prog = make_prog(&words);
    prog.registers.write(RegID::X28, 0x9000_0000);
    let (out, _) = run_pipeline(&mut prog, 0x1000, 1_000_000);
    assert!(out.halted);
    assert_eq!(reg(&prog, RegID::X6), 0);
    assert_eq!(prog.registers.registers[6].write_cnt, 0);
}

#[test]
fn seq_load_fault_halts() {
    let words = [0x000E3303, 0x00008067];
    let mut prog = make_prog(&words);
    prog.registers.write(RegID::X28, 0x9000_0000);
    let (out, _) = run_seq(&mut prog, 0x1000, 1_000_000);
    assert!(out.halted);
    assert_eq!(reg(&prog, RegID::X6), 0);
}

#[test]
fn parse_compressed_lw() {
    let (code, len) = InstCode::parse(0x4588, 0);
    assert_eq!(len, 16);
    assert_eq!(code, InstCode::Lw(RegID::X10, RegID::X11, 8));
}

#[test]
fn parse_compressed_addi() {
    // c.addi x8, -1: bits [12] = imm[5], [6:2] = imm[4:0]
    let raw: u16 = (1 << 12) | (8 << 7) | (0x1F << 2) | 1;
    let (code, len) = InstCode::parse(raw, 0);
    assert_eq!(len, 16);
    assert_eq!(code, InstCode::Addi(RegID::X8, RegID::X8, -1));
}

#[test]
fn unknown_instruction_halts_fetch() {
    // An unsupported opcode halts during Fetch with nothing retired, and
    // the warning names the offending word; the aborted instruction still
    // counts with the five-cycle floor.
    let words = [0x0000005B];
    let mut prog = make_prog(&words);
    let (out, outs) = run_seq(&mut prog, 0x1000, 1_000_000);
    assert!(out.halted);
    assert_eq!(out.instructions, 1);
    assert_eq!(out.cycles, 5);
    assert_eq!(
        outs,
        vec![SimOutput::Halt(HaltCause::UnknownInstruction(0x5B))]
    );
}

#[test]
fn ecall_unknown_function_halts() {
    // a7 = 17 is not a recognized function and a0 is neither 1 nor 10.
    let words = [0x01100893, 0x00000073, 0x00008067];
    let mut prog = make_prog(&words);
    let (out, outs) = run_seq(&mut prog, 0x1000, 1_000_000);
    assert!(out.halted);
    assert_eq!(outs, vec![SimOutput::Halt(HaltCause::EcallUnknown(17))]);
}

#[test]
fn divide_by_zero_warns_with_address() {
    // addi x5, x0, 10; add x6, x0, x0; div x7, x5, x6 -- the div sits at
    // 0x1008 and its fault is reported.
    let words = [0x00A00293, 0x00000333, 0x0262C3B3];
    let mut prog = make_prog(&words);
    let (out, outs) = run_seq(&mut prog, 0x1000, 1_000_000);
    assert!(out.halted);
    assert_eq!(
        outs,
        vec![SimOutput::Halt(HaltCause::DivideByZero(0x1008))]
    );
}

#[test]
fn pipeline_divide_by_zero_warns() {
    let words = [0x00A00293, 0x00000333, 0x0262C3B3];
    let mut prog = make_prog(&words);
    let (out, outs) = run_pipeline(&mut prog, 0x1000, 1_000_000);
    assert!(out.halted);
    assert!(outs.contains(&SimOutput::Halt(HaltCause::DivideByZero(0x1008))));
}

#[test]
fn load_fault_warns_with_address() {
    let words = [0x000E3303, 0x00008067];
    let mut prog = make_prog(&words);
    prog.registers.write(RegID::X28, 0x9000_0000);
    let (out, outs) = run_seq(&mut prog, 0x1000, 1_000_000);
    assert!(out.halted);
    assert_eq!(
        outs,
        vec![SimOutput::Halt(HaltCause::LoadFault(0x9000_0000))]
    );
}

#[test]
fn store_fault_warns_with_address() {
    // sd x5, 0(x28) with x28 pointing at the read-only code area
    let words = [0x005E3023];
    let mut prog = make_prog(&words);
    prog.registers.write(RegID::X28, 0x1000);
    let (out, outs) = run_seq(&mut prog, 0x1000, 1_000_000);
    assert!(out.halted);
    assert_eq!(outs, vec![SimOutput::Halt(HaltCause::StoreFault(0x1000))]);
}

#[test]
fn advance_steps_through_stages() {
    // addi x5, x0, 7, stepped one cycle at a time: the fetch address is
    // recorded once and the stage result appears in Execute.
    let mut prog = make_prog(&[0x00700293, 0x00008067]);
    let inst = Inst::new();
    let inst = inst.advance(&mut prog).unwrap();
    assert_eq!(inst.stage(), Stage::Decode);
    assert_eq!(inst.pc(), 0x1000);
    assert_eq!(inst.next_pc(), 0x1004);
    assert!(matches!(inst.code(), InstCode::Addi(RegID::X5, RegID::X0, 7)));
    let inst = inst.advance(&mut prog).unwrap();
    assert_eq!(inst.stage(), Stage::Execute);
    assert_eq!(inst.pc(), 0x1000);
    let inst = inst.advance(&mut prog).unwrap();
    assert_eq!(inst.stage(), Stage::Memory);
    assert_eq!(inst.val_e, 7);
    let inst = inst.advance(&mut prog).unwrap();
    assert_eq!(inst.stage(), Stage::Writeback);
    assert_eq!(inst.pc(), 0x1000);
    match inst.advance(&mut prog) {
        Err(next) => assert_eq!(next, 0x1004),
        Ok(_) => panic!("the instruction must retire from Writeback"),
    }
    assert_eq!(reg(&prog, RegID::X5), 7);
}

#[test]
fn multiplication_spends_two_execute_cycles() {
    let mut prog = make_prog(&[0x026283B3]);
    let mut inst = Inst {
        code: InstCode::Mul(RegID::X7, RegID::X5, RegID::X6),
        pc: 0x1000,
        next_pc: 0x1004,
        stage: Stage::Execute,
        progress: 0,
        val1: 6,
        val2: 7,
        val_e: 0,
        val_m: 0,
    };
    prog.registers.lock(RegID::X7);
    inst = inst.advance(&mut prog).unwrap();
    assert_eq!(inst.stage(), Stage::Execute);
    assert_eq!(inst.progress(), 1);
    inst = inst.advance(&mut prog).unwrap();
    assert_eq!(inst.stage(), Stage::Memory);
    assert_eq!(inst.val_e, 42);
}

#[test]
fn logical_operations() {
    // addi x5, x0, 0xF0; addi x6, x0, 0x0F; xor x7; or x8; and x9
    let prog = run(&[
        0x0F000293, 0x00F00313, 0x0062C3B3, 0x0062E433, 0x0062F4B3, 0x00008067,
    ]);
    assert_eq!(reg(&prog, RegID::X7), 0xFF);
    assert_eq!(reg(&prog, RegID::X8), 0xFF);
    assert_eq!(reg(&prog, RegID::X9), 0x00);
}

#[test]
fn auipc_adds_to_fetch_address() {
    // auipc x5, 0 at address 0x1000
    let prog = run(&[0x00000297, 0x00008067]);
    assert_eq!(reg(&prog, RegID::X5), 0x1000);
}

#[test]
fn halfword_store_load_round_trip() {
    // addi x5, x0, -2; sh x5, 0(x28); lh x6, 0(x28); lhu x7, 0(x28)
    let words = [
        0xFFE00293, 0x005E1023, 0x000E1303, 0x000E5383, 0x00008067,
    ];
    let mut prog = make_prog(&words);
    prog.registers.write(RegID::X28, 0x2000);
    let (out, _) = run_seq(&mut prog, 0x1000, 1_000_000);
    assert!(out.halted);
    assert_eq!(reg(&prog, RegID::X6), (-2i64) as u64);
    assert_eq!(reg(&prog, RegID::X7), 0xFFFE);
}

#[test]
fn not_taken_branch_falls_through() {
    // addi x5, x0, 1; addi x6, x0, 2; beq x5, x6, +8; addi x7, x0, 99;
    // jalr x0, x1, 0
    let prog = run(&[
        0x00100293, 0x00200313, 0x00628463, 0x06300393, 0x00008067,
    ]);
    assert_eq!(reg(&prog, RegID::X7), 99);
}
