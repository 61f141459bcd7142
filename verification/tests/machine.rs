use rsim_pipe::LibFunc;
use rsim_pipe::loader::parse_dec_usize;
use rsim_pipe::loader::parse_hex_u64;
use rsim_pipe::Program;
use rsim_pipe::RegID;
use rsim_pipe::Register;
use rsim_pipe::RegisterFile;
use rsim_pipe::Stage;
use rsim_pipe::VMA;

fn data_vma(base: u64, bytes: Vec<u8>) -> VMA {
    VMA {
        lower_bound: base,
        size: bytes.len() as u64,
        readable: true,
        writable: true,
        executable: false,
        memory: bytes,
    }
}

fn prog_with(vmas: Vec<VMA>) -> Program {
    Program::assemble(0x1000, vmas, Vec::new(), Vec::new(), false)
}

#[test]
fn x0_reads_zero_and_discards_writes() {
    let mut r = Register::new(RegID::X0, false);
    assert_eq!(r.read(), Some(0));
    r.write(0xDEAD);
    assert_eq!(r.read(), Some(0));
    assert_eq!(r.value, 0);
}

#[test]
fn register_file_x0_immutable() {
    let mut rf = RegisterFile::new(false);
    rf.write(RegID::X0, 7);
    assert_eq!(rf.read(RegID::X0), Some(0));
    rf.write(RegID::X5, 7);
    assert_eq!(rf.read(RegID::X5), Some(7));
}

#[test]
fn locked_register_not_ready_without_forwarding() {
    let mut r = Register::new(RegID::X5, false);
    r.write(3);
    r.lock();
    assert_eq!(r.read(), None);
    r.unlock();
    assert_eq!(r.read(), Some(3));
}

#[test]
fn forwarded_value_served_while_locked() {
    let mut r = Register::new(RegID::X5, true);
    r.lock();
    assert_eq!(r.read(), None);
    r.forward(42, Stage::Memory);
    assert_eq!(r.read(), Some(42));
    // The forwarding slot is transient: the next cycle discards it.
    r.update_forward();
    assert_eq!(r.read(), None);
    assert!(r.forward_values.is_none());
}

#[test]
fn forwarding_disabled_is_inert() {
    let mut r = Register::new(RegID::X5, false);
    r.lock();
    r.forward(42, Stage::Memory);
    assert_eq!(r.read(), None);
    assert!(r.forward_values.is_none());
}

#[test]
fn clear_forwarding_clears_all() {
    let mut rf = RegisterFile::new(true);
    rf.forward(RegID::X5, 1, Stage::Memory);
    rf.forward(RegID::X6, 2, Stage::Memory);
    rf.update_forward();
    for reg in rf.registers.iter() {
        assert!(reg.forward_values.is_none());
    }
}

#[test]
fn store_load_round_trip() {
    let mut prog = prog_with(vec![data_vma(0x2000, vec![0u8; 64])]);
    let bytes = vec![1u8, 2, 3, 4, 5];
    assert!(prog.mem_store(0x2010, &bytes));
    let (read, rem) = prog.mem_load(0x2010, 5, false).unwrap();
    assert_eq!(rem, 0);
    assert_eq!(read, bytes);
}

#[test]
fn load_crossing_upper_bound_reports_remainder() {
    let prog = prog_with(vec![data_vma(0x2000, vec![0u8; 64])]);
    let (read, rem) = prog.mem_load(0x203E, 8, false).unwrap();
    assert_eq!(read.len(), 2);
    assert_eq!(rem, 6);
}

#[test]
fn load_unmapped_fails() {
    let prog = prog_with(vec![data_vma(0x2000, vec![0u8; 64])]);
    assert!(prog.mem_load(0x9000_0000, 4, false).is_none());
}

#[test]
fn load_needs_read_or_fetch_permission() {
    let vma = VMA {
        lower_bound: 0x1000,
        size: 4,
        readable: false,
        writable: false,
        executable: true,
        memory: vec![0u8; 4],
    };
    let prog = prog_with(vec![vma]);
    assert!(prog.mem_load(0x1000, 4, false).is_none());
    // An instruction fetch may rely on the execute permission instead.
    assert!(prog.mem_load(0x1000, 4, true).is_some());
}

#[test]
fn store_to_readonly_fails() {
    let vma = VMA {
        lower_bound: 0x2000,
        size: 16,
        readable: true,
        writable: false,
        executable: false,
        memory: vec![0u8; 16],
    };
    let mut prog = prog_with(vec![vma]);
    assert!(!prog.mem_store(0x2000, &vec![1u8]));
}

#[test]
fn store_spans_adjacent_vmas() {
    let a = data_vma(0x2000, vec![0u8; 8]);
    let b = data_vma(0x2008, vec![0u8; 8]);
    let mut prog = prog_with(vec![a, b]);
    let bytes = vec![9u8, 8, 7, 6];
    assert!(prog.mem_store(0x2006, &bytes));
    let (lo, rem_lo) = prog.mem_load(0x2006, 2, false).unwrap();
    assert_eq!(rem_lo, 0);
    assert_eq!(lo, vec![9u8, 8]);
    let (hi, rem_hi) = prog.mem_load(0x2008, 2, false).unwrap();
    assert_eq!(rem_hi, 0);
    assert_eq!(hi, vec![7u8, 6]);
}

#[test]
fn cstring_walks_to_nul() {
    let mut bytes = vec![0u8; 16];
    bytes[2] = b'h';
    bytes[3] = b'i';
    let prog = prog_with(vec![data_vma(0x2000, bytes)]);
    assert_eq!(prog.cstring_at(0x2002), Some(vec![b'h', b'i', 0]));
    assert!(prog.cstring_at(0x9000_0000).is_none());
}

#[test]
fn assembled_image_has_stack_and_halt_link() {
    let prog = prog_with(Vec::new());
    assert_eq!(prog.registers.read(RegID::X2), Some(0x4000000));
    assert_eq!(prog.registers.read(RegID::X1), Some(0xFFFFFFFFFFFFFFFE));
    assert_eq!(prog.entry_point, 0x1000);
    assert_eq!(prog.program_counter, 0x1000);
    // The stack is mapped read-write just below its top.
    let (b, rem) = prog.mem_load(0x4000000 - 8, 8, false).unwrap();
    assert_eq!(rem, 0);
    assert_eq!(b, vec![0u8; 8]);
}

#[test]
fn lib_func_lookup_finds_first_match() {
    let mut prog = prog_with(Vec::new());
    prog.simulated_library_funcs.push((0x3000, LibFunc::Puts));
    prog.simulated_library_funcs.push((0x3010, LibFunc::Printf));
    assert_eq!(prog.lib_func_at(0x3000), Some(LibFunc::Puts));
    assert_eq!(prog.lib_func_at(0x3010), Some(LibFunc::Printf));
    assert_eq!(prog.lib_func_at(0x4000), None);
}

#[test]
fn hex_parsing_exact() {
    assert_eq!(parse_hex_u64(b"0"), Some(0));
    assert_eq!(parse_hex_u64(b"1f"), Some(0x1F));
    assert_eq!(parse_hex_u64(b"DEADbeef"), Some(0xDEAD_BEEF));
    assert_eq!(parse_hex_u64(b"ffffffffffffffff"), Some(u64::MAX));
    assert_eq!(parse_hex_u64(b"10000000000000000"), None);
    assert_eq!(parse_hex_u64(b""), None);
    assert_eq!(parse_hex_u64(b"12g4"), None);
}

#[test]
fn dec_parsing_exact() {
    assert_eq!(parse_dec_usize(b"0"), Some(0));
    assert_eq!(parse_dec_usize(b"1234"), Some(1234));
    assert_eq!(parse_dec_usize(b"99x"), None);
    assert_eq!(parse_dec_usize(b""), None);
}
