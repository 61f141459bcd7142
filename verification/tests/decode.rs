use rsim_pipe::InstCode;
use rsim_pipe::RegID;

fn parse_word(word: u32) -> (InstCode, usize) {
    InstCode::parse((word & 0xFFFF) as u16, (word >> 16) as u16)
}

#[test]
fn parse_addi_positive() {
    let (code, len) = parse_word(0x00700293);
    assert_eq!(len, 32);
    assert_eq!(code, InstCode::Addi(RegID::X5, RegID::X0, 7));
}

#[test]
fn parse_addi_negative_imm_sign_extends() {
    // addi x5, x0, -1: the 12-bit immediate 0xFFF must come out as -1.
    let (code, len) = parse_word(0xFFF00293);
    assert_eq!(len, 32);
    assert_eq!(code, InstCode::Addi(RegID::X5, RegID::X0, -1));
}

#[test]
fn parse_add_registers() {
    let (code, _) = parse_word(0x006283B3);
    assert_eq!(code, InstCode::Add(RegID::X7, RegID::X5, RegID::X6));
}

#[test]
fn parse_shift_immediates() {
    let (srli, _) = parse_word(0x0042D313);
    assert_eq!(srli, InstCode::Srli(RegID::X6, RegID::X5, 4));
    let (srai, _) = parse_word(0x4042D393);
    assert_eq!(srai, InstCode::Srai(RegID::X7, RegID::X5, 0x404));
}

#[test]
fn parse_store_and_load() {
    let (sd, _) = parse_word(0x005E3023);
    assert_eq!(sd, InstCode::Sd(RegID::X28, RegID::X5, 0));
    let (ld, _) = parse_word(0x000E3303);
    assert_eq!(ld, InstCode::Ld(RegID::X6, RegID::X28, 0));
}

#[test]
fn parse_branch_offset() {
    // beq x5, x6, +8
    let (code, _) = parse_word(0x00628463);
    assert_eq!(code, InstCode::Beq(RegID::X5, RegID::X6, 8));
}

#[test]
fn parse_jal_negative_offset_sign_extends() {
    // jal x0, -4: the 21-bit offset must come out negative.
    let (code, _) = parse_word(0xFFDFF06F);
    assert_eq!(code, InstCode::Jal(RegID::X0, -4));
}

#[test]
fn parse_jalr_return() {
    let (code, _) = parse_word(0x00008067);
    assert_eq!(code, InstCode::Jalr(RegID::X0, RegID::X1, 0));
}

#[test]
fn parse_lui_auipc() {
    // lui x5, 0x12345
    let (lui, _) = parse_word(0x123452B7);
    assert_eq!(lui, InstCode::Lui(RegID::X5, 0x12345000));
    // auipc x5, 0x1
    let (auipc, _) = parse_word(0x00001297);
    assert_eq!(auipc, InstCode::Auipc(RegID::X5, 0x1000));
}

#[test]
fn parse_ecall() {
    let (code, _) = parse_word(0x00000073);
    assert_eq!(code, InstCode::Ecall);
}

#[test]
fn parse_mul_div() {
    let (mul, _) = parse_word(0x026283B3);
    assert_eq!(mul, InstCode::Mul(RegID::X7, RegID::X5, RegID::X6));
    let (div, _) = parse_word(0x0262C3B3);
    assert_eq!(div, InstCode::Div(RegID::X7, RegID::X5, RegID::X6));
}

#[test]
fn parse_compressed_nop() {
    let (code, len) = InstCode::parse(0x0001, 0);
    assert_eq!(len, 16);
    assert_eq!(code, InstCode::Addi(RegID::X0, RegID::X0, 0));
}

#[test]
fn parse_compressed_li_negative() {
    // c.li a0, -1
    let (code, len) = InstCode::parse(0x557D, 0);
    assert_eq!(len, 16);
    assert_eq!(code, InstCode::Addi(RegID::X10, RegID::X0, -1));
}

#[test]
fn parse_prolonged_encoding_rejected() {
    let (code, len) = InstCode::parse(0x001F, 0);
    assert_eq!(len, 32);
    assert_eq!(code, InstCode::IllegalProlonged);
}

#[test]
fn parse_unknown_opcode() {
    let (code, _) = parse_word(0x0000005B);
    assert_eq!(code, InstCode::Unknown(0x5B));
}

#[test]
fn parse_fence() {
    let (code, _) = parse_word(0x0FF0000F);
    assert_eq!(code, InstCode::Fence(0xF, 0xF));
}

#[test]
fn regid_round_trip() {
    for e in 0u8..32u8 {
        let id = RegID::decode(e);
        assert_eq!(id.encode(), e);
    }
    assert_eq!(RegID::decode(200), RegID::X0);
    assert_eq!(RegID::X2.abi_name(), "sp".to_string());
    assert_eq!(RegID::X0.abi_name(), "zero".to_string());
    assert_eq!(RegID::X0.description(), "hardwired zero".to_string());
}

#[test]
fn shift_immediate_reserved_bits_rejected() {
    // slli with immediate bit 6 set (funct6 = 000001) is not a valid RV64
    // encoding and must not decode as a shift.
    let (code, _) = parse_word(0x04029313);
    assert_eq!(code, InstCode::Unknown(0x04029313));
    // Likewise for srli/srai with a stray reserved bit.
    let (code, _) = parse_word(0x0402D313);
    assert_eq!(code, InstCode::Unknown(0x0402D313));
    // srai still decodes with its 0b010000 prefix intact.
    let (srai, _) = parse_word(0x4042D393);
    assert_eq!(srai, InstCode::Srai(RegID::X7, RegID::X5, 0x404));
}
