use rv32i::bits::sext;
use rv32i::cpu::CPU;
use rv32i::isa::{get_inst, get_opcode, parse_inst, DecodeError, Instruction, InstructionType, I, RV32I};

#[test]
fn decode_addi_fields() {
    let i = Instruction::from(0x06408093);
    assert!(matches!(i.inst, RV32I::ADDI));
    assert_eq!(i.raw, 0x06408093);
    match i.inst_type {
        InstructionType::I(p) => {
            assert_eq!(p.imm, 100);
            assert_eq!(p.rs1, 1);
            assert_eq!(p.funct3, 0);
            assert_eq!(p.rd, 1);
            assert_eq!(p.opcode, 0x13);
        }
        _ => panic!("ADDI must decode as I-format"),
    }
}

#[test]
fn decode_sign_extends_at_decode_time() {
    // ADDI x3,x2,-1: the stored immediate is the full 32-bit pattern.
    let i = Instruction::from(0xfff10193);
    match i.inst_type {
        InstructionType::I(p) => {
            assert_eq!(p.imm, 0xffffffff);
            assert_eq!(p.rs1, 2);
            assert_eq!(p.rd, 3);
        }
        _ => panic!("ADDI must decode as I-format"),
    }
}

#[test]
fn decode_branch_and_jump_immediates() {
    // BEQ x1,x2,+8
    let b = Instruction::from(0x00208463);
    assert!(matches!(b.inst, RV32I::BEQ));
    match b.inst_type {
        InstructionType::B(p) => {
            assert_eq!(p.imm, 8);
            assert_eq!(p.rs1, 1);
            assert_eq!(p.rs2, 2);
        }
        _ => panic!("BEQ must decode as B-format"),
    }

    // JAL x1,+8
    let j = Instruction::from(0x008000ef);
    assert!(matches!(j.inst, RV32I::JAL));
    match j.inst_type {
        InstructionType::J(p) => {
            assert_eq!(p.imm, 8);
            assert_eq!(p.rd, 1);
        }
        _ => panic!("JAL must decode as J-format"),
    }

    // LUI x1,1: the U immediate keeps its position, low 12 bits zero.
    let u = Instruction::from(0x000010b7);
    match u.inst_type {
        InstructionType::U(p) => {
            assert_eq!(p.imm, 0x1000);
            assert_eq!(p.rd, 1);
        }
        _ => panic!("LUI must decode as U-format"),
    }
}

#[test]
fn decode_system_and_fence() {
    assert!(matches!(Instruction::from(0x00000073).inst, RV32I::ECALL));
    assert!(matches!(Instruction::from(0x00100073).inst, RV32I::EBREAK));
    let f = Instruction::from(0x0ff0000f);
    assert!(matches!(f.inst, RV32I::FENCE));
    match f.inst_type {
        InstructionType::Fence(p) => {
            assert_eq!(p.pred, 0xf);
            assert_eq!(p.succ, 0xf);
        }
        _ => panic!("FENCE must decode as the FENCE sub-form"),
    }
}

#[test]
fn decode_is_a_function_of_the_word() {
    // Decoding the same word twice yields identical instructions.
    for w in [0x06408093u32, 0x000010b7, 0x00208463, 0x008000ef, 0, 0x00000013] {
        let a = Instruction::from(w);
        let b = Instruction::from(w);
        assert_eq!(a, b);
    }
}

#[test]
fn encode_decode_round_trip() {
    let words = [
        0x06408093u32, // ADDI x1,x0,100
        0xfff10193, // ADDI x3,x2,-1
        0x06402093, // SLTI
        0xfff03213, // SLTIU
        0x0f00f313, // ANDI
        0x00409093, // SLLI x1,x1,4
        0x0020d193, // SRLI x3,x1,2
        0x4020d113, // SRAI x2,x1,2
        0x000010b7, // LUI x1,1
        0x00000117, // AUIPC x2,0
        0x008000ef, // JAL x1,+8
        0x00808067, // JALR x0,x1,+8
        0x00208463, // BEQ x1,x2,+8
        0xfe209ee3, // BNE x1,x2,-4
        0x00100023, // SB x1,0(x0)
        0x00101223, // SH x1,4(x0)
        0x00102423, // SW x1,8(x0)
        0x00000183, // LB x3,0(x0)
        0x00401183, // LH x3,4(x0)
        0x00802203, // LW x4,8(x0)
        0x00004103, // LBU x2,0(x0)
        0x00405103, // LHU x2,4(x0)
        0x00108233, // ADD x4,x1,x1
        0x401002b3, // SUB x5,x0,x1
        0x402081b3, // SUB x3,x1,x2
        0x4020d233, // SRA x4,x1,x2
        0x0ff0000f, // FENCE
        0x00000073, // ECALL
        0x00100073, // EBREAK
        0x00000013, // the canonical NOP
        0x00000000, // the all-zero word
    ];
    for w in words {
        let i = Instruction::from(w);
        assert_eq!(i.to_bin(), w);
    }
}

#[test]
fn nop_detection() {
    assert!(Instruction::from(0).is_nop());
    assert!(Instruction::from(0x00000013).is_nop());
    // ADDI x0,x0,5 writes nothing but is not a NOP.
    assert!(!Instruction::from(0x00500013).is_nop());
    // ADDI x1,x0,0 has a destination, so it is not a NOP.
    assert!(!Instruction::from(0x00000093).is_nop());
    assert!(!Instruction::from(0x000010b7).is_nop());
}

#[test]
fn opcode_extraction() {
    assert_eq!(get_opcode(0x06408093), 0x13);
    assert_eq!(get_opcode(0x000010b7), 0x37);
    assert_eq!(get_opcode(0xffffffff), 0x7f);
}

#[test]
fn decode_failures() {
    let cpu = CPU::new();
    // Opcode 0b1010111 is not part of RV32I.
    assert_eq!(cpu.decode(0x00000057), Err(DecodeError::UnknownOpcode));
    // A nonzero word whose opcode is zero.
    assert_eq!(cpu.decode(0x00000080), Err(DecodeError::UnknownOpcode));
    // A load with funct3 0b011.
    assert_eq!(cpu.decode(0x00003003), Err(DecodeError::IllegalFunct));
    // A branch with funct3 0b010.
    assert_eq!(cpu.decode(0x0020a463), Err(DecodeError::IllegalFunct));
    // An R-type word with funct7 0b0000001.
    assert_eq!(cpu.decode(0x022081b3), Err(DecodeError::IllegalFunct));
    // A shift immediate with illegal upper bits.
    assert_eq!(cpu.decode(0x40009093), Err(DecodeError::IllegalFunct));
    // A FENCE with nonzero funct3.
    assert_eq!(cpu.decode(0x0000100f), Err(DecodeError::IllegalFunct));
    // A SYSTEM word with a selector above one.
    assert_eq!(cpu.decode(0x00200073), Err(DecodeError::IllegalFunct));
    // Valid words decode.
    assert!(cpu.decode(0x06408093).is_ok());
    assert!(cpu.decode(0).is_ok());
}

#[test]
fn parse_and_resolve_separately() {
    let t = parse_inst(0x06408093).unwrap();
    assert_eq!(get_inst(t), Ok(RV32I::ADDI));
    assert!(parse_inst(0x00000057).is_err());

    // SRAI is told apart from SRLI by bit 30, seen in the stored immediate.
    let t = parse_inst(0x4020d113).unwrap();
    assert_eq!(get_inst(t), Ok(RV32I::SRAI));
    let t = parse_inst(0x0020d113).unwrap();
    assert_eq!(get_inst(t), Ok(RV32I::SRLI));

    // An I-payload built by hand with an illegal shift immediate.
    let bad = InstructionType::I(I { imm: 1024, rs1: 0, funct3: 1, rd: 1, opcode: 0x13 });
    assert_eq!(get_inst(bad), Err(DecodeError::IllegalFunct));

    // funct3 values above 7 can only occur in hand-built payloads; they do
    // not resolve.
    let bad = InstructionType::I(I { imm: 0, rs1: 0, funct3: 8, rd: 1, opcode: 0x13 });
    assert_eq!(get_inst(bad), Err(DecodeError::IllegalFunct));
    let bad = InstructionType::R(rv32i::isa::R { rd: 1, rs1: 0, rs2: 0, funct3: 9, funct7: 0 });
    assert_eq!(get_inst(bad), Err(DecodeError::IllegalFunct));
}

#[test]
fn instruction_new_builds_immediate_alu_words() {
    let i = Instruction::new(RV32I::ADDI, 100, 1, 0, 1);
    assert_eq!(i.to_bin(), 0x06408093);
    assert_eq!(i.raw, 0);

    // A negative immediate is handed over as its 32-bit pattern.
    let i = Instruction::new(RV32I::ADDI, -1i32 as u32, 2, 0, 3);
    assert_eq!(i.to_bin(), 0xfff10193);
}

#[test]
fn sext_sign_extends_twelve_bits() {
    assert_eq!(sext(0x000), 0);
    assert_eq!(sext(0x001), 1);
    assert_eq!(sext(0x7ff), 2047);
    assert_eq!(sext(0x800), -2048);
    assert_eq!(sext(0xfff), -1);
    // Bits above the low twelve are ignored.
    assert_eq!(sext(0xabcd_ffff), -1);
}
