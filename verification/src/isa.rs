//! Instruction words, decoding and encoding.
//!
//! The low 7 bits of a word select its format; the remaining fields are
//! sliced out and every immediate is sign-extended to a full 32-bit pattern
//! at decode time, so the executor works with plain 32-bit values.

use vstd::prelude::*;

use crate::bits::{sext12, sext13, sext21};

verus! {

/// The forty RV32I mnemonics.
#[derive(Debug, Clone, Copy, PartialEq, Eq, Structural)]
pub enum RV32I {
    LUI,
    AUIPC,
    JAL,
    JALR,
    BEQ,
    BNE,
    BLT,
    BGE,
    BLTU,
    BGEU,
    LB,
    LH,
    LW,
    LBU,
    LHU,
    SB,
    SH,
    SW,
    ADDI,
    SLTI,
    SLTIU,
    XORI,
    ORI,
    ANDI,
    SLLI,
    SRLI,
    SRAI,
    ADD,
    SUB,
    SLL,
    SLT,
    SLTU,
    XOR,
    SRL,
    SRA,
    OR,
    AND,
    FENCE,
    ECALL,
    EBREAK,
}

/// I-format payload. `imm` holds the final sign-extended 32-bit pattern.
/// The SYSTEM group (ECALL/EBREAK) shares this payload, with `opcode`
/// 0b1110011 and the selector in `imm`.
#[derive(Debug, Clone, Copy, PartialEq, Eq, Structural)]
pub struct I {
    pub imm: u32,
    pub rs1: u8,
    pub funct3: u8,
    pub rd: u8,
    pub opcode: u8,
}

/// U-format payload. `imm` holds the upper 20 bits in place (low 12 zero).
#[derive(Debug, Clone, Copy, PartialEq, Eq, Structural)]
pub struct U {
    pub imm: u32,
    pub rd: u8,
    pub opcode: u8,
}

/// R-format payload.
#[derive(Debug, Clone, Copy, PartialEq, Eq, Structural)]
pub struct R {
    pub rd: u8,
    pub rs1: u8,
    pub rs2: u8,
    pub funct3: u8,
    pub funct7: u8,
}

/// S-format payload. `imm` holds the final sign-extended 32-bit pattern.
#[derive(Debug, Clone, Copy, PartialEq, Eq, Structural)]
pub struct S {
    pub imm: u32,
    pub rs1: u8,
    pub rs2: u8,
    pub funct3: u8,
}

/// B-format payload. `imm` holds the final sign-extended 32-bit pattern,
/// always even.
#[derive(Debug, Clone, Copy, PartialEq, Eq, Structural)]
pub struct B {
    pub imm: u32,
    pub rs1: u8,
    pub rs2: u8,
    pub funct3: u8,
}

/// J-format payload. `imm` holds the final sign-extended 32-bit pattern,
/// always even.
#[derive(Debug, Clone, Copy, PartialEq, Eq, Structural)]
pub struct J {
    pub imm: u32,
    pub rd: u8,
}

/// FENCE sub-form: predecessor and successor ordering masks.
#[derive(Debug, Clone, Copy, PartialEq, Eq, Structural)]
pub struct Fence {
    pub pred: u8,
    pub succ: u8,
}

/// The decoded instruction formats.
#[derive(Debug, Clone, Copy, PartialEq, Eq, Structural)]
pub enum InstructionType {
    R(R),
    I(I),
    S(S),
    B(B),
    U(U),
    J(J),
    Fence(Fence),
}

/// A decode failure: the word's opcode is not part of RV32I, or the
/// funct3/funct7 (or SYSTEM/shift discriminator) combination is illegal.
#[derive(Debug, Clone, Copy, PartialEq, Eq, Structural)]
pub enum DecodeError {
    UnknownOpcode,
    IllegalFunct,
}

/// A decoded instruction: mnemonic, format payload, and the raw word it was
/// decoded from (zero for instructions built directly from fields).
#[derive(Debug, Clone, Copy, PartialEq, Eq, Structural)]
pub struct Instruction {
    pub inst_type: InstructionType,
    pub inst: RV32I,
    pub raw: u32,
}

// ---------------------------------------------------------------------------
// Bitfield accessors of an instruction word.

/// Low 7 bits: the opcode.
pub open spec fn opcode_of(w: u32) -> u32 {
    w & 0x7f
}

/// Bits 11..7: the destination register.
pub open spec fn rd_of(w: u32) -> u32 {
    (w >> 7) & 0x1f
}

/// Bits 14..12: funct3.
pub open spec fn funct3_of(w: u32) -> u32 {
    (w >> 12) & 0x7
}

/// Bits 19..15: the first source register.
pub open spec fn rs1_of(w: u32) -> u32 {
    (w >> 15) & 0x1f
}

/// Bits 24..20: the second source register.
pub open spec fn rs2_of(w: u32) -> u32 {
    (w >> 20) & 0x1f
}

/// Bits 31..25: funct7.
pub open spec fn funct7_of(w: u32) -> u32 {
    w >> 25
}

/// The sign-extended I-format immediate: bits 31..20.
pub open spec fn imm_i_of(w: u32) -> u32 {
    sext12(w >> 20)
}

/// The sign-extended S-format immediate: bits 31..25 over bits 11..7.
pub open spec fn imm_s_of(w: u32) -> u32 {
    sext12(((w >> 25) << 5) | ((w >> 7) & 0x1f))
}

/// The sign-extended B-format immediate:
/// bit 31, bit 7, bits 30..25, bits 11..8, then a zero bit.
pub open spec fn imm_b_of(w: u32) -> u32 {
    sext13(((w >> 31) << 12) | (((w >> 7) & 0x1) << 11) | (((w >> 25) & 0x3f) << 5) | (((w >> 8)
        & 0xf) << 1))
}

/// The U-format immediate: bits 31..12 in place, low 12 bits zero.
pub open spec fn imm_u_of(w: u32) -> u32 {
    w & 0xffff_f000
}

/// The sign-extended J-format immediate:
/// bit 31, bits 19..12, bit 20, bits 30..21, then a zero bit.
pub open spec fn imm_j_of(w: u32) -> u32 {
    sext21(((w >> 31) << 20) | (((w >> 12) & 0xff) << 12) | (((w >> 20) & 0x1) << 11) | (((w >> 21)
        & 0x3ff) << 1))
}

/// Bits 27..24: the FENCE predecessor mask.
pub open spec fn pred_of(w: u32) -> u32 {
    (w >> 24) & 0xf
}

/// Bits 23..20: the FENCE successor mask.
pub open spec fn succ_of(w: u32) -> u32 {
    (w >> 20) & 0xf
}

// ---------------------------------------------------------------------------
// Decoding.

/// Format classification and field extraction of a word.
///
/// The all-zero word is read as the canonical NOP payload; any other word
/// whose opcode is not in the RV32I table is an unknown opcode; a FENCE
/// word with a nonzero funct3 is an illegal funct combination.
pub open spec fn spec_parse_inst(w: u32) -> Result<InstructionType, DecodeError> {
    let opc = opcode_of(w);
    if w == 0 {
        Ok(InstructionType::I(I { imm: 0, rs1: 0, funct3: 0, rd: 0, opcode: 0 }))
    } else if opc == 0x67 || opc == 0x03 || opc == 0x13 || opc == 0x73 {
        Ok(
            InstructionType::I(
                I {
                    imm: imm_i_of(w),
                    rs1: rs1_of(w) as u8,
                    funct3: funct3_of(w) as u8,
                    rd: rd_of(w) as u8,
                    opcode: opc as u8,
                },
            ),
        )
    } else if opc == 0x37 || opc == 0x17 {
        Ok(InstructionType::U(U { imm: imm_u_of(w), rd: rd_of(w) as u8, opcode: opc as u8 }))
    } else if opc == 0x6f {
        Ok(InstructionType::J(J { imm: imm_j_of(w), rd: rd_of(w) as u8 }))
    } else if opc == 0x63 {
        Ok(
            InstructionType::B(
                B {
                    imm: imm_b_of(w),
                    rs1: rs1_of(w) as u8,
                    rs2: rs2_of(w) as u8,
                    funct3: funct3_of(w) as u8,
                },
            ),
        )
    } else if opc == 0x23 {
        Ok(
            InstructionType::S(
                S {
                    imm: imm_s_of(w),
                    rs1: rs1_of(w) as u8,
                    rs2: rs2_of(w) as u8,
                    funct3: funct3_of(w) as u8,
                },
            ),
        )
    } else if opc == 0x33 {
        Ok(
            InstructionType::R(
                R {
                    rd: rd_of(w) as u8,
                    rs1: rs1_of(w) as u8,
                    rs2: rs2_of(w) as u8,
                    funct3: funct3_of(w) as u8,
                    funct7: funct7_of(w) as u8,
                },
            ),
        )
    } else if opc == 0x0f {
        if funct3_of(w) == 0 {
            Ok(InstructionType::Fence(Fence { pred: pred_of(w) as u8, succ: succ_of(w) as u8 }))
        } else {
            Err(DecodeError::IllegalFunct)
        }
    } else {
        Err(DecodeError::UnknownOpcode)
    }
}

/// Resolution of a format payload to its mnemonic.
pub open spec fn spec_get_inst(t: InstructionType) -> Result<RV32I, DecodeError> {
    match t {
        InstructionType::I(i) => {
            if i.opcode == 0x67 {
                if i.funct3 == 0 {
                    Ok(RV32I::JALR)
                } else {
                    Err(DecodeError::IllegalFunct)
                }
            } else if i.opcode == 0x03 {
                if i.funct3 == 0 {
                    Ok(RV32I::LB)
                } else if i.funct3 == 1 {
                    Ok(RV32I::LH)
                } else if i.funct3 == 2 {
                    Ok(RV32I::LW)
                } else if i.funct3 == 4 {
                    Ok(RV32I::LBU)
                } else if i.funct3 == 5 {
                    Ok(RV32I::LHU)
                } else {
                    Err(DecodeError::IllegalFunct)
                }
            } else if i.opcode == 0x13 {
                if i.funct3 == 0 {
                    Ok(RV32I::ADDI)
                } else if i.funct3 == 1 {
                    if (i.imm >> 5) & 0x7f == 0 {
                        Ok(RV32I::SLLI)
                    } else {
                        Err(DecodeError::IllegalFunct)
                    }
                } else if i.funct3 == 2 {
                    Ok(RV32I::SLTI)
                } else if i.funct3 == 3 {
                    Ok(RV32I::SLTIU)
                } else if i.funct3 == 4 {
                    Ok(RV32I::XORI)
                } else if i.funct3 == 5 {
                    if (i.imm >> 5) & 0x7f == 0 {
                        Ok(RV32I::SRLI)
                    } else if (i.imm >> 5) & 0x7f == 0x20 {
                        Ok(RV32I::SRAI)
                    } else {
                        Err(DecodeError::IllegalFunct)
                    }
                } else if i.funct3 == 6 {
                    Ok(RV32I::ORI)
                } else if i.funct3 == 7 {
                    Ok(RV32I::ANDI)
                } else {
                    Err(DecodeError::IllegalFunct)
                }
            } else if i.opcode == 0x73 {
                if i.funct3 == 0 && i.rd == 0 && i.rs1 == 0 {
                    if i.imm == 0 {
                        Ok(RV32I::ECALL)
                    } else if i.imm == 1 {
                        Ok(RV32I::EBREAK)
                    } else {
                        Err(DecodeError::IllegalFunct)
                    }
                } else {
                    Err(DecodeError::IllegalFunct)
                }
            } else if i.opcode == 0 {
                if i.imm == 0 && i.rs1 == 0 && i.funct3 == 0 && i.rd == 0 {
                    Ok(RV32I::ADDI)
                } else {
                    Err(DecodeError::UnknownOpcode)
                }
            } else {
                Err(DecodeError::UnknownOpcode)
            }
        },
        InstructionType::U(u) => {
            if u.opcode == 0x37 {
                Ok(RV32I::LUI)
            } else if u.opcode == 0x17 {
                Ok(RV32I::AUIPC)
            } else {
                Err(DecodeError::UnknownOpcode)
            }
        },
        InstructionType::J(_) => Ok(RV32I::JAL),
        InstructionType::B(b) => {
            if b.funct3 == 0 {
                Ok(RV32I::BEQ)
            } else if b.funct3 == 1 {
                Ok(RV32I::BNE)
            } else if b.funct3 == 4 {
                Ok(RV32I::BLT)
            } else if b.funct3 == 5 {
                Ok(RV32I::BGE)
            } else if b.funct3 == 6 {
                Ok(RV32I::BLTU)
            } else if b.funct3 == 7 {
                Ok(RV32I::BGEU)
            } else {
                Err(DecodeError::IllegalFunct)
            }
        },
        InstructionType::S(s) => {
            if s.funct3 == 0 {
                Ok(RV32I::SB)
            } else if s.funct3 == 1 {
                Ok(RV32I::SH)
            } else if s.funct3 == 2 {
                Ok(RV32I::SW)
            } else {
                Err(DecodeError::IllegalFunct)
            }
        },
        InstructionType::R(r) => {
            if r.funct7 == 0 {
                if r.funct3 == 0 {
                    Ok(RV32I::ADD)
                } else if r.funct3 == 1 {
                    Ok(RV32I::SLL)
                } else if r.funct3 == 2 {
                    Ok(RV32I::SLT)
                } else if r.funct3 == 3 {
                    Ok(RV32I::SLTU)
                } else if r.funct3 == 4 {
                    Ok(RV32I::XOR)
                } else if r.funct3 == 5 {
                    Ok(RV32I::SRL)
                } else if r.funct3 == 6 {
                    Ok(RV32I::OR)
                } else if r.funct3 == 7 {
                    Ok(RV32I::AND)
                } else {
                    Err(DecodeError::IllegalFunct)
                }
            } else if r.funct7 == 0x20 {
                if r.funct3 == 0 {
                    Ok(RV32I::SUB)
                } else if r.funct3 == 5 {
                    Ok(RV32I::SRA)
                } else {
                    Err(DecodeError::IllegalFunct)
                }
            } else {
                Err(DecodeError::IllegalFunct)
            }
        },
        InstructionType::Fence(_) => Ok(RV32I::FENCE),
    }
}

/// Decoding of a word: format extraction, then mnemonic resolution.
pub open spec fn spec_decode(w: u32) -> Result<Instruction, DecodeError> {
    match spec_parse_inst(w) {
        Err(e) => Err(e),
        Ok(t) => match spec_get_inst(t) {
            Err(e) => Err(e),
            Ok(op) => Ok(Instruction { inst_type: t, inst: op, raw: w }),
        },
    }
}

/// Extract the opcode (low 7 bits) of an instruction word.
pub fn get_opcode(inst: u32) -> (r: u8)
    ensures
        r == opcode_of(inst) as u8,
        r == opcode_of(inst),
{
    proof {
        crate::bits::lemma_field_bounds(inst);
    }
    (inst & 0x7f) as u8
}

/// Classify a word's format and extract its fields.
pub fn parse_inst(inst: u32) -> (r: Result<InstructionType, DecodeError>)
    ensures
        r == spec_parse_inst(inst),
{
    proof {
        crate::bits::lemma_field_bounds(inst);
    }
    let opcode = get_opcode(inst);
    if inst == 0 {
        // The all-zero word is the canonical NOP: ADDI x0, x0, 0.
        return Ok(InstructionType::I(I { imm: 0, rs1: 0, funct3: 0, rd: 0, opcode: 0 }));
    }
    let rd = ((inst >> 7) & 0x1f) as u8;
    let funct3 = ((inst >> 12) & 0x7) as u8;
    let rs1 = ((inst >> 15) & 0x1f) as u8;
    let rs2 = ((inst >> 20) & 0x1f) as u8;
    match opcode {
        // I-type: JALR, the loads, the immediate ALU group, SYSTEM.
        0b1100111 | 0b0000011 | 0b0010011 | 0b1110011 => {
            let imm = crate::bits::sign_extend12(inst >> 20);
            Ok(InstructionType::I(I { imm, rs1, funct3, rd, opcode }))
        },
        // U-type: LUI, AUIPC.
        0b0110111 | 0b0010111 => {
            Ok(InstructionType::U(U { imm: inst & 0xffff_f000, rd, opcode }))
        },
        // J-type: JAL.
        0b1101111 => {
            let imm = crate::bits::sign_extend21(
                ((inst >> 31) << 20) | (((inst >> 12) & 0xff) << 12) | (((inst >> 20) & 0x1) << 11)
                    | (((inst >> 21) & 0x3ff) << 1),
            );
            Ok(InstructionType::J(J { imm, rd }))
        },
        // B-type: the branches.
        0b1100011 => {
            let imm = crate::bits::sign_extend13(
                ((inst >> 31) << 12) | (((inst >> 7) & 0x1) << 11) | (((inst >> 25) & 0x3f) << 5)
                    | (((inst >> 8) & 0xf) << 1),
            );
            Ok(InstructionType::B(B { imm, rs1, rs2, funct3 }))
        },
        // S-type: the stores.
        0b0100011 => {
            let imm = crate::bits::sign_extend12(((inst >> 25) << 5) | ((inst >> 7) & 0x1f));
            Ok(InstructionType::S(S { imm, rs1, rs2, funct3 }))
        },
        // R-type: the register-register ALU group.
        0b0110011 => {
            let funct7 = (inst >> 25) as u8;
            Ok(InstructionType::R(R { rd, rs1, rs2, funct3, funct7 }))
        },
        // FENCE.
        0b0001111 => {
            if funct3 == 0 {
                let pred = ((inst >> 24) & 0xf) as u8;
                let succ = ((inst >> 20) & 0xf) as u8;
                Ok(InstructionType::Fence(Fence { pred, succ }))
            } else {
                Err(DecodeError::IllegalFunct)
            }
        },
        _ => Err(DecodeError::UnknownOpcode),
    }
}

/// Resolve a format payload to its mnemonic.
pub fn get_inst(inst: InstructionType) -> (r: Result<RV32I, DecodeError>)
    ensures
        r == spec_get_inst(inst),
{
    match inst {
        InstructionType::I(i) => match i.opcode {
            0b1100111 => match i.funct3 {
                0b000 => Ok(RV32I::JALR),
                _ => Err(DecodeError::IllegalFunct),
            },
            0b0000011 => match i.funct3 {
                0b000 => Ok(RV32I::LB),
                0b001 => Ok(RV32I::LH),
                0b010 => Ok(RV32I::LW),
                0b100 => Ok(RV32I::LBU),
                0b101 => Ok(RV32I::LHU),
                _ => Err(DecodeError::IllegalFunct),
            },
            0b0010011 => match i.funct3 {
                0b000 => Ok(RV32I::ADDI),
                0b001 => {
                    if (i.imm >> 5) & 0x7f == 0 {
                        Ok(RV32I::SLLI)
                    } else {
                        Err(DecodeError::IllegalFunct)
                    }
                },
                0b010 => Ok(RV32I::SLTI),
                0b011 => Ok(RV32I::SLTIU),
                0b100 => Ok(RV32I::XORI),
                0b101 => {
                    if (i.imm >> 5) & 0x7f == 0 {
                        Ok(RV32I::SRLI)
                    } else if (i.imm >> 5) & 0x7f == 0x20 {
                        Ok(RV32I::SRAI)
                    } else {
                        Err(DecodeError::IllegalFunct)
                    }
                },
                0b110 => Ok(RV32I::ORI),
                0b111 => Ok(RV32I::ANDI),
                _ => Err(DecodeError::IllegalFunct),
            },
            0b1110011 => {
                if i.funct3 == 0 && i.rd == 0 && i.rs1 == 0 {
                    if i.imm == 0 {
                        Ok(RV32I::ECALL)
                    } else if i.imm == 1 {
                        Ok(RV32I::EBREAK)
                    } else {
                        Err(DecodeError::IllegalFunct)
                    }
                } else {
                    Err(DecodeError::IllegalFunct)
                }
            },
            0b0000000 => {
                if i.imm == 0 && i.rs1 == 0 && i.funct3 == 0 && i.rd == 0 {
                    Ok(RV32I::ADDI)
                } else {
                    Err(DecodeError::UnknownOpcode)
                }
            },
            _ => Err(DecodeError::UnknownOpcode),
        },
        InstructionType::U(u) => match u.opcode {
            0b0110111 => Ok(RV32I::LUI),
            0b0010111 => Ok(RV32I::AUIPC),
            _ => Err(DecodeError::UnknownOpcode),
        },
        InstructionType::J(_) => Ok(RV32I::JAL),
        InstructionType::B(b) => match b.funct3 {
            0b000 => Ok(RV32I::BEQ),
            0b001 => Ok(RV32I::BNE),
            0b100 => Ok(RV32I::BLT),
            0b101 => Ok(RV32I::BGE),
            0b110 => Ok(RV32I::BLTU),
            0b111 => Ok(RV32I::BGEU),
            _ => Err(DecodeError::IllegalFunct),
        },
        InstructionType::S(s) => match s.funct3 {
            0b000 => Ok(RV32I::SB),
            0b001 => Ok(RV32I::SH),
            0b010 => Ok(RV32I::SW),
            _ => Err(DecodeError::IllegalFunct),
        },
        InstructionType::R(r) => match r.funct7 {
            0b0000000 => match r.funct3 {
                0b000 => Ok(RV32I::ADD),
                0b001 => Ok(RV32I::SLL),
                0b010 => Ok(RV32I::SLT),
                0b011 => Ok(RV32I::SLTU),
                0b100 => Ok(RV32I::XOR),
                0b101 => Ok(RV32I::SRL),
                0b110 => Ok(RV32I::OR),
                0b111 => Ok(RV32I::AND),
                _ => Err(DecodeError::IllegalFunct),
            },
            0b0100000 => match r.funct3 {
                0b000 => Ok(RV32I::SUB),
                0b101 => Ok(RV32I::SRA),
                _ => Err(DecodeError::IllegalFunct),
            },
            _ => Err(DecodeError::IllegalFunct),
        },
        InstructionType::Fence(_) => Ok(RV32I::FENCE),
    }
}

impl Instruction {
    /// Decode a word known to be a valid RV32I instruction.
    pub fn from(inst: u32) -> (r: Self)
        requires
            spec_decode(inst) is Ok,
        ensures
            spec_decode(inst) == Ok::<Instruction, DecodeError>(r),
    {
        let inst_type = match parse_inst(inst) {
            Ok(t) => t,
            Err(_) => unreached(),
        };
        let decoded_inst = match get_inst(inst_type) {
            Ok(op) => op,
            Err(_) => unreached(),
        };
        Instruction { inst_type, inst: decoded_inst, raw: inst }
    }

    /// The NOP criterion: ADDI with rd, rs1 and immediate all zero.
    pub open spec fn spec_is_nop(self) -> bool {
        self.inst == RV32I::ADDI && match self.inst_type {
            InstructionType::I(i) => i.imm == 0 && i.rs1 == 0 && i.rd == 0,
            _ => false,
        }
    }

    /// Whether this instruction is a NOP: ADDI x0, x0, 0.
    pub fn is_nop(&self) -> (r: bool)
        ensures
            r == self.spec_is_nop(),
    {
        match self.inst {
            RV32I::ADDI => match self.inst_type {
                InstructionType::I(i) => i.imm == 0 && i.rs1 == 0 && i.rd == 0,
                _ => false,
            },
            _ => false,
        }
    }
}

// ---------------------------------------------------------------------------
// Encoding.

/// Pack an I-format payload into a word.
pub open spec fn pack_i(p: I) -> u32 {
    (p.imm << 20) | ((p.rs1 as u32) << 15) | ((p.funct3 as u32) << 12) | ((p.rd as u32) << 7) | (
    p.opcode as u32)
}

/// Pack a U-format payload into a word.
pub open spec fn pack_u(p: U) -> u32 {
    (p.imm & 0xffff_f000) | ((p.rd as u32) << 7) | (p.opcode as u32)
}

/// Pack an R-format payload into a word.
pub open spec fn pack_r(p: R) -> u32 {
    ((p.funct7 as u32) << 25) | ((p.rs2 as u32) << 20) | ((p.rs1 as u32) << 15) | ((
    p.funct3 as u32) << 12) | ((p.rd as u32) << 7) | 0x33
}

/// Pack an S-format payload into a word.
pub open spec fn pack_s(p: S) -> u32 {
    (((p.imm >> 5) & 0x7f) << 25) | ((p.rs2 as u32) << 20) | ((p.rs1 as u32) << 15) | ((
    p.funct3 as u32) << 12) | ((p.imm & 0x1f) << 7) | 0x23
}

/// Pack a B-format payload into a word.
pub open spec fn pack_b(p: B) -> u32 {
    (((p.imm >> 12) & 0x1) << 31) | (((p.imm >> 5) & 0x3f) << 25) | ((p.rs2 as u32) << 20) | ((
    p.rs1 as u32) << 15) | ((p.funct3 as u32) << 12) | (((p.imm >> 1) & 0xf) << 8) | (((p.imm
        >> 11) & 0x1) << 7) | 0x63
}

/// Pack a J-format payload into a word.
pub open spec fn pack_j(p: J) -> u32 {
    (((p.imm >> 20) & 0x1) << 31) | (((p.imm >> 1) & 0x3ff) << 21) | (((p.imm >> 11) & 0x1) << 20)
        | (((p.imm >> 12) & 0xff) << 12) | ((p.rd as u32) << 7) | 0x6f
}

/// Pack a FENCE payload into a word.
pub open spec fn pack_fence(p: Fence) -> u32 {
    ((p.pred as u32) << 24) | ((p.succ as u32) << 20) | 0x0f
}

/// Encode an instruction's payload back into a word. Don't-care bits are
/// emitted as zero.
pub open spec fn spec_encode(i: Instruction) -> u32 {
    match i.inst_type {
        InstructionType::I(p) => pack_i(p),
        InstructionType::U(p) => pack_u(p),
        InstructionType::R(p) => pack_r(p),
        InstructionType::S(p) => pack_s(p),
        InstructionType::B(p) => pack_b(p),
        InstructionType::J(p) => pack_j(p),
        InstructionType::Fence(p) => pack_fence(p),
    }
}

impl Instruction {
    /// Re-encode the instruction's fields into a 32-bit word.
    pub fn to_bin(&self) -> (r: u32)
        ensures
            r == spec_encode(*self),
    {
        match self.inst_type {
            InstructionType::I(p) => {
                (p.imm << 20) | ((p.rs1 as u32) << 15) | ((p.funct3 as u32) << 12) | ((
                p.rd as u32) << 7) | (p.opcode as u32)
            },
            InstructionType::U(p) => {
                (p.imm & 0xffff_f000) | ((p.rd as u32) << 7) | (p.opcode as u32)
            },
            InstructionType::R(p) => {
                ((p.funct7 as u32) << 25) | ((p.rs2 as u32) << 20) | ((p.rs1 as u32) << 15) | ((
                p.funct3 as u32) << 12) | ((p.rd as u32) << 7) | 0x33
            },
            InstructionType::S(p) => {
                (((p.imm >> 5) & 0x7f) << 25) | ((p.rs2 as u32) << 20) | ((p.rs1 as u32) << 15) | ((
                p.funct3 as u32) << 12) | ((p.imm & 0x1f) << 7) | 0x23
            },
            InstructionType::B(p) => {
                (((p.imm >> 12) & 0x1) << 31) | (((p.imm >> 5) & 0x3f) << 25) | ((p.rs2 as u32)
                    << 20) | ((p.rs1 as u32) << 15) | ((p.funct3 as u32) << 12) | (((p.imm >> 1)
                    & 0xf) << 8) | (((p.imm >> 11) & 0x1) << 7) | 0x63
            },
            InstructionType::J(p) => {
                (((p.imm >> 20) & 0x1) << 31) | (((p.imm >> 1) & 0x3ff) << 21) | (((p.imm >> 11)
                    & 0x1) << 20) | (((p.imm >> 12) & 0xff) << 12) | ((p.rd as u32) << 7) | 0x6f
            },
            InstructionType::Fence(p) => {
                ((p.pred as u32) << 24) | ((p.succ as u32) << 20) | 0x0f
            },
        }
    }

    /// Build an immediate-ALU instruction (opcode 0b0010011) from its fields.
    /// `imm` is the sign-extended 32-bit pattern of the immediate. The `raw`
    /// word is left zero: it records a decoded word, and this instruction was
    /// not decoded.
    pub fn new(inst: RV32I, imm: u32, rs1: u8, funct3: u8, rd: u8) -> (r: Self)
        ensures
            r == (Instruction {
                inst_type: InstructionType::I(I { imm, rs1, funct3, rd, opcode: 0x13 }),
                inst,
                raw: 0,
            }),
    {
        Instruction {
            inst,
            inst_type: InstructionType::I(I { imm, rs1, funct3, rd, opcode: 0x13 }),
            raw: 0,
        }
    }

    /// Payload shape and register-index bounds needed to execute the
    /// instruction: the format variant matches the mnemonic's group and
    /// every register index is below 32.
    pub open spec fn exec_wf(self) -> bool {
        match self.inst {
            RV32I::LUI | RV32I::AUIPC => self.inst_type matches InstructionType::U(u) && u.rd < 32,
            RV32I::JAL => self.inst_type matches InstructionType::J(j) && j.rd < 32,
            RV32I::JALR | RV32I::LB | RV32I::LH | RV32I::LW | RV32I::LBU | RV32I::LHU | RV32I::ADDI
                | RV32I::SLTI | RV32I::SLTIU | RV32I::XORI | RV32I::ORI | RV32I::ANDI | RV32I::SLLI
                | RV32I::SRLI | RV32I::SRAI => self.inst_type matches InstructionType::I(i) && i.rd
                < 32 && i.rs1 < 32,
            RV32I::BEQ | RV32I::BNE | RV32I::BLT | RV32I::BGE | RV32I::BLTU | RV32I::BGEU
                => self.inst_type matches InstructionType::B(b) && b.rs1 < 32 && b.rs2 < 32,
            RV32I::SB | RV32I::SH | RV32I::SW => self.inst_type matches InstructionType::S(s)
                && s.rs1 < 32 && s.rs2 < 32,
            RV32I::ADD | RV32I::SUB | RV32I::SLL | RV32I::SLT | RV32I::SLTU | RV32I::XOR
                | RV32I::SRL | RV32I::SRA | RV32I::OR | RV32I::AND => self.inst_type
                matches InstructionType::R(r) && r.rd < 32 && r.rs1 < 32 && r.rs2 < 32,
            RV32I::FENCE => self.inst_type matches InstructionType::Fence(_),
            RV32I::ECALL | RV32I::EBREAK => self.inst_type matches InstructionType::I(_),
        }
    }

    /// Full encoding validity: on top of `exec_wf`, the payload carries
    /// exactly the opcode, funct fields and canonically sign-extended
    /// immediate that the mnemonic is encoded with. Encoding a valid
    /// instruction and decoding the word recovers it.
    pub open spec fn encode_wf(self) -> bool {
        match self.inst {
            RV32I::LUI => self.inst_type matches InstructionType::U(u) && u.rd < 32 && u.opcode
                == 0x37 && u.imm & 0xfff == 0,
            RV32I::AUIPC => self.inst_type matches InstructionType::U(u) && u.rd < 32 && u.opcode
                == 0x17 && u.imm & 0xfff == 0,
            RV32I::JAL => self.inst_type matches InstructionType::J(j) && j.rd < 32 && j.imm
                == sext21(j.imm) && j.imm & 1 == 0,
            RV32I::JALR => self.i_wf(0x67, 0),
            RV32I::LB => self.i_wf(0x03, 0),
            RV32I::LH => self.i_wf(0x03, 1),
            RV32I::LW => self.i_wf(0x03, 2),
            RV32I::LBU => self.i_wf(0x03, 4),
            RV32I::LHU => self.i_wf(0x03, 5),
            RV32I::ADDI => self.i_wf(0x13, 0) || (self.inst_type matches InstructionType::I(i)
                && i.opcode == 0 && i.funct3 == 0 && i.imm == 0 && i.rs1 == 0 && i.rd == 0),
            RV32I::SLTI => self.i_wf(0x13, 2),
            RV32I::SLTIU => self.i_wf(0x13, 3),
            RV32I::XORI => self.i_wf(0x13, 4),
            RV32I::ORI => self.i_wf(0x13, 6),
            RV32I::ANDI => self.i_wf(0x13, 7),
            RV32I::SLLI => self.i_wf(0x13, 1) && (self.inst_type matches InstructionType::I(i)
                && i.imm < 32),
            RV32I::SRLI => self.i_wf(0x13, 5) && (self.inst_type matches InstructionType::I(i)
                && i.imm < 32),
            RV32I::SRAI => self.i_wf(0x13, 5) && (self.inst_type matches InstructionType::I(i)
                && i.imm >> 5 == 0x20),
            RV32I::BEQ => self.b_wf(0),
            RV32I::BNE => self.b_wf(1),
            RV32I::BLT => self.b_wf(4),
            RV32I::BGE => self.b_wf(5),
            RV32I::BLTU => self.b_wf(6),
            RV32I::BGEU => self.b_wf(7),
            RV32I::SB => self.s_wf(0),
            RV32I::SH => self.s_wf(1),
            RV32I::SW => self.s_wf(2),
            RV32I::ADD => self.r_wf(0, 0),
            RV32I::SLL => self.r_wf(1, 0),
            RV32I::SLT => self.r_wf(2, 0),
            RV32I::SLTU => self.r_wf(3, 0),
            RV32I::XOR => self.r_wf(4, 0),
            RV32I::SRL => self.r_wf(5, 0),
            RV32I::OR => self.r_wf(6, 0),
            RV32I::AND => self.r_wf(7, 0),
            RV32I::SUB => self.r_wf(0, 0x20),
            RV32I::SRA => self.r_wf(5, 0x20),
            RV32I::FENCE => self.inst_type matches InstructionType::Fence(f) && f.pred < 16
                && f.succ < 16,
            RV32I::ECALL => self.sys_wf(0),
            RV32I::EBREAK => self.sys_wf(1),
        }
    }

    /// Encoding validity of an I-format payload with the given opcode and
    /// funct3, and a canonically sign-extended immediate.
    pub open spec fn i_wf(self, opcode: u8, funct3: u8) -> bool {
        self.inst_type matches InstructionType::I(i) && i.rd < 32 && i.rs1 < 32 && i.opcode
            == opcode && i.funct3 == funct3 && i.imm == sext12(i.imm)
    }

    /// Encoding validity of a B-format payload with the given funct3.
    pub open spec fn b_wf(self, funct3: u8) -> bool {
        self.inst_type matches InstructionType::B(b) && b.rs1 < 32 && b.rs2 < 32 && b.funct3
            == funct3 && b.imm == sext13(b.imm) && b.imm & 1 == 0
    }

    /// Encoding validity of an S-format payload with the given funct3.
    pub open spec fn s_wf(self, funct3: u8) -> bool {
        self.inst_type matches InstructionType::S(s) && s.rs1 < 32 && s.rs2 < 32 && s.funct3
            == funct3 && s.imm == sext12(s.imm)
    }

    /// Encoding validity of an R-format payload with the given funct3 and
    /// funct7.
    pub open spec fn r_wf(self, funct3: u8, funct7: u8) -> bool {
        self.inst_type matches InstructionType::R(r) && r.rd < 32 && r.rs1 < 32 && r.rs2 < 32
            && r.funct3 == funct3 && r.funct7 == funct7
    }

    /// Encoding validity of a SYSTEM instruction with the given selector.
    pub open spec fn sys_wf(self, imm: u32) -> bool {
        self.inst_type matches InstructionType::I(i) && i.opcode == 0x73 && i.funct3 == 0 && i.rd
            == 0 && i.rs1 == 0 && i.imm == imm
    }
}

// ---------------------------------------------------------------------------
// Facts about the immediates a word decodes to, and about field extraction
// from a packed word.

/// Every immediate a word decodes to is canonically sign-extended; B- and
/// J-immediates are even; U-immediates have a zero low half; a shift
/// immediate whose upper bits read as zero (or as 0b0100000) is exactly a
/// shift amount (or 0b0100000 over one).
pub proof fn lemma_imm_canonical(w: u32)
    by (bit_vector)
    ensures
        sext12(imm_i_of(w)) == imm_i_of(w),
        sext12(imm_s_of(w)) == imm_s_of(w),
        sext13(imm_b_of(w)) == imm_b_of(w),
        imm_b_of(w) & 1 == 0,
        imm_u_of(w) & 0xfff == 0,
        sext21(imm_j_of(w)) == imm_j_of(w),
        imm_j_of(w) & 1 == 0,
        (imm_i_of(w) >> 5) & 0x7f == 0 ==> imm_i_of(w) < 32,
        (imm_i_of(w) >> 5) & 0x7f == 0x20 ==> imm_i_of(w) >> 5 == 0x20,
{
}

/// Field extraction from a packed I-format word.
pub proof fn lemma_pack_i(imm: u32, rs1: u32, funct3: u32, rd: u32, opcode: u32)
    by (bit_vector)
    requires
        rs1 < 32,
        funct3 < 8,
        rd < 32,
        opcode < 128,
    ensures
        ({
            let w = (imm << 20) | (rs1 << 15) | (funct3 << 12) | (rd << 7) | opcode;
            &&& opcode_of(w) == opcode
            &&& rd_of(w) == rd
            &&& funct3_of(w) == funct3
            &&& rs1_of(w) == rs1
            &&& imm_i_of(w) == sext12(imm)
            &&& imm < 0x800 ==> imm_i_of(w) == imm
            &&& imm < 32 ==> (imm_i_of(w) >> 5) & 0x7f == 0
            &&& imm >> 5 == 0x20 ==> imm_i_of(w) == imm && (imm_i_of(w) >> 5) & 0x7f == 0x20
            &&& opcode != 0 ==> w != 0
            &&& (imm == 0 && rs1 == 0 && funct3 == 0 && rd == 0 && opcode == 0) ==> w == 0
        }),
{
}

/// Field extraction from a packed U-format word.
pub proof fn lemma_pack_u(imm: u32, rd: u32, opcode: u32)
    by (bit_vector)
    requires
        rd < 32,
        opcode < 128,
        opcode != 0,
    ensures
        ({
            let w = (imm & 0xffff_f000) | (rd << 7) | opcode;
            &&& opcode_of(w) == opcode
            &&& rd_of(w) == rd
            &&& imm_u_of(w) == imm & 0xffff_f000
            &&& imm & 0xfff == 0 ==> imm_u_of(w) == imm
            &&& w != 0
        }),
{
}

/// Field extraction from a packed R-format word.
pub proof fn lemma_pack_r(rd: u32, rs1: u32, rs2: u32, funct3: u32, funct7: u32)
    by (bit_vector)
    requires
        rd < 32,
        rs1 < 32,
        rs2 < 32,
        funct3 < 8,
        funct7 < 128,
    ensures
        ({
            let w = (funct7 << 25) | (rs2 << 20) | (rs1 << 15) | (funct3 << 12) | (rd << 7) | 0x33;
            &&& opcode_of(w) == 0x33
            &&& rd_of(w) == rd
            &&& funct3_of(w) == funct3
            &&& rs1_of(w) == rs1
            &&& rs2_of(w) == rs2
            &&& funct7_of(w) == funct7
            &&& w != 0
        }),
{
}

/// Field extraction from a packed S-format word.
pub proof fn lemma_pack_s(imm: u32, rs1: u32, rs2: u32, funct3: u32)
    by (bit_vector)
    requires
        rs1 < 32,
        rs2 < 32,
        funct3 < 8,
        imm == sext12(imm),
    ensures
        ({
            let w = (((imm >> 5) & 0x7f) << 25) | (rs2 << 20) | (rs1 << 15) | (funct3 << 12) | ((
            imm & 0x1f) << 7) | 0x23;
            &&& opcode_of(w) == 0x23
            &&& funct3_of(w) == funct3
            &&& rs1_of(w) == rs1
            &&& rs2_of(w) == rs2
            &&& imm_s_of(w) == imm
            &&& w != 0
        }),
{
}

/// Field extraction from a packed B-format word.
pub proof fn lemma_pack_b(imm: u32, rs1: u32, rs2: u32, funct3: u32)
    by (bit_vector)
    requires
        rs1 < 32,
        rs2 < 32,
        funct3 < 8,
        imm == sext13(imm),
        imm & 1 == 0,
    ensures
        ({
            let w = (((imm >> 12) & 0x1) << 31) | (((imm >> 5) & 0x3f) << 25) | (rs2 << 20) | (rs1
                << 15) | (funct3 << 12) | (((imm >> 1) & 0xf) << 8) | (((imm >> 11) & 0x1) << 7)
                | 0x63;
            &&& opcode_of(w) == 0x63
            &&& funct3_of(w) == funct3
            &&& rs1_of(w) == rs1
            &&& rs2_of(w) == rs2
            &&& imm_b_of(w) == imm
            &&& w != 0
        }),
{
}

/// Field extraction from a packed J-format word.
pub proof fn lemma_pack_j(imm: u32, rd: u32)
    by (bit_vector)
    requires
        rd < 32,
        imm == sext21(imm),
        imm & 1 == 0,
    ensures
        ({
            let w = (((imm >> 20) & 0x1) << 31) | (((imm >> 1) & 0x3ff) << 21) | (((imm >> 11)
                & 0x1) << 20) | (((imm >> 12) & 0xff) << 12) | (rd << 7) | 0x6f;
            &&& opcode_of(w) == 0x6f
            &&& rd_of(w) == rd
            &&& imm_j_of(w) == imm
            &&& w != 0
        }),
{
}

/// Field extraction from a packed FENCE word.
pub proof fn lemma_pack_fence(pred: u32, succ: u32)
    by (bit_vector)
    requires
        pred < 16,
        succ < 16,
    ensures
        ({
            let w = (pred << 24) | (succ << 20) | 0x0f;
            &&& opcode_of(w) == 0x0f
            &&& funct3_of(w) == 0
            &&& pred_of(w) == pred
            &&& succ_of(w) == succ
            &&& w != 0
        }),
{
}

} // verus!
