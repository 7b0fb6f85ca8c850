//! Library-wide laws, stated and proved once.

use vstd::prelude::*;

use crate::bits::{sext12, sext13, sext16, sext21, sext8};
use crate::cpu::{
    le16_at, le32_at, spec_execute, spec_fetch, step, store16_at, store32_at, store8_at, Fault,
    MachineView,
};
use crate::isa::{
    lemma_imm_canonical, lemma_pack_b, lemma_pack_fence, lemma_pack_i, lemma_pack_j, lemma_pack_r,
    lemma_pack_s, lemma_pack_u, spec_decode, spec_encode, Instruction, InstructionType, RV32I,
};

verus! {

/// In a sign-extended immediate, every bit above the encoded width equals
/// bit (width - 1) of the encoded value: the bits above the width read as
/// all zeros when the sign bit is clear and as all ones when it is set.
pub proof fn lemma_sign_extension_replicates(x: u32)
    by (bit_vector)
    ensures
        x & 0x80 == 0 ==> sext8(x) >> 7 == 0,
        x & 0x80 != 0 ==> sext8(x) >> 7 == 0x1ff_ffff,
        x & 0x800 == 0 ==> sext12(x) >> 11 == 0,
        x & 0x800 != 0 ==> sext12(x) >> 11 == 0x1f_ffff,
        x & 0x1000 == 0 ==> sext13(x) >> 12 == 0,
        x & 0x1000 != 0 ==> sext13(x) >> 12 == 0xf_ffff,
        x & 0x8000 == 0 ==> sext16(x) >> 15 == 0,
        x & 0x8000 != 0 ==> sext16(x) >> 15 == 0x1_ffff,
        x & 0x10_0000 == 0 ==> sext21(x) >> 20 == 0,
        x & 0x10_0000 != 0 ==> sext21(x) >> 20 == 0xfff,
{
}

/// Every instruction a word decodes to is well formed: its payload variant
/// matches its mnemonic, its register indices are in range, its immediate is
/// canonically sign-extended, and it records the decoded word.
pub proof fn lemma_decode_wf(w: u32)
    requires
        spec_decode(w) is Ok,
    ensures
        (spec_decode(w)->Ok_0).exec_wf(),
        (spec_decode(w)->Ok_0).encode_wf(),
        (spec_decode(w)->Ok_0).raw == w,
{
    crate::bits::lemma_field_bounds(w);
    lemma_imm_canonical(w);
}

/// Encoding then decoding recovers the instruction: for any well-formed
/// instruction, decoding `spec_encode(i)` yields the same mnemonic and the
/// same payload (with the freshly encoded word recorded as `raw`).
pub proof fn lemma_encode_decode_round_trip(i: Instruction)
    requires
        i.encode_wf(),
    ensures
        spec_decode(spec_encode(i)) == Ok::<Instruction, crate::isa::DecodeError>(
            Instruction { inst_type: i.inst_type, inst: i.inst, raw: spec_encode(i) },
        ),
{
    match i.inst_type {
        InstructionType::I(p) => {
            lemma_pack_i(p.imm, p.rs1 as u32, p.funct3 as u32, p.rd as u32, p.opcode as u32);
        },
        InstructionType::U(p) => {
            lemma_pack_u(p.imm, p.rd as u32, p.opcode as u32);
        },
        InstructionType::R(p) => {
            lemma_pack_r(p.rd as u32, p.rs1 as u32, p.rs2 as u32, p.funct3 as u32, p.funct7 as u32);
        },
        InstructionType::S(p) => {
            lemma_pack_s(p.imm, p.rs1 as u32, p.rs2 as u32, p.funct3 as u32);
        },
        InstructionType::B(p) => {
            lemma_pack_b(p.imm, p.rs1 as u32, p.rs2 as u32, p.funct3 as u32);
        },
        InstructionType::J(p) => {
            lemma_pack_j(p.imm, p.rd as u32);
        },
        InstructionType::Fence(p) => {
            lemma_pack_fence(p.pred as u32, p.succ as u32);
        },
    }
}

/// Reassembling the little-endian bytes of a value recovers it (up to the
/// stored width).
proof fn lemma_le_bytes_reassemble(v: u32)
    by (bit_vector)
    ensures
        (((v & 0xff) as u8) as u32) == v & 0xff,
        (((v & 0xff) as u8) as u32) | (((((v >> 8) & 0xff) as u8) as u32) << 8) == v & 0xffff,
        (((v & 0xff) as u8) as u32) | (((((v >> 8) & 0xff) as u8) as u32) << 8) | (((((v >> 16)
            & 0xff) as u8) as u32) << 16) | (((((v >> 24) & 0xff) as u8) as u32) << 24) == v,
{
}

/// A load returns exactly the bytes most recently written by a store of
/// equal width at the same address: an 8-bit store/load round-trips the low
/// byte, a 16-bit pair the low half, and a 32-bit pair the whole value.
pub proof fn lemma_store_load_same_width(mem: Seq<u8>, a: int, v: u32)
    requires
        0 <= a,
        a + 4 <= mem.len(),
    ensures
        store8_at(mem, a, v)[a] == (v & 0xff) as u8,
        le16_at(store16_at(mem, a, v), a) == v & 0xffff,
        le32_at(store32_at(mem, a, v), a) == v,
{
    lemma_le_bytes_reassemble(v);
}

/// A load returns exactly the bytes most recently written by a wider store
/// covering its address: each byte of a 32-bit store reads back as the
/// corresponding byte of the stored value.
pub proof fn lemma_store_wider_load(mem: Seq<u8>, a: int, v: u32)
    requires
        0 <= a,
        a + 4 <= mem.len(),
    ensures
        store32_at(mem, a, v)[a] == (v & 0xff) as u8,
        store32_at(mem, a, v)[a + 1] == ((v >> 8) & 0xff) as u8,
        store32_at(mem, a, v)[a + 2] == ((v >> 16) & 0xff) as u8,
        store32_at(mem, a, v)[a + 3] == ((v >> 24) & 0xff) as u8,
        le16_at(store32_at(mem, a, v), a) == v & 0xffff,
        store16_at(mem, a, v)[a] == (v & 0xff) as u8,
        store16_at(mem, a, v)[a + 1] == ((v >> 8) & 0xff) as u8,
{
    assert(((v >> 8) & 0xff) as u32 == (((v >> 8) & 0xff) as u8) as u32) by (bit_vector);
    assert((((v & 0xff) as u8) as u32) | (((((v >> 8) & 0xff) as u8) as u32) << 8) == v & 0xffff)
        by (bit_vector);
}

/// A store leaves every byte outside its range unchanged.
pub proof fn lemma_store_frame(mem: Seq<u8>, a: int, v: u32, j: int)
    requires
        0 <= a,
        a + 4 <= mem.len(),
        0 <= j < mem.len(),
    ensures
        j != a ==> store8_at(mem, a, v)[j] == mem[j],
        !(a <= j < a + 2) ==> store16_at(mem, a, v)[j] == mem[j],
        !(a <= j < a + 4) ==> store32_at(mem, a, v)[j] == mem[j],
{
}

/// Executing one well-formed instruction preserves well-formedness: in
/// particular, register 0 still reads as 0 afterwards.
pub proof fn lemma_execute_preserves_wf(m: MachineView, i: Instruction, m2: MachineView)
    requires
        m.wf(),
        i.exec_wf(),
        spec_execute(m, i) == Ok::<MachineView, Fault>(m2),
    ensures
        m2.wf(),
        m2.regs.len() == 32,
        m2.regs[0] == 0,
{
}

/// A machine step preserves well-formedness.
pub proof fn lemma_step_preserves_wf(m1: MachineView, m2: MachineView)
    requires
        m1.wf(),
        step(m1, m2),
    ensures
        m2.wf(),
{
    let w = spec_fetch(m1)->Some_0;
    lemma_decode_wf(w);
    lemma_execute_preserves_wf(m1, spec_decode(w)->Ok_0, m2);
}

/// Wrapping addition preserves four-byte alignment.
proof fn lemma_wrap_add_aligned(x: u32, y: u32)
    by (bit_vector)
    requires
        x % 4 == 0,
        y % 4 == 0,
    ensures
        x.wrapping_add(y) % 4 == 0,
{
}

/// The program counter stays a multiple of four across an instruction whose
/// control-flow target is itself four-byte aligned: branch and jump offsets
/// that are multiples of four, and a JALR whose computed target is aligned.
/// (A jump with an offset of two, say, lands the counter on a misaligned
/// address; such inputs are excluded.)
pub proof fn lemma_pc_alignment(m: MachineView, i: Instruction, m2: MachineView)
    requires
        m.wf(),
        i.exec_wf(),
        spec_execute(m, i) == Ok::<MachineView, Fault>(m2),
        m.pc % 4 == 0,
        i.inst == RV32I::JAL ==> (i.inst_type->J_0).imm % 4 == 0,
        (i.inst == RV32I::BEQ || i.inst == RV32I::BNE || i.inst == RV32I::BLT || i.inst
            == RV32I::BGE || i.inst == RV32I::BLTU || i.inst == RV32I::BGEU) ==> (
        i.inst_type->B_0).imm % 4 == 0,
        i.inst == RV32I::JALR ==> (crate::cpu::read_reg(m.regs, (i.inst_type->I_0).rs1).wrapping_add(
            (i.inst_type->I_0).imm,
        ) & 0xffff_fffe) % 4 == 0,
    ensures
        m2.pc % 4 == 0,
{
    assert(4u32 % 4 == 0);
    lemma_wrap_add_aligned(m.pc, 4);
    match i.inst {
        RV32I::JAL => {
            lemma_wrap_add_aligned(m.pc, (i.inst_type->J_0).imm);
        },
        RV32I::BEQ | RV32I::BNE | RV32I::BLT | RV32I::BGE | RV32I::BLTU | RV32I::BGEU => {
            lemma_wrap_add_aligned(m.pc, (i.inst_type->B_0).imm);
        },
        _ => {},
    }
}

} // verus!
