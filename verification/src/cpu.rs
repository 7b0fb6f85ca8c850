//! The architectural state and the execution semantics.
//!
//! A [`CPU`] owns 32 registers, a program counter and a flat little-endian
//! byte memory. [`spec_execute`] gives the meaning of one instruction as a
//! function on the ghost state view; [`CPU::execute`] implements it.

use vstd::prelude::*;

use crate::bits::{signed_lt, sra32, sext16, sext8};
use crate::isa::{spec_decode, DecodeError, Instruction, InstructionType, RV32I};

verus! {

/// Number of bytes of memory.
pub const MEM_SIZE: usize = 0x10000;

/// Ghost view of the architectural state: register contents, program
/// counter, memory bytes.
#[verifier::ext_equal]
pub struct MachineView {
    pub regs: Seq<u32>,
    pub pc: u32,
    pub mem: Seq<u8>,
}

impl MachineView {
    /// Well-formedness: 32 registers, register 0 stores zero, and the
    /// memory has exactly `MEM_SIZE` bytes.
    pub open spec fn wf(self) -> bool {
        &&& self.regs.len() == 32
        &&& self.regs[0] == 0
        &&& self.mem.len() == MEM_SIZE
    }
}

/// A fault raised while executing one instruction: an out-of-range memory
/// access, or an environment event (ECALL or EBREAK).
#[derive(Debug, Clone, Copy, PartialEq, Eq, Structural)]
pub enum Fault {
    Mem,
    EnvCall,
    EnvBreak,
}

/// The architectural state of the emulated hart.
pub struct CPU {
    pub regs: Vec<u32>,
    pub pc: u32,
    pub memory: Vec<u8>,
    pub exit_on_nop: bool,
    pub last_inst: Option<Instruction>,
}

impl View for CPU {
    type V = MachineView;

    open spec fn view(&self) -> MachineView {
        MachineView { regs: self.regs@, pc: self.pc, mem: self.memory@ }
    }
}

// ---------------------------------------------------------------------------
// The register file and memory, as functions on the ghost view.

/// Read a register: register 0 always reads as zero.
pub open spec fn read_reg(regs: Seq<u32>, r: u8) -> u32 {
    if r == 0 {
        0
    } else {
        regs[r as int]
    }
}

/// Write a register: a write to register 0 is discarded.
pub open spec fn write_reg(regs: Seq<u32>, r: u8, v: u32) -> Seq<u32> {
    if r == 0 {
        regs
    } else {
        regs.update(r as int, v)
    }
}

/// The 16-bit little-endian value at `a`.
pub open spec fn le16_at(mem: Seq<u8>, a: int) -> u32 {
    (mem[a] as u32) | ((mem[a + 1] as u32) << 8)
}

/// The 32-bit little-endian value at `a`.
pub open spec fn le32_at(mem: Seq<u8>, a: int) -> u32 {
    (mem[a] as u32) | ((mem[a + 1] as u32) << 8) | ((mem[a + 2] as u32) << 16) | ((mem[a
        + 3] as u32) << 24)
}

/// Deposit the low byte of `v` at `a`.
pub open spec fn store8_at(mem: Seq<u8>, a: int, v: u32) -> Seq<u8> {
    mem.update(a, (v & 0xff) as u8)
}

/// Deposit the low 16 bits of `v` at `a`, little-endian.
pub open spec fn store16_at(mem: Seq<u8>, a: int, v: u32) -> Seq<u8> {
    mem.update(a, (v & 0xff) as u8).update(a + 1, ((v >> 8) & 0xff) as u8)
}

/// Deposit `v` at `a`, little-endian.
pub open spec fn store32_at(mem: Seq<u8>, a: int, v: u32) -> Seq<u8> {
    mem.update(a, (v & 0xff) as u8).update(a + 1, ((v >> 8) & 0xff) as u8).update(
        a + 2,
        ((v >> 16) & 0xff) as u8,
    ).update(a + 3, ((v >> 24) & 0xff) as u8)
}

impl CPU {
    /// Well-formedness of the architectural state.
    pub open spec fn wf(self) -> bool {
        self@.wf()
    }

    /// Boot state: all registers and memory zeroed, PC at 0, exit-on-nop
    /// off, no instruction executed yet.
    pub fn new() -> (r: Self)
        ensures
            r.wf(),
            r@.pc == 0,
            forall|i: int| 0 <= i < 32 ==> r@.regs[i] == 0,
            forall|i: int| 0 <= i < MEM_SIZE ==> r@.mem[i] == 0,
            !r.exit_on_nop,
            r.last_inst is None,
    {
        let mut regs: Vec<u32> = Vec::new();
        while regs.len() < 32
            invariant
                regs@.len() <= 32,
                forall|i: int| 0 <= i < regs@.len() ==> regs@[i] == 0,
            decreases 32 - regs@.len(),
        {
            regs.push(0);
        }
        let mut memory: Vec<u8> = Vec::new();
        while memory.len() < MEM_SIZE
            invariant
                memory@.len() <= MEM_SIZE,
                forall|i: int| 0 <= i < memory@.len() ==> memory@[i] == 0,
            decreases MEM_SIZE - memory@.len(),
        {
            memory.push(0);
        }
        CPU { regs, pc: 0, memory, exit_on_nop: false, last_inst: None }
    }

    /// Read a register.
    pub fn reg(&self, r: u8) -> (v: u32)
        requires
            self.wf(),
            r < 32,
        ensures
            v == read_reg(self@.regs, r),
    {
        // Register 0 stores zero by the invariant, so the guarded read is a
        // plain indexed read.
        self.regs[r as usize]
    }

    /// Write a register; writes to register 0 are discarded.
    fn write_rd(&mut self, rd: u8, v: u32)
        requires
            old(self).wf(),
            rd < 32,
        ensures
            final(self).wf(),
            final(self)@.regs == write_reg(old(self)@.regs, rd, v),
            final(self)@.pc == old(self)@.pc,
            final(self)@.mem == old(self)@.mem,
            final(self).exit_on_nop == old(self).exit_on_nop,
            final(self).last_inst == old(self).last_inst,
    {
        if rd != 0 {
            self.regs[rd as usize] = v;
        }
    }

    /// Load the byte at `addr`, or nothing when the address is out of
    /// range.
    pub fn load_u8(&self, addr: u32) -> (r: Option<u8>)
        requires
            self.wf(),
        ensures
            addr as int + 1 <= MEM_SIZE ==> r == Some(self@.mem[addr as int]),
            addr as int + 1 > MEM_SIZE ==> r is None,
    {
        if addr < MEM_SIZE as u32 {
            Some(self.memory[addr as usize])
        } else {
            None
        }
    }

    /// Load the 16-bit little-endian value starting at `addr`, or nothing
    /// when the range overruns memory.
    pub fn load_u16(&self, addr: u32) -> (r: Option<u32>)
        requires
            self.wf(),
        ensures
            addr as int + 2 <= MEM_SIZE ==> r == Some(le16_at(self@.mem, addr as int)),
            addr as int + 2 > MEM_SIZE ==> r is None,
    {
        if addr <= MEM_SIZE as u32 - 2 {
            let a = addr as usize;
            Some((self.memory[a] as u32) | ((self.memory[a + 1] as u32) << 8))
        } else {
            None
        }
    }

    /// Load the 32-bit little-endian value starting at `addr`, or nothing
    /// when the range overruns memory.
    pub fn load_u32(&self, addr: u32) -> (r: Option<u32>)
        requires
            self.wf(),
        ensures
            addr as int + 4 <= MEM_SIZE ==> r == Some(le32_at(self@.mem, addr as int)),
            addr as int + 4 > MEM_SIZE ==> r is None,
    {
        if addr <= MEM_SIZE as u32 - 4 {
            let a = addr as usize;
            Some(
                (self.memory[a] as u32) | ((self.memory[a + 1] as u32) << 8) | ((self.memory[a
                    + 2] as u32) << 16) | ((self.memory[a + 3] as u32) << 24),
            )
        } else {
            None
        }
    }

    /// Store the low byte of `v` at `addr`; reports whether the address was
    /// in range (nothing is written otherwise).
    pub fn store_u8(&mut self, addr: u32, v: u32) -> (r: bool)
        requires
            old(self).wf(),
        ensures
            final(self).wf(),
            r == (addr as int + 1 <= MEM_SIZE),
            r ==> final(self)@.mem == store8_at(old(self)@.mem, addr as int, v),
            !r ==> final(self)@.mem == old(self)@.mem,
            final(self)@.regs == old(self)@.regs,
            final(self)@.pc == old(self)@.pc,
            final(self).exit_on_nop == old(self).exit_on_nop,
            final(self).last_inst == old(self).last_inst,
    {
        if addr < MEM_SIZE as u32 {
            self.memory[addr as usize] = #[verifier::truncate] ((v & 0xff) as u8);
            true
        } else {
            false
        }
    }

    /// Store the low 16 bits of `v` at `addr`, little-endian; reports
    /// whether the range was in bounds (nothing is written otherwise).
    pub fn store_u16(&mut self, addr: u32, v: u32) -> (r: bool)
        requires
            old(self).wf(),
        ensures
            final(self).wf(),
            r == (addr as int + 2 <= MEM_SIZE),
            r ==> final(self)@.mem == store16_at(old(self)@.mem, addr as int, v),
            !r ==> final(self)@.mem == old(self)@.mem,
            final(self)@.regs == old(self)@.regs,
            final(self)@.pc == old(self)@.pc,
            final(self).exit_on_nop == old(self).exit_on_nop,
            final(self).last_inst == old(self).last_inst,
    {
        if addr <= MEM_SIZE as u32 - 2 {
            let a = addr as usize;
            self.memory[a] = #[verifier::truncate] ((v & 0xff) as u8);
            self.memory[a + 1] = #[verifier::truncate] (((v >> 8) & 0xff) as u8);
            true
        } else {
            false
        }
    }

    /// Store `v` at `addr`, little-endian; reports whether the range was in
    /// bounds (nothing is written otherwise).
    pub fn store_u32(&mut self, addr: u32, v: u32) -> (r: bool)
        requires
            old(self).wf(),
        ensures
            final(self).wf(),
            r == (addr as int + 4 <= MEM_SIZE),
            r ==> final(self)@.mem == store32_at(old(self)@.mem, addr as int, v),
            !r ==> final(self)@.mem == old(self)@.mem,
            final(self)@.regs == old(self)@.regs,
            final(self)@.pc == old(self)@.pc,
            final(self).exit_on_nop == old(self).exit_on_nop,
            final(self).last_inst == old(self).last_inst,
    {
        if addr <= MEM_SIZE as u32 - 4 {
            let a = addr as usize;
            self.memory[a] = #[verifier::truncate] ((v & 0xff) as u8);
            self.memory[a + 1] = #[verifier::truncate] (((v >> 8) & 0xff) as u8);
            self.memory[a + 2] = #[verifier::truncate] (((v >> 16) & 0xff) as u8);
            self.memory[a + 3] = #[verifier::truncate] (((v >> 24) & 0xff) as u8);
            true
        } else {
            false
        }
    }
}

// ---------------------------------------------------------------------------
// The meaning of one instruction, as a function on the ghost view.

/// Default program-counter advance.
pub open spec fn advance(m: MachineView) -> MachineView {
    MachineView { pc: m.pc.wrapping_add(4), ..m }
}

/// Replace one register.
pub open spec fn with_reg(m: MachineView, rd: u8, v: u32) -> MachineView {
    MachineView { regs: write_reg(m.regs, rd, v), ..m }
}

/// A conditional branch: a taken branch jumps to `pc + imm`, a not-taken
/// branch falls through to `pc + 4`.
pub open spec fn branch(m: MachineView, taken: bool, imm: u32) -> MachineView {
    MachineView {
        pc: if taken {
            m.pc.wrapping_add(imm)
        } else {
            m.pc.wrapping_add(4)
        },
        ..m
    }
}

/// The RV32I semantics of one instruction at `m.pc`: either the next state,
/// or the fault the instruction raises. All arithmetic wraps; signed and
/// unsigned comparisons read the same 32-bit patterns differently; memory
/// accesses outside `[0, MEM_SIZE)` fault; ECALL and EBREAK leave the state
/// unchanged and signal the environment.
pub open spec fn spec_execute(m: MachineView, i: Instruction) -> Result<MachineView, Fault>
    recommends
        m.wf(),
        i.exec_wf(),
{
    match i.inst {
        RV32I::LUI => {
            let p = i.inst_type->U_0;
            Ok(advance(with_reg(m, p.rd, p.imm)))
        },
        RV32I::AUIPC => {
            let p = i.inst_type->U_0;
            Ok(advance(with_reg(m, p.rd, m.pc.wrapping_add(p.imm))))
        },
        RV32I::JAL => {
            let p = i.inst_type->J_0;
            Ok(
                MachineView {
                    regs: write_reg(m.regs, p.rd, m.pc.wrapping_add(4)),
                    pc: m.pc.wrapping_add(p.imm),
                    mem: m.mem,
                },
            )
        },
        RV32I::JALR => {
            let p = i.inst_type->I_0;
            Ok(
                MachineView {
                    regs: write_reg(m.regs, p.rd, m.pc.wrapping_add(4)),
                    pc: read_reg(m.regs, p.rs1).wrapping_add(p.imm) & 0xffff_fffe,
                    mem: m.mem,
                },
            )
        },
        RV32I::BEQ => {
            let p = i.inst_type->B_0;
            Ok(branch(m, read_reg(m.regs, p.rs1) == read_reg(m.regs, p.rs2), p.imm))
        },
        RV32I::BNE => {
            let p = i.inst_type->B_0;
            Ok(branch(m, read_reg(m.regs, p.rs1) != read_reg(m.regs, p.rs2), p.imm))
        },
        RV32I::BLT => {
            let p = i.inst_type->B_0;
            Ok(branch(m, signed_lt(read_reg(m.regs, p.rs1), read_reg(m.regs, p.rs2)), p.imm))
        },
        RV32I::BGE => {
            let p = i.inst_type->B_0;
            Ok(branch(m, !signed_lt(read_reg(m.regs, p.rs1), read_reg(m.regs, p.rs2)), p.imm))
        },
        RV32I::BLTU => {
            let p = i.inst_type->B_0;
            Ok(branch(m, read_reg(m.regs, p.rs1) < read_reg(m.regs, p.rs2), p.imm))
        },
        RV32I::BGEU => {
            let p = i.inst_type->B_0;
            Ok(branch(m, read_reg(m.regs, p.rs1) >= read_reg(m.regs, p.rs2), p.imm))
        },
        RV32I::LB => {
            let p = i.inst_type->I_0;
            let a = read_reg(m.regs, p.rs1).wrapping_add(p.imm);
            if a as int + 1 <= MEM_SIZE {
                Ok(advance(with_reg(m, p.rd, sext8(m.mem[a as int] as u32))))
            } else {
                Err(Fault::Mem)
            }
        },
        RV32I::LH => {
            let p = i.inst_type->I_0;
            let a = read_reg(m.regs, p.rs1).wrapping_add(p.imm);
            if a as int + 2 <= MEM_SIZE {
                Ok(advance(with_reg(m, p.rd, sext16(le16_at(m.mem, a as int)))))
            } else {
                Err(Fault::Mem)
            }
        },
        RV32I::LW => {
            let p = i.inst_type->I_0;
            let a = read_reg(m.regs, p.rs1).wrapping_add(p.imm);
            if a as int + 4 <= MEM_SIZE {
                Ok(advance(with_reg(m, p.rd, le32_at(m.mem, a as int))))
            } else {
                Err(Fault::Mem)
            }
        },
        RV32I::LBU => {
            let p = i.inst_type->I_0;
            let a = read_reg(m.regs, p.rs1).wrapping_add(p.imm);
            if a as int + 1 <= MEM_SIZE {
                Ok(advance(with_reg(m, p.rd, m.mem[a as int] as u32)))
            } else {
                Err(Fault::Mem)
            }
        },
        RV32I::LHU => {
            let p = i.inst_type->I_0;
            let a = read_reg(m.regs, p.rs1).wrapping_add(p.imm);
            if a as int + 2 <= MEM_SIZE {
                Ok(advance(with_reg(m, p.rd, le16_at(m.mem, a as int))))
            } else {
                Err(Fault::Mem)
            }
        },
        RV32I::SB => {
            let p = i.inst_type->S_0;
            let a = read_reg(m.regs, p.rs1).wrapping_add(p.imm);
            if a as int + 1 <= MEM_SIZE {
                Ok(
                    MachineView {
                        mem: store8_at(m.mem, a as int, read_reg(m.regs, p.rs2)),
                        pc: m.pc.wrapping_add(4),
                        regs: m.regs,
                    },
                )
            } else {
                Err(Fault::Mem)
            }
        },
        RV32I::SH => {
            let p = i.inst_type->S_0;
            let a = read_reg(m.regs, p.rs1).wrapping_add(p.imm);
            if a as int + 2 <= MEM_SIZE {
                Ok(
                    MachineView {
                        mem: store16_at(m.mem, a as int, read_reg(m.regs, p.rs2)),
                        pc: m.pc.wrapping_add(4),
                        regs: m.regs,
                    },
                )
            } else {
                Err(Fault::Mem)
            }
        },
        RV32I::SW => {
            let p = i.inst_type->S_0;
            let a = read_reg(m.regs, p.rs1).wrapping_add(p.imm);
            if a as int + 4 <= MEM_SIZE {
                Ok(
                    MachineView {
                        mem: store32_at(m.mem, a as int, read_reg(m.regs, p.rs2)),
                        pc: m.pc.wrapping_add(4),
                        regs: m.regs,
                    },
                )
            } else {
                Err(Fault::Mem)
            }
        },
        RV32I::ADDI => {
            let p = i.inst_type->I_0;
            Ok(advance(with_reg(m, p.rd, read_reg(m.regs, p.rs1).wrapping_add(p.imm))))
        },
        RV32I::SLTI => {
            let p = i.inst_type->I_0;
            Ok(
                advance(
                    with_reg(
                        m,
                        p.rd,
                        if signed_lt(read_reg(m.regs, p.rs1), p.imm) {
                            1
                        } else {
                            0
                        },
                    ),
                ),
            )
        },
        RV32I::SLTIU => {
            let p = i.inst_type->I_0;
            Ok(
                advance(
                    with_reg(
                        m,
                        p.rd,
                        if read_reg(m.regs, p.rs1) < p.imm {
                            1
                        } else {
                            0
                        },
                    ),
                ),
            )
        },
        RV32I::XORI => {
            let p = i.inst_type->I_0;
            Ok(advance(with_reg(m, p.rd, read_reg(m.regs, p.rs1) ^ p.imm)))
        },
        RV32I::ORI => {
            let p = i.inst_type->I_0;
            Ok(advance(with_reg(m, p.rd, read_reg(m.regs, p.rs1) | p.imm)))
        },
        RV32I::ANDI => {
            let p = i.inst_type->I_0;
            Ok(advance(with_reg(m, p.rd, read_reg(m.regs, p.rs1) & p.imm)))
        },
        RV32I::SLLI => {
            let p = i.inst_type->I_0;
            Ok(advance(with_reg(m, p.rd, read_reg(m.regs, p.rs1) << (p.imm & 0x1f))))
        },
        RV32I::SRLI => {
            let p = i.inst_type->I_0;
            Ok(advance(with_reg(m, p.rd, read_reg(m.regs, p.rs1) >> (p.imm & 0x1f))))
        },
        RV32I::SRAI => {
            let p = i.inst_type->I_0;
            Ok(advance(with_reg(m, p.rd, sra32(read_reg(m.regs, p.rs1), p.imm & 0x1f))))
        },
        RV32I::ADD => {
            let p = i.inst_type->R_0;
            Ok(
                advance(
                    with_reg(
                        m,
                        p.rd,
                        read_reg(m.regs, p.rs1).wrapping_add(read_reg(m.regs, p.rs2)),
                    ),
                ),
            )
        },
        RV32I::SUB => {
            let p = i.inst_type->R_0;
            Ok(
                advance(
                    with_reg(
                        m,
                        p.rd,
                        read_reg(m.regs, p.rs1).wrapping_sub(read_reg(m.regs, p.rs2)),
                    ),
                ),
            )
        },
        RV32I::SLL => {
            let p = i.inst_type->R_0;
            Ok(
                advance(
                    with_reg(
                        m,
                        p.rd,
                        read_reg(m.regs, p.rs1) << (read_reg(m.regs, p.rs2) & 0x1f),
                    ),
                ),
            )
        },
        RV32I::SLT => {
            let p = i.inst_type->R_0;
            Ok(
                advance(
                    with_reg(
                        m,
                        p.rd,
                        if signed_lt(read_reg(m.regs, p.rs1), read_reg(m.regs, p.rs2)) {
                            1
                        } else {
                            0
                        },
                    ),
                ),
            )
        },
        RV32I::SLTU => {
            let p = i.inst_type->R_0;
            Ok(
                advance(
                    with_reg(
                        m,
                        p.rd,
                        if read_reg(m.regs, p.rs1) < read_reg(m.regs, p.rs2) {
                            1
                        } else {
                            0
                        },
                    ),
                ),
            )
        },
        RV32I::XOR => {
            let p = i.inst_type->R_0;
            Ok(advance(with_reg(m, p.rd, read_reg(m.regs, p.rs1) ^ read_reg(m.regs, p.rs2))))
        },
        RV32I::SRL => {
            let p = i.inst_type->R_0;
            Ok(
                advance(
                    with_reg(
                        m,
                        p.rd,
                        read_reg(m.regs, p.rs1) >> (read_reg(m.regs, p.rs2) & 0x1f),
                    ),
                ),
            )
        },
        RV32I::SRA => {
            let p = i.inst_type->R_0;
            Ok(
                advance(
                    with_reg(
                        m,
                        p.rd,
                        sra32(read_reg(m.regs, p.rs1), read_reg(m.regs, p.rs2) & 0x1f),
                    ),
                ),
            )
        },
        RV32I::OR => {
            let p = i.inst_type->R_0;
            Ok(advance(with_reg(m, p.rd, read_reg(m.regs, p.rs1) | read_reg(m.regs, p.rs2))))
        },
        RV32I::AND => {
            let p = i.inst_type->R_0;
            Ok(advance(with_reg(m, p.rd, read_reg(m.regs, p.rs1) & read_reg(m.regs, p.rs2))))
        },
        RV32I::FENCE => Ok(advance(m)),
        RV32I::ECALL => Err(Fault::EnvCall),
        RV32I::EBREAK => Err(Fault::EnvBreak),
    }
}

// ---------------------------------------------------------------------------
// The executor.

impl CPU {
    /// Add the immediate to rs1, wrapping, into rd.
    fn addi(&mut self, rd: u8, rs1: u8, imm: u32)
        requires
            old(self).wf(),
            rd < 32,
            rs1 < 32,
        ensures
            final(self).wf(),
            final(self)@ == with_reg(old(self)@, rd, read_reg(old(self)@.regs, rs1).wrapping_add(imm)),
            final(self).exit_on_nop == old(self).exit_on_nop,
            final(self).last_inst == old(self).last_inst,
    {
        let v = self.reg(rs1).wrapping_add(imm);
        self.write_rd(rd, v);
    }

    /// Set rd to 1 when rs1 is below the immediate as signed values, else 0.
    fn slti(&mut self, rd: u8, rs1: u8, imm: u32)
        requires
            old(self).wf(),
            rd < 32,
            rs1 < 32,
        ensures
            final(self).wf(),
            final(self)@ == with_reg(
                old(self)@,
                rd,
                if signed_lt(read_reg(old(self)@.regs, rs1), imm) {
                    1u32
                } else {
                    0u32
                },
            ),
            final(self).exit_on_nop == old(self).exit_on_nop,
            final(self).last_inst == old(self).last_inst,
    {
        let v: u32 = if crate::bits::signed_less(self.reg(rs1), imm) {
            1
        } else {
            0
        };
        self.write_rd(rd, v);
    }

    /// Set rd to 1 when rs1 is below the immediate as unsigned values, else
    /// 0.
    fn sltiu(&mut self, rd: u8, rs1: u8, imm: u32)
        requires
            old(self).wf(),
            rd < 32,
            rs1 < 32,
        ensures
            final(self).wf(),
            final(self)@ == with_reg(
                old(self)@,
                rd,
                if read_reg(old(self)@.regs, rs1) < imm {
                    1u32
                } else {
                    0u32
                },
            ),
            final(self).exit_on_nop == old(self).exit_on_nop,
            final(self).last_inst == old(self).last_inst,
    {
        let v: u32 = if self.reg(rs1) < imm {
            1
        } else {
            0
        };
        self.write_rd(rd, v);
    }

    /// Bitwise XOR of rs1 and the immediate into rd.
    fn xori(&mut self, rd: u8, rs1: u8, imm: u32)
        requires
            old(self).wf(),
            rd < 32,
            rs1 < 32,
        ensures
            final(self).wf(),
            final(self)@ == with_reg(old(self)@, rd, read_reg(old(self)@.regs, rs1) ^ imm),
            final(self).exit_on_nop == old(self).exit_on_nop,
            final(self).last_inst == old(self).last_inst,
    {
        let v = self.reg(rs1) ^ imm;
        self.write_rd(rd, v);
    }

    /// Bitwise OR of rs1 and the immediate into rd.
    fn ori(&mut self, rd: u8, rs1: u8, imm: u32)
        requires
            old(self).wf(),
            rd < 32,
            rs1 < 32,
        ensures
            final(self).wf(),
            final(self)@ == with_reg(old(self)@, rd, read_reg(old(self)@.regs, rs1) | imm),
            final(self).exit_on_nop == old(self).exit_on_nop,
            final(self).last_inst == old(self).last_inst,
    {
        let v = self.reg(rs1) | imm;
        self.write_rd(rd, v);
    }

    /// Bitwise AND of rs1 and the immediate into rd.
    fn andi(&mut self, rd: u8, rs1: u8, imm: u32)
        requires
            old(self).wf(),
            rd < 32,
            rs1 < 32,
        ensures
            final(self).wf(),
            final(self)@ == with_reg(old(self)@, rd, read_reg(old(self)@.regs, rs1) & imm),
            final(self).exit_on_nop == old(self).exit_on_nop,
            final(self).last_inst == old(self).last_inst,
    {
        let v = self.reg(rs1) & imm;
        self.write_rd(rd, v);
    }

    /// Shift rs1 left by the low five bits of the immediate into rd.
    fn slli(&mut self, rd: u8, rs1: u8, imm: u32)
        requires
            old(self).wf(),
            rd < 32,
            rs1 < 32,
        ensures
            final(self).wf(),
            final(self)@ == with_reg(old(self)@, rd, read_reg(old(self)@.regs, rs1) << (imm & 0x1f)),
            final(self).exit_on_nop == old(self).exit_on_nop,
            final(self).last_inst == old(self).last_inst,
    {
        let shamt = imm & 0x1f;
        proof {
            crate::bits::lemma_field_bounds(imm);
        }
        let v = self.reg(rs1) << shamt;
        self.write_rd(rd, v);
    }

    /// Shift rs1 right logically by the low five bits of the immediate into
    /// rd.
    fn srli(&mut self, rd: u8, rs1: u8, imm: u32)
        requires
            old(self).wf(),
            rd < 32,
            rs1 < 32,
        ensures
            final(self).wf(),
            final(self)@ == with_reg(old(self)@, rd, read_reg(old(self)@.regs, rs1) >> (imm & 0x1f)),
            final(self).exit_on_nop == old(self).exit_on_nop,
            final(self).last_inst == old(self).last_inst,
    {
        let shamt = imm & 0x1f;
        proof {
            crate::bits::lemma_field_bounds(imm);
        }
        let v = self.reg(rs1) >> shamt;
        self.write_rd(rd, v);
    }

    /// Shift rs1 right arithmetically by the low five bits of the immediate
    /// into rd; the sign bit is preserved.
    fn srai(&mut self, rd: u8, rs1: u8, imm: u32)
        requires
            old(self).wf(),
            rd < 32,
            rs1 < 32,
        ensures
            final(self).wf(),
            final(self)@ == with_reg(
                old(self)@,
                rd,
                sra32(read_reg(old(self)@.regs, rs1), imm & 0x1f),
            ),
            final(self).exit_on_nop == old(self).exit_on_nop,
            final(self).last_inst == old(self).last_inst,
    {
        let shamt = imm & 0x1f;
        proof {
            crate::bits::lemma_field_bounds(imm);
        }
        let v = crate::bits::shift_right_arithmetic(self.reg(rs1), shamt);
        self.write_rd(rd, v);
    }

    /// Take or fall through a branch with the given offset.
    fn branch_on(&mut self, taken: bool, imm: u32)
        requires
            old(self).wf(),
        ensures
            final(self).wf(),
            final(self)@ == branch(old(self)@, taken, imm),
            final(self).exit_on_nop == old(self).exit_on_nop,
            final(self).last_inst == old(self).last_inst,
    {
        if taken {
            self.pc = self.pc.wrapping_add(imm);
        } else {
            self.pc = self.pc.wrapping_add(4);
        }
    }

    /// Execute one decoded instruction: mutate registers, memory and the
    /// program counter exactly as [`spec_execute`] says, or report the fault
    /// it raises, leaving the state unchanged.
    pub fn execute(&mut self, inst: Instruction) -> (r: Result<u8, Fault>)
        requires
            old(self).wf(),
            inst.exec_wf(),
        ensures
            final(self).wf(),
            final(self).exit_on_nop == old(self).exit_on_nop,
            final(self).last_inst == old(self).last_inst,
            (match spec_execute(old(self)@, inst) {
                Ok(m) => r == Ok::<u8, Fault>(0u8) && final(self)@ == m,
                Err(f) => r == Err::<u8, Fault>(f) && final(self)@ == old(self)@,
            }),
    {
        match inst.inst {
            RV32I::LUI => {
                let p = match inst.inst_type {
                    InstructionType::U(p) => p,
                    _ => unreached(),
                };
                self.write_rd(p.rd, p.imm);
                self.pc = self.pc.wrapping_add(4);
                Ok(0)
            },
            RV32I::AUIPC => {
                let p = match inst.inst_type {
                    InstructionType::U(p) => p,
                    _ => unreached(),
                };
                let v = self.pc.wrapping_add(p.imm);
                self.write_rd(p.rd, v);
                self.pc = self.pc.wrapping_add(4);
                Ok(0)
            },
            RV32I::JAL => {
                let p = match inst.inst_type {
                    InstructionType::J(p) => p,
                    _ => unreached(),
                };
                let link = self.pc.wrapping_add(4);
                let target = self.pc.wrapping_add(p.imm);
                self.write_rd(p.rd, link);
                self.pc = target;
                Ok(0)
            },
            RV32I::JALR => {
                let p = match inst.inst_type {
                    InstructionType::I(p) => p,
                    _ => unreached(),
                };
                let link = self.pc.wrapping_add(4);
                let target = self.reg(p.rs1).wrapping_add(p.imm) & 0xffff_fffe;
                self.write_rd(p.rd, link);
                self.pc = target;
                Ok(0)
            },
            RV32I::BEQ => {
                let p = match inst.inst_type {
                    InstructionType::B(p) => p,
                    _ => unreached(),
                };
                let taken = self.reg(p.rs1) == self.reg(p.rs2);
                self.branch_on(taken, p.imm);
                Ok(0)
            },
            RV32I::BNE => {
                let p = match inst.inst_type {
                    InstructionType::B(p) => p,
                    _ => unreached(),
                };
                let taken = self.reg(p.rs1) != self.reg(p.rs2);
                self.branch_on(taken, p.imm);
                Ok(0)
            },
            RV32I::BLT => {
                let p = match inst.inst_type {
                    InstructionType::B(p) => p,
                    _ => unreached(),
                };
                let taken = crate::bits::signed_less(self.reg(p.rs1), self.reg(p.rs2));
                self.branch_on(taken, p.imm);
                Ok(0)
            },
            RV32I::BGE => {
                let p = match inst.inst_type {
                    InstructionType::B(p) => p,
                    _ => unreached(),
                };
                let taken = !crate::bits::signed_less(self.reg(p.rs1), self.reg(p.rs2));
                self.branch_on(taken, p.imm);
                Ok(0)
            },
            RV32I::BLTU => {
                let p = match inst.inst_type {
                    InstructionType::B(p) => p,
                    _ => unreached(),
                };
                let taken = self.reg(p.rs1) < self.reg(p.rs2);
                self.branch_on(taken, p.imm);
                Ok(0)
            },
            RV32I::BGEU => {
                let p = match inst.inst_type {
                    InstructionType::B(p) => p,
                    _ => unreached(),
                };
                let taken = self.reg(p.rs1) >= self.reg(p.rs2);
                self.branch_on(taken, p.imm);
                Ok(0)
            },
            RV32I::LB => {
                let p = match inst.inst_type {
                    InstructionType::I(p) => p,
                    _ => unreached(),
                };
                let a = self.reg(p.rs1).wrapping_add(p.imm);
                match self.load_u8(a) {
                    Some(b) => {
                        let v = crate::bits::sign_extend8(b as u32);
                        self.write_rd(p.rd, v);
                        self.pc = self.pc.wrapping_add(4);
                        Ok(0)
                    },
                    None => Err(Fault::Mem),
                }
            },
            RV32I::LH => {
                let p = match inst.inst_type {
                    InstructionType::I(p) => p,
                    _ => unreached(),
                };
                let a = self.reg(p.rs1).wrapping_add(p.imm);
                match self.load_u16(a) {
                    Some(h) => {
                        let v = crate::bits::sign_extend16(h);
                        self.write_rd(p.rd, v);
                        self.pc = self.pc.wrapping_add(4);
                        Ok(0)
                    },
                    None => Err(Fault::Mem),
                }
            },
            RV32I::LW => {
                let p = match inst.inst_type {
                    InstructionType::I(p) => p,
                    _ => unreached(),
                };
                let a = self.reg(p.rs1).wrapping_add(p.imm);
                match self.load_u32(a) {
                    Some(v) => {
                        self.write_rd(p.rd, v);
                        self.pc = self.pc.wrapping_add(4);
                        Ok(0)
                    },
                    None => Err(Fault::Mem),
                }
            },
            RV32I::LBU => {
                let p = match inst.inst_type {
                    InstructionType::I(p) => p,
                    _ => unreached(),
                };
                let a = self.reg(p.rs1).wrapping_add(p.imm);
                match self.load_u8(a) {
                    Some(b) => {
                        self.write_rd(p.rd, b as u32);
                        self.pc = self.pc.wrapping_add(4);
                        Ok(0)
                    },
                    None => Err(Fault::Mem),
                }
            },
            RV32I::LHU => {
                let p = match inst.inst_type {
                    InstructionType::I(p) => p,
                    _ => unreached(),
                };
                let a = self.reg(p.rs1).wrapping_add(p.imm);
                match self.load_u16(a) {
                    Some(h) => {
                        self.write_rd(p.rd, h);
                        self.pc = self.pc.wrapping_add(4);
                        Ok(0)
                    },
                    None => Err(Fault::Mem),
                }
            },
            RV32I::SB => {
                let p = match inst.inst_type {
                    InstructionType::S(p) => p,
                    _ => unreached(),
                };
                let a = self.reg(p.rs1).wrapping_add(p.imm);
                let v = self.reg(p.rs2);
                if self.store_u8(a, v) {
                    self.pc = self.pc.wrapping_add(4);
                    Ok(0)
                } else {
                    Err(Fault::Mem)
                }
            },
            RV32I::SH => {
                let p = match inst.inst_type {
                    InstructionType::S(p) => p,
                    _ => unreached(),
                };
                let a = self.reg(p.rs1).wrapping_add(p.imm);
                let v = self.reg(p.rs2);
                if self.store_u16(a, v) {
                    self.pc = self.pc.wrapping_add(4);
                    Ok(0)
                } else {
                    Err(Fault::Mem)
                }
            },
            RV32I::SW => {
                let p = match inst.inst_type {
                    InstructionType::S(p) => p,
                    _ => unreached(),
                };
                let a = self.reg(p.rs1).wrapping_add(p.imm);
                let v = self.reg(p.rs2);
                if self.store_u32(a, v) {
                    self.pc = self.pc.wrapping_add(4);
                    Ok(0)
                } else {
                    Err(Fault::Mem)
                }
            },
            RV32I::ADDI => {
                let p = match inst.inst_type {
                    InstructionType::I(p) => p,
                    _ => unreached(),
                };
                self.addi(p.rd, p.rs1, p.imm);
                self.pc = self.pc.wrapping_add(4);
                Ok(0)
            },
            RV32I::SLTI => {
                let p = match inst.inst_type {
                    InstructionType::I(p) => p,
                    _ => unreached(),
                };
                self.slti(p.rd, p.rs1, p.imm);
                self.pc = self.pc.wrapping_add(4);
                Ok(0)
            },
            RV32I::SLTIU => {
                let p = match inst.inst_type {
                    InstructionType::I(p) => p,
                    _ => unreached(),
                };
                self.sltiu(p.rd, p.rs1, p.imm);
                self.pc = self.pc.wrapping_add(4);
                Ok(0)
            },
            RV32I::XORI => {
                let p = match inst.inst_type {
                    InstructionType::I(p) => p,
                    _ => unreached(),
                };
                self.xori(p.rd, p.rs1, p.imm);
                self.pc = self.pc.wrapping_add(4);
                Ok(0)
            },
            RV32I::ORI => {
                let p = match inst.inst_type {
                    InstructionType::I(p) => p,
                    _ => unreached(),
                };
                self.ori(p.rd, p.rs1, p.imm);
                self.pc = self.pc.wrapping_add(4);
                Ok(0)
            },
            RV32I::ANDI => {
                let p = match inst.inst_type {
                    InstructionType::I(p) => p,
                    _ => unreached(),
                };
                self.andi(p.rd, p.rs1, p.imm);
                self.pc = self.pc.wrapping_add(4);
                Ok(0)
            },
            RV32I::SLLI => {
                let p = match inst.inst_type {
                    InstructionType::I(p) => p,
                    _ => unreached(),
                };
                self.slli(p.rd, p.rs1, p.imm);
                self.pc = self.pc.wrapping_add(4);
                Ok(0)
            },
            RV32I::SRLI => {
                let p = match inst.inst_type {
                    InstructionType::I(p) => p,
                    _ => unreached(),
                };
                self.srli(p.rd, p.rs1, p.imm);
                self.pc = self.pc.wrapping_add(4);
                Ok(0)
            },
            RV32I::SRAI => {
                let p = match inst.inst_type {
                    InstructionType::I(p) => p,
                    _ => unreached(),
                };
                self.srai(p.rd, p.rs1, p.imm);
                self.pc = self.pc.wrapping_add(4);
                Ok(0)
            },
            RV32I::ADD => {
                let p = match inst.inst_type {
                    InstructionType::R(p) => p,
                    _ => unreached(),
                };
                let v = self.reg(p.rs1).wrapping_add(self.reg(p.rs2));
                self.write_rd(p.rd, v);
                self.pc = self.pc.wrapping_add(4);
                Ok(0)
            },
            RV32I::SUB => {
                let p = match inst.inst_type {
                    InstructionType::R(p) => p,
                    _ => unreached(),
                };
                let v = self.reg(p.rs1).wrapping_sub(self.reg(p.rs2));
                self.write_rd(p.rd, v);
                self.pc = self.pc.wrapping_add(4);
                Ok(0)
            },
            RV32I::SLL => {
                let p = match inst.inst_type {
                    InstructionType::R(p) => p,
                    _ => unreached(),
                };
                let y = self.reg(p.rs2);
                let shamt = y & 0x1f;
                proof {
                    crate::bits::lemma_field_bounds(y);
                }
                let v = self.reg(p.rs1) << shamt;
                self.write_rd(p.rd, v);
                self.pc = self.pc.wrapping_add(4);
                Ok(0)
            },
            RV32I::SLT => {
                let p = match inst.inst_type {
                    InstructionType::R(p) => p,
                    _ => unreached(),
                };
                let v: u32 = if crate::bits::signed_less(self.reg(p.rs1), self.reg(p.rs2)) {
                    1
                } else {
                    0
                };
                self.write_rd(p.rd, v);
                self.pc = self.pc.wrapping_add(4);
                Ok(0)
            },
            RV32I::SLTU => {
                let p = match inst.inst_type {
                    InstructionType::R(p) => p,
                    _ => unreached(),
                };
                let v: u32 = if self.reg(p.rs1) < self.reg(p.rs2) {
                    1
                } else {
                    0
                };
                self.write_rd(p.rd, v);
                self.pc = self.pc.wrapping_add(4);
                Ok(0)
            },
            RV32I::XOR => {
                let p = match inst.inst_type {
                    InstructionType::R(p) => p,
                    _ => unreached(),
                };
                let v = self.reg(p.rs1) ^ self.reg(p.rs2);
                self.write_rd(p.rd, v);
                self.pc = self.pc.wrapping_add(4);
                Ok(0)
            },
            RV32I::SRL => {
                let p = match inst.inst_type {
                    InstructionType::R(p) => p,
                    _ => unreached(),
                };
                let y = self.reg(p.rs2);
                let shamt = y & 0x1f;
                proof {
                    crate::bits::lemma_field_bounds(y);
                }
                let v = self.reg(p.rs1) >> shamt;
                self.write_rd(p.rd, v);
                self.pc = self.pc.wrapping_add(4);
                Ok(0)
            },
            RV32I::SRA => {
                let p = match inst.inst_type {
                    InstructionType::R(p) => p,
                    _ => unreached(),
                };
                let y = self.reg(p.rs2);
                let shamt = y & 0x1f;
                proof {
                    crate::bits::lemma_field_bounds(y);
                }
                let v = crate::bits::shift_right_arithmetic(self.reg(p.rs1), shamt);
                self.write_rd(p.rd, v);
                self.pc = self.pc.wrapping_add(4);
                Ok(0)
            },
            RV32I::OR => {
                let p = match inst.inst_type {
                    InstructionType::R(p) => p,
                    _ => unreached(),
                };
                let v = self.reg(p.rs1) | self.reg(p.rs2);
                self.write_rd(p.rd, v);
                self.pc = self.pc.wrapping_add(4);
                Ok(0)
            },
            RV32I::AND => {
                let p = match inst.inst_type {
                    InstructionType::R(p) => p,
                    _ => unreached(),
                };
                let v = self.reg(p.rs1) & self.reg(p.rs2);
                self.write_rd(p.rd, v);
                self.pc = self.pc.wrapping_add(4);
                Ok(0)
            },
            RV32I::FENCE => {
                // No other agent to order against: FENCE only advances.
                self.pc = self.pc.wrapping_add(4);
                Ok(0)
            },
            RV32I::ECALL => Err(Fault::EnvCall),
            RV32I::EBREAK => Err(Fault::EnvBreak),
        }
    }
}

// ---------------------------------------------------------------------------
// The driver loop: fetch, decode, execute until a NOP or a fault.

/// The word the next fetch reads: the 32-bit little-endian value at the
/// program counter, or nothing when the fetch would overrun memory.
pub open spec fn spec_fetch(m: MachineView) -> Option<u32> {
    if m.pc as int + 4 <= MEM_SIZE {
        Some(le32_at(m.mem, m.pc as int))
    } else {
        None
    }
}

/// One machine step: the word at the program counter decodes and executes
/// without fault, taking `m1` to `m2`.
pub open spec fn step(m1: MachineView, m2: MachineView) -> bool {
    &&& spec_fetch(m1) matches Some(w)
    &&& spec_decode(w) matches Ok(i)
    &&& spec_execute(m1, i) == Ok::<MachineView, Fault>(m2)
}

/// No step leaves `m`: the fetch overruns memory, the word does not decode,
/// or the instruction faults.
pub open spec fn blocked(m: MachineView) -> bool {
    match spec_fetch(m) {
        None => true,
        Some(w) => match spec_decode(w) {
            Err(_) => true,
            Ok(i) => spec_execute(m, i) is Err,
        },
    }
}

/// `m2` is reached from `m1` in exactly `n` steps.
pub open spec fn reach_n(m1: MachineView, m2: MachineView, n: nat) -> bool
    decreases n,
{
    if n == 0 {
        m1 == m2
    } else {
        exists|mm: MachineView| reach_n(m1, mm, (n - 1) as nat) && #[trigger] step(mm, m2)
    }
}

/// `m2` is reached from `m1` by some number of machine steps.
pub open spec fn reach(m1: MachineView, m2: MachineView) -> bool {
    exists|n: nat| reach_n(m1, m2, n)
}

/// Every state reaches itself.
pub proof fn lemma_reach_refl(m: MachineView)
    ensures
        reach(m, m),
{
    assert(reach_n(m, m, 0));
}

/// Reachability is closed under one more step.
pub proof fn lemma_reach_step(m1: MachineView, m2: MachineView, m3: MachineView)
    requires
        reach(m1, m2),
        step(m2, m3),
    ensures
        reach(m1, m3),
{
    let n = choose|n: nat| reach_n(m1, m2, n);
    assert(reach_n(m1, m3, n + 1));
}

/// The step budget of one `run` call. Two to the sixty-fourth less one
/// steps: no real program exhausts it, and it makes the driver loop a total
/// function.
pub const RUN_FUEL: u64 = 0xffff_ffff_ffff_ffff;

/// What one `run` call produces: its exit status, the architectural state
/// it stops in, and the last instruction it executed (if any).
#[verifier::ext_equal]
pub struct RunOutcome {
    pub status: u8,
    pub state: MachineView,
    pub last: Option<Instruction>,
}

/// The run as a function of the boot state: step until a NOP is executed
/// (when exit-on-nop is set) or the machine blocks — a fetch past the end
/// of memory, a word that does not decode, a memory fault, ECALL or EBREAK.
/// The status is 0 exactly on the NOP exit and 1 otherwise; the state is
/// left at the instruction that blocked (so its `pc` identifies the
/// offending word), and `last` records the most recently executed
/// instruction, starting from `last0`.
pub open spec fn spec_run(m: MachineView, exit_on_nop: bool, last0: Option<Instruction>, fuel: nat)
    -> RunOutcome
    decreases fuel,
{
    if fuel == 0 {
        RunOutcome { status: 1, state: m, last: last0 }
    } else {
        match spec_fetch(m) {
            None => RunOutcome { status: 1, state: m, last: last0 },
            Some(w) => match spec_decode(w) {
                Err(_) => RunOutcome { status: 1, state: m, last: last0 },
                Ok(i) => match spec_execute(m, i) {
                    Err(_) => RunOutcome { status: 1, state: m, last: last0 },
                    Ok(m2) => if exit_on_nop && i.spec_is_nop() {
                        RunOutcome { status: 0, state: m2, last: Some(i) }
                    } else {
                        spec_run(m2, exit_on_nop, Some(i), (fuel - 1) as nat)
                    },
                },
            },
        }
    }
}

/// The little-endian byte image of a sequence of 32-bit words.
pub open spec fn words_le_bytes(ws: Seq<u32>) -> Seq<u8> {
    Seq::new(ws.len() * 4, |k: int| ((ws[k / 4] >> ((k % 4) * 8)) & 0xff) as u8)
}

impl CPU {
    /// Read the instruction word at the program counter, without advancing
    /// it.
    pub fn fetch(&self) -> (r: Option<u32>)
        requires
            self.wf(),
        ensures
            r == spec_fetch(self@),
    {
        self.load_u32(self.pc)
    }

    /// Decode a word into a typed instruction, or report why it does not
    /// decode.
    pub fn decode(&self, inst: u32) -> (r: Result<Instruction, DecodeError>)
        ensures
            r == spec_decode(inst),
    {
        match crate::isa::parse_inst(inst) {
            Err(e) => Err(e),
            Ok(t) => match crate::isa::get_inst(t) {
                Err(e) => Err(e),
                Ok(op) => Ok(Instruction { inst_type: t, inst: op, raw: inst }),
            },
        }
    }

    /// Write a byte image into memory starting at the program counter.
    /// Reports whether the image fit; nothing is written otherwise.
    pub fn load(&mut self, instructions: &[u8]) -> (r: bool)
        requires
            old(self).wf(),
        ensures
            final(self).wf(),
            r == (old(self)@.pc as int + instructions@.len() <= MEM_SIZE),
            r ==> final(self)@.mem == old(self)@.mem.take(old(self)@.pc as int).add(
                instructions@,
            ).add(old(self)@.mem.skip(old(self)@.pc as int + instructions@.len() as int)),
            !r ==> final(self)@.mem == old(self)@.mem,
            final(self)@.regs == old(self)@.regs,
            final(self)@.pc == old(self)@.pc,
            final(self).exit_on_nop == old(self).exit_on_nop,
            final(self).last_inst == old(self).last_inst,
    {
        let base = self.pc as usize;
        let n = instructions.len();
        if base > MEM_SIZE || n > MEM_SIZE - base {
            return false;
        }
        let ghost mem0 = self@.mem;
        let mut k: usize = 0;
        while k < n
            invariant
                self.wf(),
                base + n <= MEM_SIZE,
                k <= n,
                n == instructions@.len(),
                self@.mem.len() == mem0.len(),
                forall|j: int| 0 <= j < base ==> self@.mem[j] == mem0[j],
                forall|j: int| 0 <= j < k ==> self@.mem[base + j] == instructions@[j],
                forall|j: int| base + n <= j < MEM_SIZE ==> self@.mem[j] == mem0[j],
                self@.regs == old(self)@.regs,
                self@.pc == old(self)@.pc,
                self.exit_on_nop == old(self).exit_on_nop,
                self.last_inst == old(self).last_inst,
            decreases n - k,
        {
            self.memory[base + k] = instructions[k];
            k = k + 1;
        }
        proof {
            assert(self@.mem =~= mem0.take(base as int).add(instructions@).add(
                mem0.skip(base as int + instructions@.len() as int),
            ));
        }
        true
    }

    /// Write a sequence of 32-bit words into memory at the program counter,
    /// little-endian. Reports whether the image fit.
    pub fn from_inst(&mut self, instruction: Vec<u32>) -> (r: bool)
        requires
            old(self).wf(),
        ensures
            final(self).wf(),
            r == (old(self)@.pc as int + instruction@.len() * 4 <= MEM_SIZE),
            r ==> final(self)@.mem == old(self)@.mem.take(old(self)@.pc as int).add(
                words_le_bytes(instruction@),
            ).add(old(self)@.mem.skip(old(self)@.pc as int + instruction@.len() * 4)),
            !r ==> final(self)@.mem == old(self)@.mem,
            final(self)@.regs == old(self)@.regs,
            final(self)@.pc == old(self)@.pc,
            final(self).exit_on_nop == old(self).exit_on_nop,
            final(self).last_inst == old(self).last_inst,
    {
        let mut bytes: Vec<u8> = Vec::new();
        let n = instruction.len();
        let mut i: usize = 0;
        while i < n
            invariant
                i <= n,
                n == instruction@.len(),
                bytes@.len() == 4 * i,
                forall|k: int| 0 <= k < 4 * i ==> bytes@[k] == words_le_bytes(instruction@)[k],
            decreases n - i,
        {
            let w = instruction[i];
            bytes.push(#[verifier::truncate] ((w & 0xff) as u8));
            bytes.push(#[verifier::truncate] (((w >> 8) & 0xff) as u8));
            bytes.push(#[verifier::truncate] (((w >> 16) & 0xff) as u8));
            bytes.push(#[verifier::truncate] (((w >> 24) & 0xff) as u8));
            proof {
                let ii = i as int;
                assert((4 * ii) / 4 == ii && (4 * ii) % 4 == 0) by (nonlinear_arith);
                assert((4 * ii + 1) / 4 == ii && (4 * ii + 1) % 4 == 1) by (nonlinear_arith);
                assert((4 * ii + 2) / 4 == ii && (4 * ii + 2) % 4 == 2) by (nonlinear_arith);
                assert((4 * ii + 3) / 4 == ii && (4 * ii + 3) % 4 == 3) by (nonlinear_arith);
                assert(w >> (0 * 8) == w) by (bit_vector);
            }
            i = i + 1;
        }
        proof {
            assert(bytes@ =~= words_le_bytes(instruction@));
        }
        self.load(bytes.as_slice())
    }

    /// Fetch, decode and execute until a NOP is executed (when exit-on-nop
    /// is set) or the machine blocks. The result, the final state and the
    /// recorded last instruction are exactly [`spec_run`] of the boot
    /// state: 0 for a normal exit through a NOP; 1 when a fetch overrun, a
    /// decode failure, a memory fault, ECALL or EBREAK stops the machine,
    /// with the final program counter sitting at the offending instruction.
    /// Every mutation of the state is a chain of machine steps.
    pub fn run(&mut self) -> (r: u8)
        requires
            old(self).wf(),
        ensures
            final(self).wf(),
            final(self).exit_on_nop == old(self).exit_on_nop,
            ({
                let o = spec_run(
                    old(self)@,
                    old(self).exit_on_nop,
                    old(self).last_inst,
                    RUN_FUEL as nat,
                );
                r == o.status && final(self)@ == o.state && final(self).last_inst == o.last
            }),
            reach(old(self)@, final(self)@),
            r == 0 || r == 1,
            r == 0 ==> old(self).exit_on_nop && (final(self).last_inst matches Some(i)
                && i.spec_is_nop()),
            r == 1 ==> blocked(final(self)@) || reach_n(old(self)@, final(self)@, RUN_FUEL as nat),
    {
        let ghost m0 = self@;
        let ghost e = self.exit_on_nop;
        let ghost last0 = self.last_inst;
        let ghost mut steps: nat = 0;
        let mut fuel: u64 = RUN_FUEL;
        proof {
            lemma_reach_refl(m0);
        }
        loop
            invariant
                self.wf(),
                self.exit_on_nop == e,
                e == old(self).exit_on_nop,
                reach_n(m0, self@, steps),
                steps + fuel == RUN_FUEL,
                m0 == old(self)@,
                last0 == old(self).last_inst,
                spec_run(m0, e, last0, RUN_FUEL as nat) == spec_run(
                    self@,
                    e,
                    self.last_inst,
                    fuel as nat,
                ),
            decreases fuel,
        {
            proof {
                assert(reach(m0, self@));
            }
            if fuel == 0 {
                return 1;
            }
            let ghost fuel0 = fuel as nat;
            fuel = fuel - 1;
            let w = match self.fetch() {
                Some(w) => w,
                None => {
                    return 1;
                },
            };
            let inst = match self.decode(w) {
                Ok(i) => i,
                Err(_) => {
                    return 1;
                },
            };
            proof {
                crate::laws::lemma_decode_wf(w);
            }
            let ghost prev = self@;
            let ghost last_prev = self.last_inst;
            match self.execute(inst) {
                Ok(_) => {},
                Err(_) => {
                    return 1;
                },
            }
            proof {
                assert(step(prev, self@));
                assert(reach_n(m0, self@, steps + 1));
                steps = steps + 1;
                assert(spec_run(prev, e, last_prev, fuel0) == if e && inst.spec_is_nop() {
                    RunOutcome { status: 0, state: self@, last: Some(inst) }
                } else {
                    spec_run(self@, e, Some(inst), (fuel0 - 1) as nat)
                });
            }
            self.last_inst = Some(inst);
            if self.exit_on_nop && inst.is_nop() {
                proof {
                    assert(reach(m0, self@));
                }
                return 0;
            }
        }
    }
}

} // verus!
