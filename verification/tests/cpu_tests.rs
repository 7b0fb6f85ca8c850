use rv32i::cpu::{Fault, CPU};

#[test]
fn addi() {
    let mut cpu = CPU::new();
    cpu.exit_on_nop = true;
    cpu.from_inst(vec![
        0x06408093, 0x00a08113, 0xfff10193, 0x7ff20213, 0x80020293, 0x80130313, 0x80130313,
    ]);
    cpu.run();

    assert_eq!(cpu.regs[1], 100);
    assert_eq!(cpu.regs[2], 110);
    assert_eq!(cpu.regs[3], 109);
    assert_eq!(cpu.regs[4], 2047);
    assert_eq!(cpu.regs[5] as i32, -1);
    assert_eq!(cpu.regs[6] as i32, -4094);
}

#[test]
fn slti() {
    let mut cpu = CPU::new();
    cpu.exit_on_nop = true;
    cpu.from_inst(vec![0x06402093, 0xfff02113]);

    cpu.run();

    assert_eq!(cpu.regs[1], 1);
    assert_eq!(cpu.regs[2], 0);
}

#[test]
fn sltiu() {
    let mut cpu = CPU::new();
    cpu.exit_on_nop = true;
    cpu.from_inst(vec![0x06403093, 0xfff03113]);

    cpu.run();

    assert_eq!(cpu.regs[1], 1);
    assert_eq!(cpu.regs[2], 1);
}

#[test]
fn slti_signed_vs_sltiu_unsigned() {
    let mut cpu = CPU::new();
    cpu.exit_on_nop = true;
    cpu.from_inst(vec![0x06402093, 0xfff02113, 0x06403193, 0xfff03213]);
    let status = cpu.run();

    assert_eq!(status, 0);
    assert_eq!(cpu.regs[1], 1); // 0 < 100 signed
    assert_eq!(cpu.regs[2], 0); // 0 < -1 signed is false
    assert_eq!(cpu.regs[3], 1); // 0 < 100 unsigned
    assert_eq!(cpu.regs[4], 1); // 0 < 0xFFFFFFFF unsigned
}

#[test]
fn lui_auipc() {
    let mut cpu = CPU::new();
    cpu.exit_on_nop = true;
    cpu.from_inst(vec![0x000010b7, 0x00000117]);
    let status = cpu.run();

    assert_eq!(status, 0);
    assert_eq!(cpu.regs[1], 0x00001000);
    assert_eq!(cpu.regs[2], 0x00000004); // the PC of the AUIPC was 4
}

#[test]
fn branch_taken_not_taken() {
    let mut cpu = CPU::new();
    cpu.exit_on_nop = true;
    // ADDI x1,x0,5; ADDI x2,x0,5; BEQ x1,x2,+8 (skips one instruction);
    // ADDI x3,x0,1 (skipped); ADDI x4,x0,2.
    cpu.from_inst(vec![0x00500093, 0x00500113, 0x00208463, 0x00100193, 0x00200213]);
    let status = cpu.run();

    assert_eq!(status, 0);
    assert_eq!(cpu.regs[1], 5);
    assert_eq!(cpu.regs[2], 5);
    assert_eq!(cpu.regs[3], 0);
    assert_eq!(cpu.regs[4], 2);
}

#[test]
fn jal_jalr_round_trip() {
    let mut cpu = CPU::new();
    cpu.exit_on_nop = true;
    // JAL x1,+8 from PC=0; the ADDI x5,x0,99 at PC=4 is jumped over;
    // JALR x0,x1,+8 at PC=8 lands on the NOP at PC=12.
    cpu.from_inst(vec![0x008000ef, 0x06300293, 0x00808067, 0x00000013]);
    let status = cpu.run();

    assert_eq!(status, 0);
    assert_eq!(cpu.regs[1], 4);
    assert_eq!(cpu.regs[5], 0);
    // The counter sits just past the NOP at 12, still four-byte aligned.
    assert_eq!(cpu.pc, 16);
    assert_eq!(cpu.pc % 4, 0);
}

#[test]
fn store_load_byte_wrap() {
    let mut cpu = CPU::new();
    cpu.exit_on_nop = true;
    // ADDI x1,x0,-1; SB x1,0(x0); LBU x2,0(x0); LB x3,0(x0).
    cpu.from_inst(vec![0xfff00093, 0x00100023, 0x00004103, 0x00000183]);
    let status = cpu.run();

    assert_eq!(status, 0);
    assert_eq!(cpu.memory[0], 0xff);
    assert_eq!(cpu.regs[2], 0x000000ff);
    assert_eq!(cpu.regs[3], 0xffffffff);
}

#[test]
fn store_load_half_and_word() {
    let mut cpu = CPU::new();
    cpu.exit_on_nop = true;
    // ADDI x1,x0,-1; SH x1,4(x0); LHU x2,4(x0); LH x3,4(x0);
    // SW x1,8(x0); LW x4,8(x0).
    cpu.from_inst(vec![
        0xfff00093, 0x00101223, 0x00405103, 0x00401183, 0x00102423, 0x00802203,
    ]);
    let status = cpu.run();

    assert_eq!(status, 0);
    assert_eq!(cpu.regs[2], 0x0000ffff);
    assert_eq!(cpu.regs[3], 0xffffffff);
    assert_eq!(cpu.regs[4], 0xffffffff);
}

#[test]
fn shifts_and_alu() {
    let mut cpu = CPU::new();
    cpu.exit_on_nop = true;
    // ADDI x1,x0,-16; SRAI x2,x1,2; SRLI x3,x1,2; ADD x4,x1,x1;
    // SUB x5,x0,x1; ANDI x6,x1,0xF0.
    cpu.from_inst(vec![
        0xff000093, 0x4020d113, 0x0020d193, 0x00108233, 0x401002b3, 0x0f00f313,
    ]);
    let status = cpu.run();

    assert_eq!(status, 0);
    assert_eq!(cpu.regs[1] as i32, -16);
    assert_eq!(cpu.regs[2] as i32, -4);
    assert_eq!(cpu.regs[3], 0x3ffffffc);
    assert_eq!(cpu.regs[4] as i32, -32);
    assert_eq!(cpu.regs[5], 16);
    assert_eq!(cpu.regs[6], 0xf0);
}

#[test]
fn jalr_clears_low_bit() {
    let mut cpu = CPU::new();
    cpu.exit_on_nop = true;
    // ADDI x1,x0,9; JALR x2,x1,0 jumps to 9 & ~1 == 8, the NOP.
    cpu.from_inst(vec![0x00900093, 0x00008167, 0x00000013]);
    let status = cpu.run();

    assert_eq!(status, 0);
    assert_eq!(cpu.regs[1], 9);
    assert_eq!(cpu.regs[2], 8);
}

#[test]
fn writes_to_x0_are_ignored() {
    let mut cpu = CPU::new();
    cpu.exit_on_nop = true;
    // ADDI x0,x0,5 is not a NOP (immediate 5) but its write is discarded.
    cpu.from_inst(vec![0x00500013]);
    let status = cpu.run();

    assert_eq!(status, 0);
    assert_eq!(cpu.regs[0], 0);
}

#[test]
fn fence_is_a_no_op() {
    let mut cpu = CPU::new();
    cpu.exit_on_nop = true;
    cpu.from_inst(vec![0x0ff0000f]);
    let status = cpu.run();

    assert_eq!(status, 0);
    for i in 0..32 {
        assert_eq!(cpu.regs[i], 0);
    }
}

#[test]
fn run_stops_on_unknown_opcode() {
    let mut cpu = CPU::new();
    cpu.exit_on_nop = true;
    cpu.from_inst(vec![0x00000057]);
    let status = cpu.run();

    assert_eq!(status, 1);
}

#[test]
fn run_stops_on_memory_fault() {
    let mut cpu = CPU::new();
    cpu.exit_on_nop = true;
    // ADDI x1,x0,-1; LW x2,0(x1) reads far beyond the end of memory.
    cpu.from_inst(vec![0xfff00093, 0x0000a103]);
    let status = cpu.run();

    assert_eq!(status, 1);
    assert_eq!(cpu.regs[2], 0);
}

#[test]
fn run_stops_on_ecall_and_ebreak() {
    let mut cpu = CPU::new();
    cpu.exit_on_nop = true;
    cpu.from_inst(vec![0x00000073]);
    assert_eq!(cpu.run(), 1);

    let mut cpu = CPU::new();
    cpu.exit_on_nop = true;
    cpu.from_inst(vec![0x00100073]);
    assert_eq!(cpu.run(), 1);
}

#[test]
fn run_until_fault_passes_over_nops() {
    let mut cpu = CPU::new();
    // Without exit-on-nop the canonical NOP does not stop the loop; the
    // EBREAK behind it does.
    cpu.from_inst(vec![0x00000013, 0x00100073]);
    let status = cpu.run();

    assert_eq!(status, 1);
    assert_eq!(cpu.pc, 4);
}

#[test]
fn execute_reports_faults() {
    let mut cpu = CPU::new();
    let ecall = cpu.decode(0x00000073).unwrap();
    assert_eq!(cpu.execute(ecall), Err(Fault::EnvCall));
    let ebreak = cpu.decode(0x00100073).unwrap();
    assert_eq!(cpu.execute(ebreak), Err(Fault::EnvBreak));
    // LW x2,0(x1) with x1 == 0xFFFFFFFF reaches past the end of memory.
    cpu.regs[1] = 0xffffffff;
    let lw = cpu.decode(0x0000a103).unwrap();
    assert_eq!(cpu.execute(lw), Err(Fault::Mem));
    // The PC is untouched by a faulting instruction.
    assert_eq!(cpu.pc, 0);
}

#[test]
fn memory_access_bounds() {
    let mut cpu = CPU::new();
    assert!(cpu.store_u32(0x100, 0xdeadbeef));
    assert_eq!(cpu.load_u32(0x100), Some(0xdeadbeef));
    assert_eq!(cpu.load_u16(0x100), Some(0xbeef));
    assert_eq!(cpu.load_u8(0x100), Some(0xef));
    assert_eq!(cpu.load_u8(0x103), Some(0xde));

    assert!(!cpu.store_u32(0xfffd, 1));
    assert!(!cpu.store_u16(0xffff, 1));
    assert!(!cpu.store_u8(0x10000, 1));
    assert_eq!(cpu.load_u32(0xfffd), None);
    assert_eq!(cpu.load_u8(0x10000), None);
    assert!(cpu.store_u8(0xffff, 0xab));
    assert_eq!(cpu.load_u8(0xffff), Some(0xab));
}

#[test]
fn loader_rejects_oversized_images() {
    let mut cpu = CPU::new();
    let image = vec![0u8; 0x10001];
    assert!(!cpu.load(&image));

    let mut cpu = CPU::new();
    let image = vec![0xabu8; 0x10000];
    assert!(cpu.load(&image));
    assert_eq!(cpu.memory[0xffff], 0xab);

    // A word image that would overrun the end of memory from a nonzero base.
    let mut cpu = CPU::new();
    cpu.pc = 0xfffc;
    assert!(cpu.from_inst(vec![0x00000013]));
    let mut cpu = CPU::new();
    cpu.pc = 0xfffe;
    assert!(!cpu.from_inst(vec![0x00000013]));
}

#[test]
fn loader_places_words_little_endian() {
    let mut cpu = CPU::new();
    cpu.from_inst(vec![0x06408093]);
    assert_eq!(cpu.memory[0], 0x93);
    assert_eq!(cpu.memory[1], 0x80);
    assert_eq!(cpu.memory[2], 0x40);
    assert_eq!(cpu.memory[3], 0x06);
}
