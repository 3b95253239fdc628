//! Per-mnemonic corners: sign extension, the 32-bit word forms, jumps and
//! wrapping arithmetic.

use rrvemu::cpu::Cpu;

#[test]
fn lb_sign_extends_lbu_does_not() {
    let mut cpu = Cpu::new(Vec::new());
    cpu.regs[6] = 0x8000_0100;
    cpu.regs[5] = 0x80;
    // sb x5, 0(x6)
    cpu.execute(0x00530023, 0).unwrap();
    // lb x7, 0(x6)
    cpu.execute(0x00030383, 0).unwrap();
    assert_eq!(cpu.regs[7], 0xFFFF_FFFF_FFFF_FF80);
    // lbu x7, 0(x6)
    cpu.execute(0x00034383, 0).unwrap();
    assert_eq!(cpu.regs[7], 0x80);
}

#[test]
fn lh_assembles_little_endian_signed() {
    let mut cpu = Cpu::new(Vec::new());
    cpu.store(0x8000_0200, 16, 0x8001, 0).unwrap();
    cpu.regs[6] = 0x8000_0200;
    // lh x7, 0(x6)
    cpu.execute(0x00031383, 0).unwrap();
    assert_eq!(cpu.regs[7], 0xFFFF_FFFF_FFFF_8001);
}

#[test]
fn addiw_wraps_and_sign_extends() {
    let mut cpu = Cpu::new(Vec::new());
    cpu.regs[5] = 0x7FFF_FFFF;
    // addiw x7, x5, 1: 32-bit overflow to the negative end
    cpu.execute(0x0012839b, 0).unwrap();
    assert_eq!(cpu.regs[7], 0xFFFF_FFFF_8000_0000);
}

#[test]
fn sllw_shifts_within_32_bits() {
    let mut cpu = Cpu::new(Vec::new());
    cpu.regs[5] = 1;
    cpu.regs[6] = 31;
    // sllw x7, x5, x6
    cpu.execute(0x006293bb, 0).unwrap();
    assert_eq!(cpu.regs[7], 0xFFFF_FFFF_8000_0000);
}

#[test]
fn sraiw_arithmetic_on_word() {
    let mut cpu = Cpu::new(Vec::new());
    cpu.regs[5] = 0x8000_0000;
    // sraiw x7, x5, 4
    cpu.execute(0x4042d39b, 0).unwrap();
    assert_eq!(cpu.regs[7], 0xFFFF_FFFF_F800_0000);
}

#[test]
fn subw_wraps_in_32_bits() {
    let mut cpu = Cpu::new(Vec::new());
    cpu.regs[5] = 0;
    cpu.regs[6] = 1;
    // subw x7, x5, x6
    cpu.execute(0x406283bb, 0).unwrap();
    assert_eq!(cpu.regs[7], 0xFFFF_FFFF_FFFF_FFFF);
}

#[test]
fn mul_wraps_at_sixty_four_bits() {
    let mut cpu = Cpu::new(Vec::new());
    cpu.regs[5] = 0x8000_0000_0000_0001;
    cpu.regs[6] = 2;
    // mul x7, x5, x6
    cpu.execute(0x026283b3, 0).unwrap();
    assert_eq!(cpu.regs[7], 2);
}

#[test]
fn xori_with_minus_one_complements() {
    let mut cpu = Cpu::new(Vec::new());
    cpu.regs[5] = 0x0F0F;
    // xori x7, x5, -1
    cpu.execute(0xfff2c393, 0).unwrap();
    assert_eq!(cpu.regs[7], 0xFFFF_FFFF_FFFF_F0F0);
}

#[test]
fn jal_links_and_jumps() {
    let mut cpu = Cpu::new(Vec::new());
    cpu.pc = 0x8000_0000;
    // jal x5, +16
    cpu.execute(0x010002ef, 0).unwrap();
    assert_eq!(cpu.regs[5], 0x8000_0004);
    assert_eq!(cpu.pc, 0x8000_0010);
}

#[test]
fn jalr_masks_low_bit() {
    let mut cpu = Cpu::new(Vec::new());
    cpu.pc = 0x8000_0000;
    cpu.regs[6] = 0x8000_0101;
    // jalr x5, 0(x6)
    cpu.execute(0x000302e7, 0).unwrap();
    assert_eq!(cpu.regs[5], 0x8000_0004);
    assert_eq!(cpu.pc, 0x8000_0100);
}

#[test]
fn auipc_adds_to_pc() {
    let mut cpu = Cpu::new(Vec::new());
    cpu.pc = 0x8000_0000;
    // auipc x5, 0x1000
    cpu.execute(0x01000297, 0).unwrap();
    assert_eq!(cpu.regs[5], 0x8100_0000);
    assert_eq!(cpu.pc, 0x8000_0004);
}

#[test]
fn lui_sign_extends_high_immediate() {
    let mut cpu = Cpu::new(Vec::new());
    // lui x5, 0x80000
    cpu.execute(0x800002b7, 0).unwrap();
    assert_eq!(cpu.regs[5], 0xFFFF_FFFF_8000_0000);
}
