//! Trap machinery, interrupt arbitration and instruction-level corners.

use rrvemu::address::{
    MCAUSE, MEPC, MIE, MIP, MSTATUS, MTVAL, MTVEC, SCAUSE, SEPC, SSTATUS, STVEC,
};
use rrvemu::cpu::{Cpu, Mode};
use rrvemu::exception::Exception;
use rrvemu::interrupt::Interrupt;

#[test]
fn register_zero_stays_zero() {
    let mut cpu = Cpu::new(Vec::new());
    // addi x0, x0, 5
    cpu.execute(0x00500013, 0).unwrap();
    assert_eq!(cpu.regs[0], 0);
    // lui x0, 0xfffff
    cpu.execute(0xfffff037, 0).unwrap();
    assert_eq!(cpu.regs[0], 0);
}

#[test]
fn exception_entry_sets_pc_and_mepc() {
    let mut cpu = Cpu::new(Vec::new());
    cpu.csr.store(MTVEC, 0x8000_1003); // base with mode bits set
    cpu.pc = 0x8000_0040;
    cpu.handle_exception(Exception::Breakpoint(0x8000_0040));
    assert_eq!(cpu.pc, 0x8000_1000);
    assert_eq!(cpu.csr.load(MEPC), 0x8000_0040);
    assert_eq!(cpu.csr.load(MCAUSE), 3);
    assert_eq!(cpu.csr.load(MTVAL), 0x8000_0040);
    assert_eq!(cpu.mode, Mode::Machine);
}

#[test]
fn interrupt_entry_vectored_lands_on_slot() {
    let mut cpu = Cpu::new(Vec::new());
    cpu.csr.store(MTVEC, 0x8000_2001); // vectored mode
    cpu.pc = 0x8000_0010;
    cpu.handle_interrupt(Interrupt::MachineTimerInterrupt);
    // base + 4 * 7
    assert_eq!(cpu.pc, 0x8000_2000 + 28);
    assert_eq!(cpu.csr.load(MCAUSE), 7 | (1u64 << 63));
    assert_eq!(cpu.csr.load(MEPC), 0x8000_0010);
    assert_eq!(cpu.csr.load(MTVAL), 0);
}

#[test]
fn trap_entry_stacks_status_fields() {
    let mut cpu = Cpu::new(Vec::new());
    cpu.csr.store(MSTATUS, 0x8); // MIE set
    cpu.handle_exception(Exception::IllegalInstruction(0));
    let m = cpu.csr.load(MSTATUS);
    assert_eq!((m >> 3) & 1, 0); // MIE cleared
    assert_eq!((m >> 7) & 1, 1); // MPIE took the old MIE
    assert_eq!((m >> 11) & 3, 3); // MPP holds the previous mode (machine)
}

#[test]
fn mret_restores_stacked_context() {
    let mut cpu = Cpu::new(Vec::new());
    // MPP = machine, MPIE = 1, MIE = 0
    cpu.csr.store(MSTATUS, (0b11 << 11) | (1 << 7));
    cpu.csr.store(MEPC, 0x8000_0100);
    cpu.execute_mret();
    assert_eq!(cpu.mode, Mode::Machine);
    assert_eq!(cpu.pc, 0x8000_0100);
    let m = cpu.csr.load(MSTATUS);
    assert_eq!((m >> 3) & 1, 1); // MIE restored from MPIE
    assert_eq!((m >> 7) & 1, 1); // MPIE set
    assert_eq!((m >> 11) & 3, 0); // MPP reset to user
}

#[test]
fn mret_to_user_clears_mprv() {
    let mut cpu = Cpu::new(Vec::new());
    cpu.csr.store(MSTATUS, 1 << 17); // MPP = user, MPRV set
    cpu.execute_mret();
    assert_eq!(cpu.mode, Mode::User);
    assert_eq!((cpu.csr.load(MSTATUS) >> 17) & 1, 0);
}

#[test]
fn sret_restores_stacked_context() {
    let mut cpu = Cpu::new(Vec::new());
    cpu.mode = Mode::Supervisor;
    // SPP = supervisor, SPIE = 1
    cpu.csr.store(SSTATUS, (1 << 8) | (1 << 5));
    cpu.csr.store(rrvemu::address::SEPC, 0x8000_0200);
    cpu.execute_sret();
    assert_eq!(cpu.mode, Mode::Supervisor);
    assert_eq!(cpu.pc, 0x8000_0200);
    let s = cpu.csr.load(SSTATUS);
    assert_eq!((s >> 1) & 1, 1); // SIE restored from SPIE
    assert_eq!((s >> 5) & 1, 1); // SPIE set
    assert_eq!((s >> 8) & 1, 0); // SPP reset to user
}

#[test]
fn csrrs_with_x0_reads_without_writing() {
    let mut cpu = Cpu::new(Vec::new());
    cpu.csr.store(0x340, 0x5555);
    // csrrs x6, mscratch, x0
    cpu.execute(0x34002373, 0).unwrap();
    assert_eq!(cpu.regs[6], 0x5555);
    assert_eq!(cpu.csr.load(0x340), 0x5555);
}

#[test]
fn csrrw_with_x0_writes_without_reading() {
    let mut cpu = Cpu::new(Vec::new());
    cpu.csr.store(0x340, 0x7777);
    cpu.regs[5] = 0x1234;
    // csrrw x0, mscratch, x5
    cpu.execute(0x34029073, 0).unwrap();
    assert_eq!(cpu.csr.load(0x340), 0x1234);
    assert_eq!(cpu.regs[0], 0);
}

#[test]
fn csrrw_swaps_old_value_into_rd() {
    let mut cpu = Cpu::new(Vec::new());
    cpu.csr.store(0x340, 0xAAAA);
    cpu.regs[5] = 0xBBBB;
    // csrrw x6, mscratch, x5
    cpu.execute(0x34029373, 0).unwrap();
    assert_eq!(cpu.regs[6], 0xAAAA);
    assert_eq!(cpu.csr.load(0x340), 0xBBBB);
}

#[test]
fn illegal_instruction_reports_word() {
    let mut cpu = Cpu::new(Vec::new());
    // a two-bit length pattern other than 0b11
    assert!(matches!(
        cpu.execute(0x0000_0002, 0),
        Err(Exception::IllegalInstruction(0x0000_0002))
    ));
    // OP-FP is outside the implemented set
    assert!(matches!(
        cpu.execute(0x0000_0053, 0),
        Err(Exception::IllegalInstruction(0x0000_0053))
    ));
}

#[test]
fn ecall_reports_current_mode() {
    let mut cpu = Cpu::new(Vec::new());
    cpu.pc = 0x8000_0004;
    assert!(matches!(
        cpu.execute(0x73, 0),
        Err(Exception::EnvironmentCallFromMMode(0x8000_0004))
    ));
    cpu.mode = Mode::Supervisor;
    assert!(matches!(
        cpu.execute(0x73, 0),
        Err(Exception::EnvironmentCallFromSMode(0x8000_0004))
    ));
    cpu.mode = Mode::User;
    assert!(matches!(
        cpu.execute(0x73, 0),
        Err(Exception::EnvironmentCallFromUMode(0x8000_0004))
    ));
}

#[test]
fn remuw_zero_divisor_returns_dividend() {
    let mut cpu = Cpu::new(Vec::new());
    cpu.regs[5] = 0xFFFF_FFFF_0000_002A;
    cpu.regs[6] = 0;
    // remuw x7, x5, x6: the 32-bit dividend comes back, sign-extended
    cpu.execute(0x0262f3bb, 0).unwrap();
    assert_eq!(cpu.regs[7], 0x2A);
}

#[test]
fn remuw_sign_extends_result() {
    let mut cpu = Cpu::new(Vec::new());
    cpu.regs[5] = 0xFFFF_FFFF;
    cpu.regs[6] = 0x1_0000_0000; // low 32 bits are zero
    // remuw x7, x5, x6: zero divisor on the 32-bit view returns the
    // 32-bit dividend, sign-extended
    cpu.execute(0x0262f3bb, 0).unwrap();
    assert_eq!(cpu.regs[7], 0xFFFF_FFFF_FFFF_FFFF);
    cpu.regs[6] = 0x2;
    cpu.regs[5] = 0x8000_0001;
    // 0x80000001 % 2 = 1
    cpu.execute(0x0262f3bb, 0).unwrap();
    assert_eq!(cpu.regs[7], 1);
}

#[test]
fn remu_zero_divisor_returns_dividend() {
    let mut cpu = Cpu::new(Vec::new());
    cpu.regs[5] = 0xFFFF_FFFF_0000_002A;
    cpu.regs[6] = 0;
    // remu x7, x5, x6: the whole 64-bit dividend comes back
    cpu.execute(0x0262f3b3, 0).unwrap();
    assert_eq!(cpu.regs[7], 0xFFFF_FFFF_0000_002A);
}

#[test]
fn remu_computes_remainder() {
    let mut cpu = Cpu::new(Vec::new());
    cpu.regs[5] = 42;
    cpu.regs[6] = 5;
    // remu x7, x5, x6
    cpu.execute(0x0262f3b3, 0).unwrap();
    assert_eq!(cpu.regs[7], 2);
    cpu.regs[5] = 0xFFFF_FFFF_FFFF_FFFF;
    cpu.regs[6] = 0x1_0000_0000;
    cpu.execute(0x0262f3b3, 0).unwrap();
    assert_eq!(cpu.regs[7], 0xFFFF_FFFF);
}

#[test]
fn interrupt_check_clears_taken_bit_in_order() {
    let mut cpu = Cpu::new(Vec::new());
    cpu.csr.store(MSTATUS, 0x8);
    cpu.csr.store(MIE, 0x888);
    cpu.csr.store(MIP, 0x888);
    // external (bit 11) wins first
    assert!(matches!(
        cpu.check_interrupt(),
        Some(Interrupt::MachineExternalInterrupt)
    ));
    assert_eq!(cpu.csr.load(MIP), 0x88);
    // then software (bit 3)
    assert!(matches!(
        cpu.check_interrupt(),
        Some(Interrupt::MachineSoftwareInterrupt)
    ));
    assert_eq!(cpu.csr.load(MIP), 0x80);
    // then timer (bit 7)
    assert!(matches!(
        cpu.check_interrupt(),
        Some(Interrupt::MachineTimerInterrupt)
    ));
    assert_eq!(cpu.csr.load(MIP), 0);
    assert!(cpu.check_interrupt().is_none());
}

#[test]
fn machine_interrupts_gated_by_mie() {
    let mut cpu = Cpu::new(Vec::new());
    cpu.csr.store(MIE, 0x80);
    cpu.csr.store(MIP, 0x80);
    // mstatus.MIE clear in machine mode: nothing fires
    assert!(cpu.check_interrupt().is_none());
    assert_eq!(cpu.csr.load(MIP), 0x80);
}

#[test]
fn delegated_exception_uses_stvec() {
    let mut cpu = Cpu::new(Vec::new());
    cpu.mode = Mode::User;
    cpu.csr.store(rrvemu::address::MEDELEG, 1 << 8);
    cpu.csr.store(STVEC, 0x8000_3000);
    cpu.pc = 0x8000_0008;
    cpu.handle_exception(Exception::EnvironmentCallFromUMode(0x8000_0008));
    assert_eq!(cpu.mode, Mode::Supervisor);
    assert_eq!(cpu.pc, 0x8000_3000);
    assert_eq!(cpu.csr.load(SCAUSE), 8);
    assert_eq!(cpu.csr.load(SEPC), 0x8000_0008);
}

#[test]
fn branch_not_taken_advances_four() {
    let mut cpu = Cpu::new(Vec::new());
    cpu.pc = 0x8000_0000;
    cpu.regs[1] = 1;
    cpu.regs[2] = 2;
    // beq x1, x2, +8 (not taken)
    cpu.execute(0x00208463, 0).unwrap();
    assert_eq!(cpu.pc, 0x8000_0004);
    // bne x1, x2, +8 (taken)
    cpu.execute(0x00209463, 0).unwrap();
    assert_eq!(cpu.pc, 0x8000_000c);
}

#[test]
fn slt_is_signed_sltu_unsigned() {
    let mut cpu = Cpu::new(Vec::new());
    cpu.regs[1] = 0xFFFF_FFFF_FFFF_FFFF; // -1 signed, max unsigned
    cpu.regs[2] = 1;
    // slt x3, x1, x2
    cpu.execute(0x0020a1b3, 0).unwrap();
    assert_eq!(cpu.regs[3], 1);
    // sltu x3, x1, x2
    cpu.execute(0x0020b1b3, 0).unwrap();
    assert_eq!(cpu.regs[3], 0);
}

#[test]
fn sra_fills_with_sign() {
    let mut cpu = Cpu::new(Vec::new());
    cpu.regs[1] = 0x8000_0000_0000_0000;
    cpu.regs[2] = 4;
    // sra x3, x1, x2
    cpu.execute(0x4020d1b3, 0).unwrap();
    assert_eq!(cpu.regs[3], 0xF800_0000_0000_0000);
    // srl x3, x1, x2
    cpu.execute(0x0020d1b3, 0).unwrap();
    assert_eq!(cpu.regs[3], 0x0800_0000_0000_0000);
}

#[test]
fn slli_takes_six_bit_shift() {
    let mut cpu = Cpu::new(Vec::new());
    cpu.regs[1] = 1;
    // slli x3, x1, 33
    cpu.execute(0x02109193, 0).unwrap();
    assert_eq!(cpu.regs[3], 1u64 << 33);
}

#[test]
fn amoadd_returns_original_and_adds() {
    let mut cpu = Cpu::new(Vec::new());
    let a = 0x8000_1000u64;
    cpu.store(a, 64, 40, 0).unwrap();
    cpu.regs[5] = a;
    cpu.regs[6] = 2;
    // amoadd.d x7, x6, (x5)
    cpu.execute(0x0062b3af, 0).unwrap();
    assert_eq!(cpu.regs[7], 40);
    assert_eq!(cpu.load(a, 64, 0).unwrap(), 42);
}

#[test]
fn amoswap_swaps_word() {
    let mut cpu = Cpu::new(Vec::new());
    let a = 0x8000_2000u64;
    cpu.store(a, 32, 0x1111, 0).unwrap();
    cpu.regs[5] = a;
    cpu.regs[6] = 0x2222;
    // amoswap.w x7, x6, (x5)
    cpu.execute(0x0862a3af, 0).unwrap();
    assert_eq!(cpu.regs[7], 0x1111);
    assert_eq!(cpu.load(a, 32, 0).unwrap(), 0x2222);
}

#[test]
fn exception_codes_and_fatality() {
    let cases: [(Exception, u64, bool); 8] = [
        (Exception::InstructionAddressMisaligned(1), 0, true),
        (Exception::InstructionAccessFault(2), 1, true),
        (Exception::IllegalInstruction(3), 2, true),
        (Exception::Breakpoint(4), 3, false),
        (Exception::LoadAccessFault(5), 5, true),
        (Exception::EnvironmentCallFromUMode(6), 8, false),
        (Exception::EnvironmentCallFromMMode(7), 11, false),
        (Exception::StoreAMOPageFault(8), 15, false),
    ];
    for (e, code, fatal) in cases {
        assert_eq!(e.code(), code);
        assert_eq!(e.is_fatal(), fatal);
    }
    assert_eq!(Exception::LoadAccessFault(0x42).value(), 0x42);
}

#[test]
fn interrupt_codes_carry_high_bit() {
    let top = 1u64 << 63;
    assert_eq!(Interrupt::SupervisorSoftwareInterrupt.code(), 1 | top);
    assert_eq!(Interrupt::MachineSoftwareInterrupt.code(), 3 | top);
    assert_eq!(Interrupt::SupervisorTimerInterrupt.code(), 5 | top);
    assert_eq!(Interrupt::MachineTimerInterrupt.code(), 7 | top);
    assert_eq!(Interrupt::SupervisorExternalInterrupt.code(), 9 | top);
    assert_eq!(Interrupt::MachineExternalInterrupt.code(), 11 | top);
    assert_eq!(Interrupt::CounterOverflowInterrupt.code(), 13 | top);
}
