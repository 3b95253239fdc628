//! End-to-end guest programs run through the hart loop.

use rrvemu::address::{MCAUSE, MEPC, MIP, SCAUSE, SEPC, SSTATUS};
use rrvemu::cpu::{Cpu, Mode, StepOutcome};

fn boot(words: &[u32]) -> Cpu {
    let mut binary: Vec<u8> = Vec::new();
    for w in words {
        binary.extend_from_slice(&w.to_le_bytes());
    }
    Cpu::new(binary)
}

fn run(cpu: &mut Cpu, steps: usize) {
    for _ in 0..steps {
        if cpu.step(None) == StepOutcome::Halt {
            break;
        }
    }
}

#[test]
fn lui_addi_arithmetic() {
    // lui x5, 0x12345; addi x5, x5, 0x678; ebreak
    let mut cpu = boot(&[0x123452b7, 0x67828293, 0x00100073]);
    run(&mut cpu, 3);
    assert_eq!(cpu.regs[5], 0x0000_0000_1234_5678);
    assert_eq!(cpu.csr.load(MCAUSE), 3);
    assert_eq!(cpu.csr.load(MEPC), 0x8000_0008);
}

#[test]
fn branch_taken_skips() {
    // addi x1,x0,1; addi x2,x0,1; beq x1,x2,+8; addi x3,x0,0xAA;
    // addi x4,x0,0xBB; ebreak
    let mut cpu = boot(&[
        0x00100093, 0x00100113, 0x00208463, 0x0aa00193, 0x0bb00213, 0x00100073,
    ]);
    run(&mut cpu, 5);
    assert_eq!(cpu.regs[3], 0);
    assert_eq!(cpu.regs[4], 0xBB);
    assert_eq!(cpu.csr.load(MCAUSE), 3);
}

#[test]
fn memory_round_trip_sd_ld() {
    // auipc x5,0; ld x6, 0x20(x5); addi x7, sp, -16; sd x6, 0(x7);
    // ld x10, 0(x7); ebreak; then the constant at offset 0x20.
    let mut binary: Vec<u8> = Vec::new();
    for w in [
        0x00000297u32, 0x0202b303, 0xff010393, 0x0063b023, 0x0003b503, 0x00100073, 0, 0,
    ] {
        binary.extend_from_slice(&w.to_le_bytes());
    }
    binary.extend_from_slice(&0xDEADBEEF_CAFEBABEu64.to_le_bytes());
    let mut cpu = Cpu::new(binary);
    run(&mut cpu, 6);
    assert_eq!(cpu.regs[10], 0xDEADBEEF_CAFEBABE);
    assert_eq!(cpu.csr.load(MCAUSE), 3);
    assert_eq!(cpu.csr.load(MEPC), 0x8000_0014);
}

#[test]
fn ecall_delegated_to_supervisor() {
    // addi x1,x0,0x100; csrrw x0,medeleg,x1; auipc x2,0;
    // addi x2,x2,0x10; csrrw x0,mepc,x2; mret; ecall
    let mut cpu = boot(&[
        0x10000093, 0x30209073, 0x00000117, 0x01010113, 0x34111073, 0x30200073, 0x00000073,
    ]);
    run(&mut cpu, 7);
    assert_eq!(cpu.mode, Mode::Supervisor);
    assert_eq!(cpu.csr.load(SCAUSE), 8);
    assert_eq!(cpu.csr.load(SEPC), 0x8000_0018);
    assert_eq!((cpu.csr.load(SSTATUS) >> 8) & 1, 0);
}

#[test]
fn unsigned_divide_by_zero() {
    // addi x5,x0,42; addi x6,x0,0; divu x7,x5,x6; ebreak
    let mut cpu = boot(&[0x02a00293, 0x00000313, 0x0262d3b3, 0x00100073]);
    run(&mut cpu, 4);
    assert_eq!(cpu.regs[7], 0xFFFF_FFFF_FFFF_FFFF);
}

#[test]
fn timer_interrupt_diverts_to_mtvec() {
    // lui x1,0x02004; sw x0,0(x1); auipc x2,0; addi x2,x2,0x20;
    // csrrw x0,mtvec,x2; addi x3,x0,0x80; csrrw x0,mie,x3;
    // addi x4,x0,8; csrrw x0,mstatus,x4; jal x0,0 (spin); ebreak (handler)
    let mut cpu = boot(&[
        0x020040b7, 0x0000a023, 0x00000117, 0x02010113, 0x30511073, 0x08000193, 0x30419073,
        0x00800213, 0x30021073, 0x0000006f, 0x00100073,
    ]);
    run(&mut cpu, 9);
    assert_eq!(cpu.pc, 0x8000_0028);
    assert_eq!(cpu.csr.load(MCAUSE), 7 | (1u64 << 63));
    assert_eq!(cpu.csr.load(MEPC), 0x8000_0024);
    assert_eq!((cpu.csr.load(MIP) >> 7) & 1, 0);
}

#[test]
fn runaway_fetch_fault_halts() {
    // A breakpoint with mtvec zero sends the hart to address zero, which
    // no region owns: the fetch faults fatally and the run stops.
    let mut cpu = boot(&[0x00100073]);
    let first = cpu.step(None);
    assert_eq!(first, StepOutcome::KeepRunning);
    assert_eq!(cpu.pc, 0);
    let second = cpu.step(None);
    assert_eq!(second, StepOutcome::Halt);
    assert_eq!(cpu.csr.load(MCAUSE), 5);
}
