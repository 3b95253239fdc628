//! Device-level behavior: DRAM, PLIC, CLINT, UART and the bus dispatch.

use rrvemu::address::{CLINT_BASE, DRAM_BASE, PLIC_BASE, UART_BASE};
use rrvemu::clint::Clint;
use rrvemu::clint::Timer;
use rrvemu::cpu::Cpu;
use rrvemu::dram::Dram;
use rrvemu::exception::Exception;
use rrvemu::plic::Plic;

#[test]
fn dram_round_trip_all_sizes() {
    let mut dram = Dram::new(Vec::new());
    let a = DRAM_BASE + 0x1001;
    let v = 0xDEAD_BEEF_CAFE_BABEu64;
    for (size, mask) in [
        (8u64, 0xffu64),
        (16, 0xffff),
        (32, 0xffff_ffff),
        (64, 0xffff_ffff_ffff_ffff),
    ] {
        dram.store(a, size, v).unwrap();
        assert_eq!(dram.load(a, size).unwrap(), v & mask);
    }
}

#[test]
fn dram_little_endian_bytes() {
    let mut dram = Dram::new(Vec::new());
    dram.store(DRAM_BASE, 32, 0x0403_0201).unwrap();
    assert_eq!(dram.load(DRAM_BASE, 8).unwrap(), 0x01);
    assert_eq!(dram.load(DRAM_BASE + 1, 8).unwrap(), 0x02);
    assert_eq!(dram.load(DRAM_BASE + 2, 8).unwrap(), 0x03);
    assert_eq!(dram.load(DRAM_BASE + 3, 8).unwrap(), 0x04);
}

#[test]
fn dram_rejects_bad_width() {
    let mut dram = Dram::new(Vec::new());
    assert!(matches!(
        dram.load(DRAM_BASE, 24),
        Err(Exception::LoadAccessFault(a)) if a == DRAM_BASE
    ));
    assert!(matches!(
        dram.store(DRAM_BASE, 0, 1),
        Err(Exception::StoreAMOAccessFault(a)) if a == DRAM_BASE
    ));
}

#[test]
fn dram_holds_loaded_binary() {
    let dram = Dram::new(vec![0x11, 0x22, 0x33]);
    assert_eq!(dram.load(DRAM_BASE, 16).unwrap(), 0x2211);
    assert_eq!(dram.load(DRAM_BASE + 2, 8).unwrap(), 0x33);
    assert_eq!(dram.load(DRAM_BASE + 3, 8).unwrap(), 0);
}

#[test]
fn plic_claim_prefers_higher_priority() {
    let mut plic = Plic::new();
    plic.add_irq(3);
    plic.add_irq(5);
    plic.store(PLIC_BASE + 4 * 3, 32, 2).unwrap();
    plic.store(PLIC_BASE + 4 * 5, 32, 7).unwrap();
    plic.set_pending(3);
    plic.set_pending(5);
    // enable both sources for context 0
    plic.store(PLIC_BASE + 0x2000, 32, (1 << 3) | (1 << 5)).unwrap();
    assert_eq!(plic.claim(0), Some(5));
    assert_eq!(plic.claim(0), Some(3));
    assert_eq!(plic.claim(0), None);
}

#[test]
fn plic_claim_tie_breaks_on_lower_irq() {
    let mut plic = Plic::new();
    plic.add_irq(9);
    plic.add_irq(4);
    plic.store(PLIC_BASE + 4 * 9, 32, 3).unwrap();
    plic.store(PLIC_BASE + 4 * 4, 32, 3).unwrap();
    plic.set_pending(9);
    plic.set_pending(4);
    plic.store(PLIC_BASE + 0x2000, 32, (1 << 9) | (1 << 4)).unwrap();
    assert_eq!(plic.claim(0), Some(4));
    assert_eq!(plic.claim(0), Some(9));
}

#[test]
fn plic_claim_respects_threshold_and_enable() {
    let mut plic = Plic::new();
    plic.add_irq(6);
    plic.store(PLIC_BASE + 4 * 6, 32, 2).unwrap();
    plic.set_pending(6);
    // not enabled yet
    assert_eq!(plic.claim(0), None);
    plic.store(PLIC_BASE + 0x2000, 32, 1 << 6).unwrap();
    // threshold at the source priority: "strictly exceeds" fails
    plic.store(PLIC_BASE + 0x20_0000, 32, 2).unwrap();
    assert_eq!(plic.claim(0), None);
    plic.store(PLIC_BASE + 0x20_0000, 32, 1).unwrap();
    assert_eq!(plic.claim(0), Some(6));
}

#[test]
fn plic_claim_writes_claim_register() {
    let mut plic = Plic::new();
    plic.add_irq(10);
    plic.store(PLIC_BASE + 4 * 10, 32, 1).unwrap();
    plic.set_pending(10);
    plic.store(PLIC_BASE + 0x2000 + 0x80, 32, 1 << 10).unwrap();
    assert_eq!(plic.claim(1), Some(10));
    assert_eq!(plic.load(PLIC_BASE + 0x20_0004 + 0x1000, 32).unwrap(), 10);
    // the pending bit was cleared atomically with the claim
    assert!(!plic.get_source_pending(10));
}

#[test]
fn plic_raw_window_round_trip() {
    let mut plic = Plic::new();
    plic.store(PLIC_BASE + 0x100, 64, 0x1122_3344_5566_7788).unwrap();
    assert_eq!(plic.load(PLIC_BASE + 0x100, 64).unwrap(), 0x1122_3344_5566_7788);
    assert_eq!(plic.load(PLIC_BASE + 0x104, 32).unwrap(), 0x1122_3344);
    assert!(matches!(
        plic.load(PLIC_BASE + 0x100, 12),
        Err(Exception::LoadAccessFault(_))
    ));
}

#[test]
fn timer_rebase_read_back() {
    let mut timer = Timer::new(10_000_000);
    timer.rebase(5_000);
    let v = timer.get();
    // within a generous second of host time
    assert!(v >= 5_000);
    assert!(v < 5_000 + 10_000_000);
}

#[test]
fn clint_mtimecmp_and_msip_round_trip() {
    let mut clint = Clint::new(10_000_000);
    let now = 123u64;
    // zero the derived mtime (its baseline is wall clock at construction)
    clint.store(CLINT_BASE + 0xbffc, 0, now).unwrap();
    clint.store(CLINT_BASE + 0xbff8, 0, now).unwrap();
    clint
        .store(CLINT_BASE + 0x4000, 0x1122_3344, now)
        .unwrap();
    clint
        .store(CLINT_BASE + 0x4004, 0x5566_7788, now)
        .unwrap();
    assert_eq!(
        clint.load(CLINT_BASE + 0x4000, now).unwrap(),
        0x5566_7788_1122_3344
    );
    clint.store(CLINT_BASE, 7, now).unwrap();
    assert_eq!(clint.load(CLINT_BASE, now).unwrap(), 7);
    let (mti, msi) = clint.check_interrupts(0, now);
    assert!(msi);
    assert!(!mti);
}

#[test]
fn clint_mtime_write_observed_by_read() {
    let mut clint = Clint::new(10_000_000);
    let now = 1_000_000u64;
    clint.store(CLINT_BASE + 0xbff8, 0x4444_3333, now).unwrap();
    clint.store(CLINT_BASE + 0xbffc, 0x1111_2222, now).unwrap();
    assert_eq!(clint.load(CLINT_BASE + 0xbff8, now).unwrap(), 0x4444_3333);
    assert_eq!(clint.load(CLINT_BASE + 0xbffc, now).unwrap(), 0x1111_2222);
    // the timer keeps counting from the written value
    assert_eq!(
        clint.load(CLINT_BASE + 0xbff8, now + 5).unwrap(),
        0x4444_3338
    );
}

#[test]
fn clint_out_of_window_faults() {
    let mut clint = Clint::new(1);
    let bad = CLINT_BASE + 0xc000;
    assert!(matches!(
        clint.load(bad, 0),
        Err(Exception::LoadAccessFault(a)) if a == bad
    ));
    assert!(matches!(
        clint.store(bad, 1, 0),
        Err(Exception::StoreAMOAccessFault(a)) if a == bad
    ));
}

#[test]
fn uart_input_raises_pending_and_reads_back() {
    let mut cpu = Cpu::new(Vec::new());
    cpu.step(Some(b'A'));
    // LSR has data-ready and transmitter-empty set
    let lsr = cpu.load(UART_BASE + 5, 8, 0).unwrap();
    assert_eq!(lsr & 1, 1);
    assert_eq!(lsr & 0x20, 0x20);
    // the PLIC pending bit for the UART source is up
    assert!(cpu.bus.plic.get_source_pending(10));
    // reading RHR consumes the byte and clears data-ready
    assert_eq!(cpu.load(UART_BASE, 8, 0).unwrap(), b'A' as u64);
    let lsr2 = cpu.load(UART_BASE + 5, 8, 0).unwrap();
    assert_eq!(lsr2 & 1, 0);
    // a second read finds the receiver empty
    assert!(matches!(
        cpu.load(UART_BASE, 8, 0),
        Err(Exception::LoadAccessFault(_))
    ));
}

#[test]
fn uart_scratch_register_round_trip() {
    let mut cpu = Cpu::new(Vec::new());
    cpu.store(UART_BASE + 7, 8, 0x15A, 0).unwrap();
    assert_eq!(cpu.load(UART_BASE + 7, 8, 0).unwrap(), 0x5A);
}

#[test]
fn bus_unmapped_address_faults() {
    let mut cpu = Cpu::new(Vec::new());
    assert!(matches!(
        cpu.load(0x4000, 32, 0),
        Err(Exception::LoadAccessFault(a)) if a == 0x4000
    ));
    assert!(matches!(
        cpu.store(0x4000, 32, 1, 0),
        Err(Exception::StoreAMOAccessFault(a)) if a == 0x4000
    ));
}

#[test]
fn csr_file_returns_last_written() {
    let mut cpu = Cpu::new(Vec::new());
    assert_eq!(cpu.csr.load(0x340), 0);
    cpu.csr.store(0x340, 0xABCD);
    assert_eq!(cpu.csr.load(0x340), 0xABCD);
    cpu.csr.store(0x340, 1);
    assert_eq!(cpu.csr.load(0x340), 1);
}
