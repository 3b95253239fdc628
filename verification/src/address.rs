//! Physical address map of the canonical "virt" platform and the CSR numbers
//! the trap machinery works with.

use vstd::prelude::*;

verus! {

/// Base of the core-local interruptor (timer + software interrupts).
pub const CLINT_BASE: u64 = 0x200_0000;
/// Size of the CLINT window.
pub const CLINT_SIZE: u64 = 0x10000;

/// Base of the platform-level interrupt controller.
pub const PLIC_BASE: u64 = 0xc00_0000;
/// Size of the PLIC window: a 2 MiB register bank plus two 4 KiB contexts
/// (machine and supervisor) for the single modeled hart.
pub const PLIC_SIZE: u64 = 0x200000 + 2 * 0x1000;

/// Base of the UART window.
pub const UART_BASE: u64 = 0x1000_0000;
/// Size of the UART window.
pub const UART_SIZE: u64 = 0x100;

/// Base of the byte-addressable backing store.
pub const DRAM_BASE: u64 = 0x8000_0000;
/// Size of the backing store: 128 MiB.
pub const DRAM_SIZE: u64 = 1024 * 1024 * 128;

// Machine trap setup.
/// Machine status register.
pub const MSTATUS: u64 = 0x300;
/// Machine exception delegation register.
pub const MEDELEG: u64 = 0x302;
/// Machine interrupt delegation register.
pub const MIDELEG: u64 = 0x303;
/// Machine interrupt-enable register.
pub const MIE: u64 = 0x304;
/// Machine trap-handler base address.
pub const MTVEC: u64 = 0x305;

// Machine trap handling.
/// Machine scratch register.
pub const MSCRATCH: u64 = 0x340;
/// Machine exception program counter.
pub const MEPC: u64 = 0x341;
/// Machine trap cause.
pub const MCAUSE: u64 = 0x342;
/// Machine trap value.
pub const MTVAL: u64 = 0x343;
/// Machine interrupt pending.
pub const MIP: u64 = 0x344;

// Supervisor trap setup.
/// Supervisor status register.
pub const SSTATUS: u64 = 0x100;
/// Supervisor interrupt-enable register.
pub const SIE: u64 = 0x104;
/// Supervisor trap handler base address.
pub const STVEC: u64 = 0x105;

// Supervisor trap handling.
/// Supervisor scratch register.
pub const SSCRATCH: u64 = 0x140;
/// Supervisor exception program counter.
pub const SEPC: u64 = 0x141;
/// Supervisor trap cause.
pub const SCAUSE: u64 = 0x142;
/// Supervisor trap value.
pub const STVAL: u64 = 0x143;
/// Supervisor interrupt pending.
pub const SIP: u64 = 0x144;

/// Supervisor address translation and protection (stored, not interpreted:
/// paging is out of scope).
pub const SATP: u64 = 0x180;

} // verus!
