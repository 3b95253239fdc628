//! Core of a 64-bit RISC-V machine/supervisor/user-mode emulator: the hart
//! pipeline (fetch, decode, execute), the CSR file, the trap machinery with
//! delegation, the memory-mapped bus, the core-local interruptor (timer and
//! software interrupts), the platform-level interrupt controller, and a
//! minimal 8250-style UART as the canonical MMIO peripheral.
//!
//! The host supplies two things per step: the wall-clock tick count (sampled
//! once, behind a trusted reading of the system clock) and an optional byte of
//! console input. Everything downstream of those two values is verified.

pub mod address;
pub mod bus;
pub mod clint;
pub mod cpu;
pub mod cpu_instruction;
pub mod csr;
pub mod dram;
pub mod exception;
pub mod interrupt;
pub mod laws;
pub mod plic;
pub mod uart;
