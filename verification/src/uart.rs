//! Minimal 8250-style UART: a 256-byte MMIO window, a one-byte receiver
//! holding register, and the line-status bits `DR` (receiver has data) and
//! `THRE` (transmitter ready, held permanently set).
//!
//! The host polls console input once per hart step and hands any byte in as
//! a plain value; a fresh byte replaces an unread one, as a receiver overrun
//! would. Transmitted bytes go to host standard output behind the one
//! trusted write.

use std::io::Write;

use vstd::prelude::*;

use crate::address::{UART_BASE, UART_SIZE};
use crate::exception::Exception;
use crate::plic::{set_pending_seq, Plic};

verus! {

/// The PLIC source number of the UART.
pub const UART_IRQ: u64 = 10;

/// Receiver holding register (read side of offset 0).
pub const RHR: u64 = UART_BASE;
/// Transmitter holding register (write side of offset 0).
pub const THR: u64 = UART_BASE;
/// Line status register.
pub const LSR: u64 = UART_BASE + 0b101;

/// `LSR` bit: receiver has data.
pub const LSR_DATA_READY: u8 = 1;
/// `LSR` bit: transmitter ready.
pub const LSR_THR_EMPTY: u8 = 1 << 5;

/// Relies on `std::io::Stdout::write_all` and `std::io::Stdout::flush`:
/// emits one byte to host standard output immediately. Only the host
/// terminal is affected; errors on the host side are ignored, as a real
/// transmitter has no one to report them to.
#[verifier::external_body]
fn emit_byte(b: u8) {
    let mut out = std::io::stdout();
    let _ = out.write_all(&[b]);
    let _ = out.flush();
}

/// What the per-step poll does to the PLIC's register bank: a byte handed
/// in marks the UART source pending; no byte changes nothing.
pub open spec fn set_pending_rel_holds(pre: Seq<u8>, input: Option<u8>, post: Seq<u8>) -> bool {
    match input {
        Some(_) => post == set_pending_seq(pre, UART_IRQ),
        None => post == pre,
    }
}

pub struct UART {
    uart: Vec<u8>,
    rx: Option<u8>,
}

impl UART {
    /// The MMIO window as a sequence of `UART_SIZE` bytes.
    pub closed spec fn window(&self) -> Seq<u8> {
        self.uart@
    }

    /// The byte sitting in the receiver holding register, if any.
    pub closed spec fn rx(&self) -> Option<u8> {
        self.rx
    }

    pub open spec fn wf(&self) -> bool {
        self.window().len() == UART_SIZE
    }

    /// A fresh UART: window zeroed but for the permanently set `THRE` bit,
    /// receiver empty, and its interrupt source registered with the PLIC.
    pub fn new(plic: &mut Plic) -> (r: UART)
        requires
            old(plic).wf(),
        ensures
            r.wf(),
            r.rx() == None::<u8>,
            forall|k: int|
                0 <= k < UART_SIZE ==> r.window()[k] == (if k == LSR - UART_BASE {
                    LSR_THR_EMPTY
                } else {
                    0u8
                }),
            final(plic).wf(),
            final(plic)@ == old(plic)@,
            final(plic).irqs() == old(plic).irqs().push(UART_IRQ),
    {
        let mut uart: Vec<u8> = Vec::new();
        uart.resize(UART_SIZE as usize, 0u8);
        let lsr_index: usize = (LSR - UART_BASE) as usize;
        uart[lsr_index] = LSR_THR_EMPTY;
        plic.add_irq(UART_IRQ);
        UART { uart, rx: None }
    }

    /// What the per-step poll does to the UART itself: a byte handed in is
    /// latched in the receiver and raises `LSR.DR`; no byte changes
    /// nothing.
    pub open spec fn poll_rel(pre: UART, input: Option<u8>, post: UART) -> bool {
        match input {
            Some(b) => {
                &&& post.rx() == Some(b)
                &&& post.window() == pre.window().update(
                    LSR - UART_BASE,
                    pre.window()[LSR - UART_BASE] | LSR_DATA_READY,
                )
            },
            None => {
                &&& post.rx() == pre.rx()
                &&& post.window() == pre.window()
            },
        }
    }

    /// The per-step hook: when the host hands a byte in, latch it in the
    /// receiver, raise `LSR.DR`, and mark the UART source pending in the
    /// PLIC; when it hands none, change nothing.
    pub fn check_interrupt(&mut self, plic: &mut Plic, input: Option<u8>)
        requires
            old(self).wf(),
            old(plic).wf(),
        ensures
            final(self).wf(),
            final(plic).wf(),
            final(plic).irqs() == old(plic).irqs(),
            Self::poll_rel(*old(self), input, *final(self)),
            set_pending_rel_holds(old(plic)@, input, final(plic)@),
    {
        if let Some(b) = input {
            self.rx = Some(b);
            let lsr_index: usize = (LSR - UART_BASE) as usize;
            self.uart[lsr_index] = self.uart[lsr_index] | LSR_DATA_READY;
            plic.set_pending(UART_IRQ);
        }
    }

    /// The value `load` returns: only byte-wide reads are legal; a read of
    /// `RHR` yields the latched byte, faulting when the receiver is empty;
    /// any other offset reads the window byte.
    pub open spec fn spec_load_result(&self, addr: u64, size: u64) -> Result<u64, Exception> {
        if size != 8 {
            Err(Exception::LoadAccessFault(addr))
        } else if addr == RHR {
            match self.rx() {
                Some(b) => Ok(b as u64),
                None => Err(Exception::LoadAccessFault(addr)),
            }
        } else {
            Ok(self.window()[addr - UART_BASE] as u64)
        }
    }

    /// What `load` does to the UART: a legal read of `RHR` clears `LSR.DR`
    /// and consumes the latched byte; everything else changes nothing.
    pub open spec fn load_state_rel(pre: UART, addr: u64, size: u64, post: UART) -> bool {
        if size == 8 && addr == RHR {
            &&& post.window() == pre.window().update(
                LSR - UART_BASE,
                pre.window()[LSR - UART_BASE] & !LSR_DATA_READY,
            )
            &&& post.rx() == None::<u8>
        } else {
            &&& post.window() == pre.window()
            &&& post.rx() == pre.rx()
        }
    }

    pub fn load(&mut self, addr: u64, size: u64) -> (r: Result<u64, Exception>)
        requires
            old(self).wf(),
            UART_BASE <= addr && addr - UART_BASE < UART_SIZE,
        ensures
            final(self).wf(),
            r == old(self).spec_load_result(addr, size),
            Self::load_state_rel(*old(self), addr, size, *final(self)),
    {
        if size != 8 {
            return Err(Exception::LoadAccessFault(addr));
        }
        if addr == RHR {
            let lsr_index: usize = (LSR - UART_BASE) as usize;
            self.uart[lsr_index] = self.uart[lsr_index] & !LSR_DATA_READY;
            match self.rx {
                Some(b) => {
                    self.rx = None;
                    Ok(b as u64)
                },
                None => {
                    self.rx = None;
                    Err(Exception::LoadAccessFault(addr))
                },
            }
        } else {
            Ok(self.uart[(addr - UART_BASE) as usize] as u64)
        }
    }

    /// What `store` does: a write to `THR` emits the low byte to the host
    /// and leaves the window alone; any other offset takes the low byte
    /// into the window. Stores never fault.
    pub open spec fn store_rel(pre: UART, addr: u64, value: u64, post: UART) -> bool {
        if addr == THR {
            &&& post.window() == pre.window()
            &&& post.rx() == pre.rx()
        } else {
            &&& post.window() == pre.window().update(addr - UART_BASE, (value & 0xff) as u8)
            &&& post.rx() == pre.rx()
        }
    }

    pub fn store(&mut self, addr: u64, value: u64) -> (r: Result<(), Exception>)
        requires
            old(self).wf(),
            UART_BASE <= addr && addr - UART_BASE < UART_SIZE,
        ensures
            final(self).wf(),
            Self::store_rel(*old(self), addr, value, *final(self)),
            r == Ok::<(), Exception>(()),
    {
        if addr == THR {
            emit_byte((value & 0xff) as u8);
        } else {
            self.uart[(addr - UART_BASE) as usize] = (value & 0xff) as u8;
        }
        Ok(())
    }
}

} // verus!
