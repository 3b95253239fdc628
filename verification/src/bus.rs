//! The memory-mapped bus: every access is dispatched by half-open range
//! containment to exactly one of CLINT, PLIC, UART or DRAM, and an address
//! belonging to no region faults.

use vstd::prelude::*;

use crate::address::{
    CLINT_BASE, CLINT_SIZE, DRAM_BASE, DRAM_SIZE, PLIC_BASE, PLIC_SIZE, UART_BASE, UART_SIZE,
};
use crate::clint::{Clint, MSIP_BASE, MTIME_END};
use crate::dram::Dram;
use crate::exception::Exception;
use crate::plic::Plic;
use crate::uart::{set_pending_rel_holds, UART, UART_IRQ};

verus! {

/// Whether `addr` falls in the CLINT window.
pub open spec fn in_clint(addr: u64) -> bool {
    CLINT_BASE <= addr && addr < CLINT_BASE + CLINT_SIZE
}

/// Whether `addr` falls in the PLIC window.
pub open spec fn in_plic(addr: u64) -> bool {
    PLIC_BASE <= addr && addr < PLIC_BASE + PLIC_SIZE
}

/// Whether `addr` falls in the UART window.
pub open spec fn in_uart(addr: u64) -> bool {
    UART_BASE <= addr && addr < UART_BASE + UART_SIZE
}

/// Whether `addr` falls in the DRAM window.
pub open spec fn in_dram(addr: u64) -> bool {
    DRAM_BASE <= addr && addr < DRAM_BASE + DRAM_SIZE
}

pub struct Bus {
    pub dram: Dram,
    pub plic: Plic,
    pub uart: UART,
    pub clint: Clint,
}

impl Bus {
    pub open spec fn wf(&self) -> bool {
        &&& self.dram.wf()
        &&& self.plic.wf()
        &&& self.uart.wf()
        &&& self.clint.wf()
    }

    /// A bus over a fresh machine: the binary at the bottom of DRAM, all
    /// registers zero but for the UART's `THRE` bit, and the UART source
    /// registered with the PLIC.
    pub fn new(timer_freq: u64, binary: Vec<u8>) -> (r: Bus)
        requires
            timer_freq > 0,
            binary@.len() <= DRAM_SIZE,
        ensures
            r.wf(),
            r.clint.freq() == timer_freq,
            forall|k: int|
                0 <= k < DRAM_SIZE ==> r.dram@[k] == (if k < binary@.len() {
                    binary@[k]
                } else {
                    0u8
                }),
            forall|k: int| 0 <= k < PLIC_SIZE ==> r.plic@[k] == 0u8,
            r.plic.irqs() == Seq::<u64>::empty().push(UART_IRQ),
            r.uart.rx() == None::<u8>,
            forall|k: int|
                0 <= k < UART_SIZE ==> r.uart.window()[k] == (if k == crate::uart::LSR
                    - UART_BASE {
                    crate::uart::LSR_THR_EMPTY
                } else {
                    0u8
                }),
            forall|h: int| 0 <= h < crate::clint::MAX_MSIP ==> r.clint.msip()[h] == 0u32,
            forall|h: int| 0 <= h < crate::clint::MAX_MTIMECMP ==> r.clint.mtimecmp()[h] == 0u64,
    {
        let mut plic = Plic::new();
        let uart = UART::new(&mut plic);
        Bus { dram: Dram::new(binary), plic, uart, clint: Clint::new(timer_freq) }
    }

    /// The value `load` returns: each address is answered by the one
    /// device owning it, and an address outside every region faults.
    pub open spec fn spec_load_result(&self, addr: u64, size: u64, now: u64) -> Result<
        u64,
        Exception,
    > {
        if in_clint(addr) {
            self.clint.spec_load(addr, now)
        } else if in_plic(addr) {
            self.plic.spec_load(addr, size)
        } else if in_uart(addr) {
            self.uart.spec_load_result(addr, size)
        } else if in_dram(addr) {
            self.dram.spec_load(addr, size)
        } else {
            Err(Exception::LoadAccessFault(addr))
        }
    }

    /// What `load` does to the bus: only a UART read mutates anything.
    pub open spec fn load_state_rel(pre: Bus, addr: u64, size: u64, post: Bus) -> bool {
        if in_uart(addr) {
            &&& post.dram == pre.dram
            &&& post.plic == pre.plic
            &&& post.clint == pre.clint
            &&& UART::load_state_rel(pre.uart, addr, size, post.uart)
        } else {
            post == pre
        }
    }

    pub fn load(&mut self, addr: u64, size: u64, now: u64) -> (r: Result<u64, Exception>)
        requires
            old(self).wf(),
        ensures
            final(self).wf(),
            r == old(self).spec_load_result(addr, size, now),
            Self::load_state_rel(*old(self), addr, size, *final(self)),
    {
        if CLINT_BASE <= addr && addr < CLINT_BASE + CLINT_SIZE {
            return self.clint.load(addr, now);
        }
        if PLIC_BASE <= addr && addr < PLIC_BASE + PLIC_SIZE {
            return self.plic.load(addr, size);
        }
        if UART_BASE <= addr && addr < UART_BASE + UART_SIZE {
            return self.uart.load(addr, size);
        }
        if DRAM_BASE <= addr && addr < DRAM_BASE + DRAM_SIZE {
            return self.dram.load(addr, size);
        }
        Err(Exception::LoadAccessFault(addr))
    }

    /// The result `store` returns: the CLINT and UART registers have fixed
    /// widths and so ignore the access width; an address outside every
    /// region faults.
    pub open spec fn spec_store_result(&self, addr: u64, size: u64, value: u64) -> Result<
        (),
        Exception,
    > {
        if in_clint(addr) {
            if MSIP_BASE <= addr && addr < MTIME_END {
                Ok(())
            } else {
                Err(Exception::StoreAMOAccessFault(addr))
            }
        } else if in_plic(addr) {
            self.plic.spec_store(addr, size, value).1
        } else if in_uart(addr) {
            Ok(())
        } else if in_dram(addr) {
            self.dram.spec_store(addr, size, value).1
        } else {
            Err(Exception::StoreAMOAccessFault(addr))
        }
    }

    /// What `store` does to the bus: the one addressed device changes as
    /// its own store relation says, everything else stays.
    pub open spec fn store_state_rel(
        pre: Bus,
        addr: u64,
        size: u64,
        value: u64,
        now: u64,
        post: Bus,
    ) -> bool {
        if in_clint(addr) {
            &&& post.dram == pre.dram
            &&& post.plic == pre.plic
            &&& post.uart == pre.uart
            &&& Clint::store_rel(
                pre.clint,
                addr,
                value,
                now,
                post.clint,
                pre.spec_store_result(addr, size, value),
            )
        } else if in_plic(addr) {
            &&& post.dram == pre.dram
            &&& post.uart == pre.uart
            &&& post.clint == pre.clint
            &&& post.plic.irqs() == pre.plic.irqs()
            &&& post.plic@ == pre.plic.spec_store(addr, size, value).0
        } else if in_uart(addr) {
            &&& post.dram == pre.dram
            &&& post.plic == pre.plic
            &&& post.clint == pre.clint
            &&& UART::store_rel(pre.uart, addr, value, post.uart)
        } else if in_dram(addr) {
            &&& post.plic == pre.plic
            &&& post.uart == pre.uart
            &&& post.clint == pre.clint
            &&& post.dram@ == pre.dram.spec_store(addr, size, value).0
        } else {
            post == pre
        }
    }

    pub fn store(&mut self, addr: u64, size: u64, value: u64, now: u64) -> (r: Result<
        (),
        Exception,
    >)
        requires
            old(self).wf(),
        ensures
            final(self).wf(),
            r == old(self).spec_store_result(addr, size, value),
            Self::store_state_rel(*old(self), addr, size, value, now, *final(self)),
    {
        if CLINT_BASE <= addr && addr < CLINT_BASE + CLINT_SIZE {
            return self.clint.store(addr, value, now);
        }
        if PLIC_BASE <= addr && addr < PLIC_BASE + PLIC_SIZE {
            return self.plic.store(addr, size, value);
        }
        if UART_BASE <= addr && addr < UART_BASE + UART_SIZE {
            return self.uart.store(addr, value);
        }
        if DRAM_BASE <= addr && addr < DRAM_BASE + DRAM_SIZE {
            return self.dram.store(addr, size, value);
        }
        Err(Exception::StoreAMOAccessFault(addr))
    }

    /// The per-step UART poll: hand the host's input byte, if any, to the
    /// UART, which latches it and marks its PLIC source pending.
    pub fn poll_uart(&mut self, input: Option<u8>)
        requires
            old(self).wf(),
        ensures
            final(self).wf(),
            final(self).dram == old(self).dram,
            final(self).clint == old(self).clint,
            final(self).plic.irqs() == old(self).plic.irqs(),
            set_pending_rel_holds(old(self).plic@, input, final(self).plic@),
            UART::poll_rel(old(self).uart, input, final(self).uart),
    {
        self.uart.check_interrupt(&mut self.plic, input);
    }
}

} // verus!
