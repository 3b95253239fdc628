//! The CSR file: a flat mapping from 12-bit CSR numbers to 64-bit values.
//!
//! Access-privilege checks (WARL fields, read-only slots, the shadow fields
//! between `mstatus` and `sstatus`) are deliberately not enforced: writes go
//! through a raw slot, and the trap machinery is responsible for the
//! bit-field semantics. Reads of CSR number `n` always return the last value
//! written to `n`, or zero.

use vstd::prelude::*;

verus! {

/// Number of CSR slots: one per 12-bit CSR address.
pub const NUM_CSRS: u64 = 4096;

pub struct Csr {
    csrs: Vec<u64>,
}

impl Csr {
    /// The file as a sequence of 4096 slot values.
    pub closed spec fn view(&self) -> Seq<u64> {
        self.csrs@
    }

    pub open spec fn wf(&self) -> bool {
        self@.len() == NUM_CSRS
    }

    pub fn new() -> (r: Csr)
        ensures
            r.wf(),
            r@ == Seq::new(NUM_CSRS as nat, |i: int| 0u64),
    {
        let mut csrs: Vec<u64> = Vec::new();
        csrs.resize(NUM_CSRS as usize, 0u64);
        proof {
            assert(csrs@ =~= Seq::new(NUM_CSRS as nat, |i: int| 0u64));
        }
        Csr { csrs }
    }

    pub fn load(&self, addr: u64) -> (r: u64)
        requires
            self.wf(),
            addr < NUM_CSRS,
        ensures
            r == self@[addr as int],
    {
        self.csrs[addr as usize]
    }

    pub fn store(&mut self, addr: u64, value: u64)
        requires
            old(self).wf(),
            addr < NUM_CSRS,
        ensures
            final(self).wf(),
            final(self)@ == old(self)@.update(addr as int, value),
    {
        self.csrs[addr as usize] = value;
    }
}

} // verus!
