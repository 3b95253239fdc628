//! Platform-level interrupt controller: a byte-addressable register bank
//! holding source priorities, the pending bitmap, per-context enable bitmaps
//! and thresholds, plus the claim/completion protocol that arbitrates
//! external interrupts.
//!
//! Layout (offsets from `PLIC_BASE`, 32-bit little-endian registers):
//! source priority at `4 * irq`; pending bitmap at `0x1000`; enable bitmap
//! for a context at `0x2000 + 0x80 * context`; priority threshold at
//! `0x20_0000 + 0x1000 * context`; claim/completion at
//! `0x20_0004 + 0x1000 * context`.

use vstd::prelude::*;

use crate::address::{PLIC_BASE, PLIC_SIZE};
use crate::dram::{byte_of, le_load, le_store, valid_size};
use crate::exception::Exception;

verus! {

/// Source priorities live in the first `0x1000` bytes, four per source, so
/// source numbers run from 0 to `MAX_IRQ - 1`.
pub const MAX_IRQ: u64 = 1024;

/// Full address of the source-priority array.
pub const INTERRUPT_PRIORITY: u64 = PLIC_BASE;
/// Full address of the pending bitmap.
pub const INTERRUPT_PENDING: u64 = PLIC_BASE + 0x1000;
/// Full address of the enable bitmaps (one 0x80-byte block per context).
pub const INTERRUPT_ENABLES: u64 = PLIC_BASE + 0x2000;
/// Full address of the priority thresholds (one 0x1000-byte block per context).
pub const PRIORITY_THRESHOLD: u64 = PLIC_BASE + 0x20_0000;
/// Full address of the claim/completion registers.
pub const INTERRUPT_CLAIM: u64 = PLIC_BASE + 0x20_0004;

/// The two interrupt contexts of the single modeled hart: machine and
/// supervisor.
pub const NUM_CONTEXTS: u64 = 2;

/// Priority of source `irq`, read little-endian from the register bank.
pub open spec fn prio_of(s: Seq<u8>, irq: u64) -> u64 {
    le_load(s, 4 * irq, 4)
}

/// Index of the pending-bitmap byte holding source `irq`.
pub open spec fn pending_index(irq: u64) -> int {
    0x1000 + irq / 8
}

/// Whether source `irq` is pending.
pub open spec fn pending_src(s: Seq<u8>, irq: u64) -> bool {
    (s[pending_index(irq)] >> (irq % 8) as u8) & 1 == 1
}

/// Whether source `irq` is enabled for `context`.
pub open spec fn enabled_src(s: Seq<u8>, context: u64, irq: u64) -> bool {
    (s[0x2000 + 0x80 * context + irq / 8] >> (irq % 8) as u8) & 1 == 1
}

/// Priority threshold of `context`.
pub open spec fn threshold_of(s: Seq<u8>, context: u64) -> u64 {
    le_load(s, 0x20_0000 + 0x1000 * context, 4)
}

/// Offset of the claim/completion register of `context`.
pub open spec fn claim_offset(context: u64) -> int {
    0x20_0004 + 0x1000 * context
}

/// Whether source `irq` can be claimed by `context`: pending, enabled, and
/// of priority strictly above the context's threshold.
pub open spec fn claimable(s: Seq<u8>, context: u64, irq: u64) -> bool {
    pending_src(s, irq) && enabled_src(s, context, irq) && prio_of(s, irq) > threshold_of(
        s,
        context,
    )
}

/// The arbitration order: `a` wins over `b` when its source priority is
/// strictly higher, or equal with the lower source number.
pub open spec fn beats(s: Seq<u8>, a: u64, b: u64) -> bool {
    prio_of(s, a) > prio_of(s, b) || (prio_of(s, a) == prio_of(s, b) && a < b)
}

/// The register bank with the pending bit of `irq` cleared.
pub open spec fn clear_pending_seq(s: Seq<u8>, irq: u64) -> Seq<u8> {
    s.update(pending_index(irq), s[pending_index(irq)] & !(1u8 << (irq % 8) as u8))
}

/// The register bank with the pending bit of `irq` set.
pub open spec fn set_pending_seq(s: Seq<u8>, irq: u64) -> Seq<u8> {
    s.update(pending_index(irq), s[pending_index(irq)] | (1u8 << (irq % 8) as u8))
}

pub struct Plic {
    plic: Vec<u8>,
    peripherals_irq: Vec<u64>,
}

impl Plic {
    /// The register bank as a sequence of `PLIC_SIZE` bytes.
    pub closed spec fn view(&self) -> Seq<u8> {
        self.plic@
    }

    /// The registered peripheral sources, in registration order.
    pub closed spec fn irqs(&self) -> Seq<u64> {
        self.peripherals_irq@
    }

    pub open spec fn wf(&self) -> bool {
        &&& self@.len() == PLIC_SIZE
        &&& forall|t: int| 0 <= t < self.irqs().len() ==> self.irqs()[t] < MAX_IRQ
    }

    pub fn new() -> (r: Plic)
        ensures
            r.wf(),
            r@ == Seq::new(PLIC_SIZE as nat, |i: int| 0u8),
            r.irqs() == Seq::<u64>::empty(),
    {
        let mut plic: Vec<u8> = Vec::new();
        plic.resize(PLIC_SIZE as usize, 0u8);
        let peripherals_irq: Vec<u64> = Vec::new();
        proof {
            assert(plic@ =~= Seq::new(PLIC_SIZE as nat, |i: int| 0u8));
            assert(peripherals_irq@ =~= Seq::<u64>::empty());
        }
        Plic { plic, peripherals_irq }
    }

    /// Register `irq` as a candidate peripheral source.
    pub fn add_irq(&mut self, irq: u64)
        requires
            old(self).wf(),
            irq < MAX_IRQ,
        ensures
            final(self).wf(),
            final(self)@ == old(self)@,
            final(self).irqs() == old(self).irqs().push(irq),
    {
        self.peripherals_irq.push(irq);
        proof {
            assert forall|t: int| 0 <= t < self.irqs().len() implies self.irqs()[t]
                < MAX_IRQ by {
                if t < old(self).irqs().len() {
                    assert(self.irqs()[t] == old(self).irqs()[t]);
                } else {
                    assert(self.irqs()[t] == irq);
                }
            }
        }
    }

    /// Set the pending bit of `irq`.
    pub fn set_pending(&mut self, irq: u64)
        requires
            old(self).wf(),
            irq < MAX_IRQ,
        ensures
            final(self).wf(),
            final(self)@ == set_pending_seq(old(self)@, irq),
            final(self).irqs() == old(self).irqs(),
    {
        let index: usize = (0x1000 + irq / 8) as usize;
        let offset: u8 = (irq % 8) as u8;
        self.plic[index] = self.plic[index] | (1u8 << offset);
        proof {
            assert forall|t: int| 0 <= t < self.irqs().len() implies self.irqs()[t]
                < MAX_IRQ by {
                assert(self.irqs()[t] == old(self).irqs()[t]);
            }
        }
    }

    /// Clear the pending bit of `irq`.
    pub fn clear_pending(&mut self, irq: u64)
        requires
            old(self).wf(),
            irq < MAX_IRQ,
        ensures
            final(self).wf(),
            final(self)@ == clear_pending_seq(old(self)@, irq),
            final(self).irqs() == old(self).irqs(),
    {
        let index: usize = (0x1000 + irq / 8) as usize;
        let offset: u8 = (irq % 8) as u8;
        self.plic[index] = self.plic[index] & !(1u8 << offset);
        proof {
            assert forall|t: int| 0 <= t < self.irqs().len() implies self.irqs()[t]
                < MAX_IRQ by {
                assert(self.irqs()[t] == old(self).irqs()[t]);
            }
        }
    }

    /// Source priority of `irq`.
    pub fn get_source_priority(&self, irq: u64) -> (r: u64)
        requires
            self.wf(),
            irq < MAX_IRQ,
        ensures
            r == prio_of(self@, irq),
    {
        let r = self.load(INTERRUPT_PRIORITY + 4 * irq, 32);
        match r {
            Ok(v) => v,
            Err(_) => unreached(),
        }
    }

    /// Whether the pending bit of `irq` is set.
    pub fn get_source_pending(&self, irq: u64) -> (r: bool)
        requires
            self.wf(),
            irq < MAX_IRQ,
        ensures
            r == pending_src(self@, irq),
    {
        let index: usize = (0x1000 + irq / 8) as usize;
        let offset: u8 = (irq % 8) as u8;
        (self.plic[index] >> offset) & 1 == 1
    }

    /// Whether `irq` is enabled for `context`.
    pub fn get_source_enable(&self, irq: u64, context: u64) -> (r: bool)
        requires
            self.wf(),
            irq < MAX_IRQ,
            context < NUM_CONTEXTS,
        ensures
            r == enabled_src(self@, context, irq),
    {
        let index: usize = (0x2000 + 0x80 * context + irq / 8) as usize;
        let offset: u8 = (irq % 8) as u8;
        (self.plic[index] >> offset) & 1 == 1
    }

    /// Priority threshold of `context`.
    pub fn get_hart_priority(&self, context: u64) -> (r: u64)
        requires
            self.wf(),
            context < NUM_CONTEXTS,
        ensures
            r == threshold_of(self@, context),
    {
        let r = self.load(PRIORITY_THRESHOLD + 0x1000 * context, 32);
        match r {
            Ok(v) => v,
            Err(_) => unreached(),
        }
    }

    /// Arbitrate for `context` without mutating: the winning source among
    /// the registered ones that are pending, enabled, and above the
    /// threshold — strictly higher priority first, lower source number on
    /// ties.
    pub fn check_pending(&self, context: u64) -> (r: Option<u64>)
        requires
            self.wf(),
            context < NUM_CONTEXTS,
        ensures
            match r {
                Some(irq) => {
                    &&& self.irqs().contains(irq)
                    &&& claimable(self@, context, irq)
                    &&& forall|j: u64|
                        self.irqs().contains(j) && claimable(self@, context, j) && j != irq
                            ==> beats(self@, irq, j)
                },
                None => forall|j: u64|
                    !(self.irqs().contains(j) && claimable(self@, context, j)),
            },
    {
        let threshold = self.get_hart_priority(context);
        let mut best: Option<u64> = None;
        let mut k: usize = 0;
        while k < self.peripherals_irq.len()
            invariant
                self.wf(),
                context < NUM_CONTEXTS,
                threshold == threshold_of(self@, context),
                k <= self.irqs().len(),
                match best {
                    Some(b) => {
                        &&& exists|t: int| 0 <= t < k && self.irqs()[t] == b
                        &&& claimable(self@, context, b)
                        &&& forall|t: int|
                            0 <= t < k && #[trigger] self.irqs()[t] != b && claimable(
                                self@,
                                context,
                                self.irqs()[t],
                            ) ==> beats(self@, b, self.irqs()[t])
                    },
                    None => forall|t: int|
                        0 <= t < k ==> !claimable(self@, context, #[trigger] self.irqs()[t]),
                },
            decreases self.irqs().len() - k,
        {
            let irq = self.peripherals_irq[k];
            if self.get_source_pending(irq) && self.get_source_enable(irq, context)
                && self.get_source_priority(irq) > threshold {
                match best {
                    None => {
                        best = Some(irq);
                    },
                    Some(b) => {
                        let pi = self.get_source_priority(irq);
                        let pb = self.get_source_priority(b);
                        if pi > pb || (pi == pb && irq < b) {
                            best = Some(irq);
                        }
                    },
                }
            }
            k = k + 1;
        }
        proof {
            if let Some(b) = best {
                assert forall|j: u64|
                    self.irqs().contains(j) && claimable(self@, context, j) && j != b implies beats(
                    self@,
                    b,
                    j,
                ) by {
                    let t = choose|t: int| 0 <= t < self.irqs().len() && self.irqs()[t] == j;
                    assert(self.irqs()[t] != b);
                }
            } else {
                assert forall|j: u64| !(self.irqs().contains(j) && claimable(self@, context, j)) by {
                    if self.irqs().contains(j) {
                        let t = choose|t: int|
                            0 <= t < self.irqs().len() && self.irqs()[t] == j;
                        assert(!claimable(self@, context, self.irqs()[t]));
                    }
                }
            }
        }
        best
    }

    /// What `claim` does: a returned source was the winner of the
    /// arbitration (pending, enabled, above the threshold, and beating
    /// every other such source on priority then source number), its
    /// pending bit is cleared and it is recorded in the context's claim
    /// register; no return means no source was claimable, and nothing
    /// changed.
    pub open spec fn claim_rel(pre: Plic, context: u64, post: Plic, r: Option<u64>) -> bool {
        &&& post.irqs() == pre.irqs()
        &&& match r {
            Some(irq) => {
                &&& pre.irqs().contains(irq)
                &&& claimable(pre@, context, irq)
                &&& forall|j: u64|
                    pre.irqs().contains(j) && claimable(pre@, context, j) && j != irq ==> beats(
                        pre@,
                        irq,
                        j,
                    )
                &&& post@ == le_store(
                    clear_pending_seq(pre@, irq),
                    claim_offset(context),
                    4,
                    irq,
                )
            },
            None => {
                &&& forall|j: u64| !(pre.irqs().contains(j) && claimable(pre@, context, j))
                &&& post@ == pre@
            },
        }
    }

    /// Claim for `context`: select the winning source as `check_pending`
    /// does, then atomically clear its pending bit and record it in the
    /// context's claim register.
    pub fn claim(&mut self, context: u64) -> (r: Option<u64>)
        requires
            old(self).wf(),
            context < NUM_CONTEXTS,
        ensures
            final(self).wf(),
            Self::claim_rel(*old(self), context, *final(self), r),
    {
        match self.check_pending(context) {
            Some(irq) => {
                proof {
                    let t = choose|t: int|
                        0 <= t < self.irqs().len() && self.irqs()[t] == irq;
                }
                self.clear_pending(irq);
                let claim_addr = INTERRUPT_CLAIM + 0x1000 * context;
                let sr = self.store(claim_addr, 32, irq);
                proof {
                    assert(sr is Ok);
                }
                Some(irq)
            },
            None => None,
        }
    }

    /// Completion for the claim/completion protocol: the register write
    /// itself arrives through `store`, and this subset keeps no further
    /// per-claim state, so there is nothing left to record.
    pub fn completion(&mut self, irq: u64)
        requires
            old(self).wf(),
        ensures
            final(self).wf(),
            final(self)@ == old(self)@,
            final(self).irqs() == old(self).irqs(),
    {
    }

    /// The value `load` returns, as a function of the state.
    pub open spec fn spec_load(&self, addr: u64, size: u64) -> Result<u64, Exception> {
        if valid_size(size) && addr - PLIC_BASE + size / 8 <= PLIC_SIZE {
            Ok(le_load(self@, addr - PLIC_BASE, size as int / 8))
        } else {
            Err(Exception::LoadAccessFault(addr))
        }
    }

    /// The register bank after a `store` and the result it returns.
    pub open spec fn spec_store(&self, addr: u64, size: u64, value: u64) -> (Seq<u8>, Result<
        (),
        Exception,
    >) {
        if valid_size(size) && addr - PLIC_BASE + size / 8 <= PLIC_SIZE {
            (le_store(self@, addr - PLIC_BASE, size as int / 8, value), Ok(()))
        } else {
            (self@, Err(Exception::StoreAMOAccessFault(addr)))
        }
    }

    /// Raw little-endian load from the register bank, with the same width
    /// and range rules as the backing store.
    pub fn load(&self, addr: u64, size: u64) -> (r: Result<u64, Exception>)
        requires
            self.wf(),
            PLIC_BASE <= addr && addr - PLIC_BASE < PLIC_SIZE,
        ensures
            r == self.spec_load(addr, size),
    {
        if !(size == 8 || size == 16 || size == 32 || size == 64) {
            return Err(Exception::LoadAccessFault(addr));
        }
        let nbytes: u64 = size / 8;
        let index: usize = (addr - PLIC_BASE) as usize;
        if !(index as u64 + nbytes <= PLIC_SIZE) {
            return Err(Exception::LoadAccessFault(addr));
        }
        let mut value: u64 = 0;
        let mut i: u64 = 0;
        while i < nbytes
            invariant
                self.wf(),
                i <= nbytes,
                nbytes <= 8,
                index + nbytes <= PLIC_SIZE,
                value == le_load(self@, index as int, i as int),
            decreases nbytes - i,
        {
            value = value | ((self.plic[index + i as usize] as u64) << (i * 8));
            i = i + 1;
        }
        Ok(value)
    }

    /// Raw little-endian store to the register bank.
    pub fn store(&mut self, addr: u64, size: u64, value: u64) -> (r: Result<(), Exception>)
        requires
            old(self).wf(),
            PLIC_BASE <= addr && addr - PLIC_BASE < PLIC_SIZE,
        ensures
            final(self).wf(),
            final(self).irqs() == old(self).irqs(),
            final(self)@ == old(self).spec_store(addr, size, value).0,
            r == old(self).spec_store(addr, size, value).1,
    {
        if !(size == 8 || size == 16 || size == 32 || size == 64) {
            return Err(Exception::StoreAMOAccessFault(addr));
        }
        let nbytes: u64 = size / 8;
        let index: usize = (addr - PLIC_BASE) as usize;
        if !(index as u64 + nbytes <= PLIC_SIZE) {
            return Err(Exception::StoreAMOAccessFault(addr));
        }
        let mut i: u64 = 0;
        while i < nbytes
            invariant
                self@.len() == PLIC_SIZE,
                self.irqs() == old(self).irqs(),
                forall|t: int| 0 <= t < self.irqs().len() ==> self.irqs()[t] < MAX_IRQ,
                i <= nbytes,
                nbytes <= 8,
                index + nbytes <= PLIC_SIZE,
                forall|k: int|
                    0 <= k < PLIC_SIZE ==> self@[k] == (if index <= k < index + i {
                        byte_of(value, k - index)
                    } else {
                        old(self)@[k]
                    }),
            decreases nbytes - i,
        {
            proof {
                crate::dram::lemma_byte_of_fits(value, i as int);
            }
            self.plic[index + i as usize] = ((value >> (i * 8)) & 0xff) as u8;
            i = i + 1;
        }
        proof {
            assert(self@ =~= le_store(old(self)@, addr - PLIC_BASE, size as int / 8, value));
        }
        Ok(())
    }
}

} // verus!
