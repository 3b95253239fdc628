//! Core-local interruptor: the `mtime` timer, per-hart `mtimecmp` compare
//! registers and `msip` software-interrupt registers.
//!
//! `mtime` is derived, never stored: it is the host tick count minus a
//! baseline, and writes to `mtime` only move the baseline. The host tick
//! count (`now`) is sampled once per hart step behind the one trusted
//! reading of the system clock and threaded through every operation here,
//! so everything downstream of the sample is verified.

use vstd::prelude::*;

use crate::address::{CLINT_BASE, CLINT_SIZE};
use crate::exception::Exception;

verus! {

/// Full address of the `msip` array (four bytes per hart).
pub const MSIP_BASE: u64 = CLINT_BASE;
/// Full address of the `mtimecmp` array (eight bytes per hart).
pub const MTIMECMP_BASE: u64 = CLINT_BASE + 0x4000;
/// Full address of `mtime` (low half; the high half is four bytes up).
pub const MTIME: u64 = CLINT_BASE + 0xbff8;
/// First address past the `mtime` register.
pub const MTIME_END: u64 = MTIME + 0x8;

/// Number of `msip` slots.
pub const MAX_MSIP: u64 = 4096;
/// Number of `mtimecmp` slots.
pub const MAX_MTIMECMP: u64 = 4095;

/// Nanoseconds per second.
pub const NANOS_PER_SEC: u64 = 1_000_000_000;

/// Host seconds and nanoseconds converted to timer ticks, wrapping at
/// sixty-four bits: `secs * freq + (nanos * freq) / 1e9`, with the
/// nanosecond term computed exactly (it always fits, since `nanos < 1e9`).
pub open spec fn ticks_of_parts(secs: u64, nanos: u64, freq: u64) -> u64 {
    vstd::wrapping::u64_specs::wrapping_add(
        vstd::wrapping::u64_specs::wrapping_mul(secs, freq),
        ((nanos * freq) / (NANOS_PER_SEC as int)) as u64,
    )
}

/// The timer value observed at host tick count `now` for a baseline
/// `begin`: their wrapping difference.
pub open spec fn time_at(begin: u64, now: u64) -> u64 {
    vstd::wrapping::u64_specs::wrapping_sub(now, begin)
}

/// The baseline that makes the timer read `time` at host tick count `now`.
pub open spec fn rebased_begin(now: u64, time: u64) -> u64 {
    vstd::wrapping::u64_specs::wrapping_sub(now, time)
}

/// Monotonic timer: a baseline rebased on writes, and a strictly positive
/// tick frequency.
pub struct Timer {
    begin: u64,
    freq: u64,
}

/// Relies on `std::time::SystemTime::now` and
/// `std::time::Duration::{as_secs, subsec_nanos}`: the host wall clock as
/// whole seconds since the Unix epoch plus the sub-second nanoseconds,
/// which are documented to be less than one billion. A clock reading
/// earlier than the epoch is taken as the epoch itself.
#[verifier::external_body]
fn host_epoch_time() -> (r: (u64, u32))
    ensures
        r.1 < 1_000_000_000,
{
    match std::time::SystemTime::now().duration_since(std::time::UNIX_EPOCH) {
        Ok(d) => (d.as_secs(), d.subsec_nanos()),
        Err(_) => (0, 0),
    }
}

/// Seconds and nanoseconds scaled to ticks at `freq`, wrapping at
/// sixty-four bits. The nanosecond term is reduced against `1e9` in wide
/// arithmetic so it never overflows.
fn ticks_from_parts(secs: u64, nanos: u32, freq: u64) -> (r: u64)
    requires
        nanos < 1_000_000_000,
    ensures
        r == ticks_of_parts(secs, nanos as u64, freq),
{
    proof {
        assert((nanos as int) * (freq as int) < 0x1_0000_0000_0000_0000_0000_0000
            && (nanos as int) * (freq as int) / 1_000_000_000 <= freq as int)
            by (nonlinear_arith)
            requires
                nanos < 1_000_000_000,
                freq <= 0xffff_ffff_ffff_ffffu64,
        ;
    }
    let prod: u128 = (nanos as u128) * (freq as u128);
    let term: u64 = (prod / (NANOS_PER_SEC as u128)) as u64;
    secs.wrapping_mul(freq).wrapping_add(term)
}

impl Timer {
    /// The baseline: the host tick count at which the timer reads zero.
    pub closed spec fn begin(&self) -> u64 {
        self.begin
    }

    /// Ticks per second.
    pub closed spec fn freq(&self) -> u64 {
        self.freq
    }

    pub open spec fn wf(&self) -> bool {
        self.freq() > 0
    }

    /// A timer reading zero at construction time.
    pub fn new(freq: u64) -> (r: Timer)
        requires
            freq > 0,
        ensures
            r.wf(),
            r.freq() == freq,
    {
        let mut timer = Timer { begin: 0, freq };
        timer.rebase(0);
        timer
    }

    /// The host tick count: the trusted clock sample scaled to this
    /// timer's frequency.
    pub fn current_time(&self) -> (r: u64)
        ensures
            exists|s: u64, n: u64|
                n < 1_000_000_000 && r == ticks_of_parts(s, n, self.freq()),
    {
        let (secs, nanos) = host_epoch_time();
        let r = ticks_from_parts(secs, nanos, self.freq);
        proof {
            assert(nanos < 1_000_000_000 && r == ticks_of_parts(
                secs,
                nanos as u64,
                self.freq(),
            ));
        }
        r
    }

    /// The timer value at host tick count `now`.
    pub fn get_at(&self, now: u64) -> (r: u64)
        ensures
            r == time_at(self.begin(), now),
    {
        now.wrapping_sub(self.begin)
    }

    /// The timer value at the present host tick count.
    pub fn get(&self) -> u64 {
        let now = self.current_time();
        self.get_at(now)
    }

    /// Move the baseline so the timer reads `time` at host tick count
    /// `now`.
    pub fn rebase_at(&mut self, now: u64, time: u64)
        ensures
            final(self).begin() == rebased_begin(now, time),
            final(self).freq() == old(self).freq(),
    {
        self.begin = now.wrapping_sub(time);
    }

    /// Move the baseline so the timer reads `time` from the present host
    /// tick count on.
    pub fn rebase(&mut self, time: u64)
        ensures
            final(self).freq() == old(self).freq(),
    {
        let now = self.current_time();
        self.rebase_at(now, time);
    }
}

/// Writing the timer to `time` at host tick count `now0` and reading it
/// back once `elapsed` further ticks have passed observes exactly
/// `time + elapsed` (wrapping at sixty-four bits).
pub proof fn lemma_rebase_get_round_trip(now0: u64, time: u64, elapsed: u64)
    ensures
        time_at(
            rebased_begin(now0, time),
            vstd::wrapping::u64_specs::wrapping_add(now0, elapsed),
        ) == vstd::wrapping::u64_specs::wrapping_add(time, elapsed),
{
}

pub struct Clint {
    msip: Vec<u32>,
    mtimecmp: Vec<u64>,
    mtime: Timer,
}

impl Clint {
    /// The per-hart software-interrupt registers.
    pub closed spec fn msip(&self) -> Seq<u32> {
        self.msip@
    }

    /// The per-hart timer compare registers.
    pub closed spec fn mtimecmp(&self) -> Seq<u64> {
        self.mtimecmp@
    }

    /// The timer baseline.
    pub closed spec fn begin(&self) -> u64 {
        self.mtime.begin()
    }

    /// The timer frequency.
    pub closed spec fn freq(&self) -> u64 {
        self.mtime.freq()
    }

    pub open spec fn wf(&self) -> bool {
        &&& self.msip().len() == MAX_MSIP
        &&& self.mtimecmp().len() == MAX_MTIMECMP
        &&& self.freq() > 0
    }

    pub fn new(timer_freq: u64) -> (r: Clint)
        requires
            timer_freq > 0,
        ensures
            r.wf(),
            r.freq() == timer_freq,
            forall|h: int| 0 <= h < MAX_MSIP ==> r.msip()[h] == 0u32,
            forall|h: int| 0 <= h < MAX_MTIMECMP ==> r.mtimecmp()[h] == 0u64,
    {
        let mut msip: Vec<u32> = Vec::new();
        msip.resize(MAX_MSIP as usize, 0u32);
        let mut mtimecmp: Vec<u64> = Vec::new();
        mtimecmp.resize(MAX_MTIMECMP as usize, 0u64);
        Clint { msip, mtimecmp, mtime: Timer::new(timer_freq) }
    }

    /// The present host tick count: the trusted clock sample scaled to
    /// the timer's frequency, for the hart loop to thread through one
    /// whole step.
    pub fn mtime_now(&self) -> u64 {
        self.mtime.current_time()
    }

    /// The two per-step interrupt conditions of `hart_id` at host tick
    /// count `now`: the timer interrupt (`mtime >= mtimecmp`) and the
    /// software interrupt (`msip != 0`).
    pub fn check_interrupts(&self, hart_id: u64, now: u64) -> (r: (bool, bool))
        requires
            self.wf(),
            hart_id < MAX_MTIMECMP,
        ensures
            r.0 == (time_at(self.begin(), now) >= self.mtimecmp()[hart_id as int]),
            r.1 == (self.msip()[hart_id as int] != 0),
    {
        let mti = self.mtime.get_at(now) >= self.mtimecmp[hart_id as usize];
        let msi = self.msip[hart_id as usize] > 0;
        (mti, msi)
    }

    /// Load from the CLINT window at host tick count `now`: `msip` slots
    /// zero-extended, `mtimecmp` slots whole, and the two 32-bit halves of
    /// the derived `mtime` selected by bit 2 of the address. Anything else
    /// in the window faults.
    pub fn load(&self, addr: u64, now: u64) -> (r: Result<u64, Exception>)
        requires
            self.wf(),
            CLINT_BASE <= addr && addr - CLINT_BASE < CLINT_SIZE,
        ensures
            r == self.spec_load(addr, now),
    {
        if MSIP_BASE <= addr && addr < MTIMECMP_BASE {
            let hart_id = (addr - MSIP_BASE) / 4;
            Ok(self.msip[hart_id as usize] as u64)
        } else if MTIMECMP_BASE <= addr && addr < MTIME {
            let hart_id = (addr - MTIMECMP_BASE) / 8;
            Ok(self.mtimecmp[hart_id as usize])
        } else if MTIME <= addr && addr < MTIME_END {
            let time = self.mtime.get_at(now);
            if addr & 0b100 != 0 {
                Ok((time >> 32) as u32 as u64)
            } else {
                Ok(time as u32 as u64)
            }
        } else {
            Err(Exception::LoadAccessFault(addr))
        }
    }

    /// The value `load` returns, as a function of the state, the address
    /// and the host tick count.
    pub open spec fn spec_load(&self, addr: u64, now: u64) -> Result<u64, Exception> {
        if MSIP_BASE <= addr && addr < MTIMECMP_BASE {
            Ok(self.msip()[((addr - MSIP_BASE) / 4) as int] as u64)
        } else if MTIMECMP_BASE <= addr && addr < MTIME {
            Ok(self.mtimecmp()[((addr - MTIMECMP_BASE) / 8) as int])
        } else if MTIME <= addr && addr < MTIME_END {
            if addr & 0b100 != 0 {
                Ok(((time_at(self.begin(), now) >> 32) as u32) as u64)
            } else {
                Ok((time_at(self.begin(), now) as u32) as u64)
            }
        } else {
            Err(Exception::LoadAccessFault(addr))
        }
    }

    /// A 64-bit word with one 32-bit half replaced: the high half by the
    /// low bits of `value` when `high` is set, the low half by `value`
    /// whole otherwise.
    pub open spec fn half_merged(old_word: u64, value: u64, high: bool) -> u64 {
        if high {
            (value << 32) | (old_word & 0xffff_ffff)
        } else {
            ((old_word >> 32) << 32) | value
        }
    }

    /// Store to the CLINT window at host tick count `now`: `msip` slots
    /// take the low 32 bits, `mtimecmp` and `mtime` take `value` merged
    /// into the 32-bit half selected by bit 2 of the address. A store to
    /// `mtime` rebases the timer so later reads observe the written value
    /// plus the ticks elapsed since this store. Anything else in the
    /// window faults.
    pub fn store(&mut self, addr: u64, value: u64, now: u64) -> (r: Result<(), Exception>)
        requires
            old(self).wf(),
            CLINT_BASE <= addr && addr - CLINT_BASE < CLINT_SIZE,
        ensures
            final(self).wf(),
            Self::store_rel(*old(self), addr, value, now, *final(self), r),
    {
        if MSIP_BASE <= addr && addr < MTIMECMP_BASE {
            let hart_id = (addr - MSIP_BASE) / 4;
            self.msip[hart_id as usize] = value as u32;
            Ok(())
        } else if MTIMECMP_BASE <= addr && addr < MTIME {
            let hart_id = (addr - MTIMECMP_BASE) / 8;
            let old_word = self.mtimecmp[hart_id as usize];
            let merged = if addr & 0b100 != 0 {
                (value << 32) | (old_word & 0xffff_ffff)
            } else {
                ((old_word >> 32) << 32) | value
            };
            self.mtimecmp[hart_id as usize] = merged;
            Ok(())
        } else if MTIME <= addr && addr < MTIME_END {
            let old_word = self.mtime.get_at(now);
            let merged = if addr & 0b100 != 0 {
                (value << 32) | (old_word & 0xffff_ffff)
            } else {
                ((old_word >> 32) << 32) | value
            };
            self.mtime.rebase_at(now, merged);
            Ok(())
        } else {
            Err(Exception::StoreAMOAccessFault(addr))
        }
    }

    /// What `store` does, as a relation between the states before and
    /// after.
    pub open spec fn store_rel(
        pre: Clint,
        addr: u64,
        value: u64,
        now: u64,
        post: Clint,
        r: Result<(), Exception>,
    ) -> bool {
        &&& post.freq() == pre.freq()
        &&& if MSIP_BASE <= addr && addr < MTIMECMP_BASE {
            &&& r == Ok::<(), Exception>(())
            &&& post.msip() == pre.msip().update(((addr - MSIP_BASE) / 4) as int, value as u32)
            &&& post.mtimecmp() == pre.mtimecmp()
            &&& post.begin() == pre.begin()
        } else if MTIMECMP_BASE <= addr && addr < MTIME {
            &&& r == Ok::<(), Exception>(())
            &&& post.mtimecmp() == pre.mtimecmp().update(
                ((addr - MTIMECMP_BASE) / 8) as int,
                Self::half_merged(
                    pre.mtimecmp()[((addr - MTIMECMP_BASE) / 8) as int],
                    value,
                    addr & 0b100 != 0,
                ),
            )
            &&& post.msip() == pre.msip()
            &&& post.begin() == pre.begin()
        } else if MTIME <= addr && addr < MTIME_END {
            &&& r == Ok::<(), Exception>(())
            &&& post.begin() == rebased_begin(
                now,
                Self::half_merged(time_at(pre.begin(), now), value, addr & 0b100 != 0),
            )
            &&& post.msip() == pre.msip()
            &&& post.mtimecmp() == pre.mtimecmp()
        } else {
            &&& r == Err::<(), Exception>(Exception::StoreAMOAccessFault(addr))
            &&& post.msip() == pre.msip()
            &&& post.mtimecmp() == pre.mtimecmp()
            &&& post.begin() == pre.begin()
        }
    }
}

} // verus!
