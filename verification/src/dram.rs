//! Byte-addressable backing store: 128 MiB mapped at `DRAM_BASE`, loaded and
//! stored little-endian in units of 8, 16, 32 or 64 bits, with no alignment
//! enforcement.

use vstd::prelude::*;

use crate::address::{DRAM_BASE, DRAM_SIZE};
use crate::exception::Exception;

verus! {

/// Whether `size` is a legal access width in bits.
pub open spec fn valid_size(size: u64) -> bool {
    size == 8 || size == 16 || size == 32 || size == 64
}

/// Byte `j` (little-endian, `0 <= j < 8`) of a 64-bit value.
pub open spec fn byte_of(v: u64, j: int) -> u8 {
    ((v >> ((8 * j) as u64)) & 0xff) as u8
}

/// The value assembled little-endian from `n` bytes of `bytes` starting at
/// `i`.
pub open spec fn le_load(bytes: Seq<u8>, i: int, n: int) -> u64
    decreases n,
{
    if n <= 0 {
        0
    } else {
        le_load(bytes, i, n - 1) | ((bytes[i + n - 1] as u64) << ((8 * (n - 1)) as u64))
    }
}

/// `bytes` with the `n` little-endian bytes of `v` written at `i`.
pub open spec fn le_store(bytes: Seq<u8>, i: int, n: int, v: u64) -> Seq<u8> {
    Seq::new(bytes.len(), |k: int| if i <= k < i + n { byte_of(v, k - i) } else { bytes[k] })
}

/// The low `size` bits of a value, for a legal access width.
pub open spec fn size_mask(size: u64) -> u64 {
    if size == 8 {
        0xff
    } else if size == 16 {
        0xffff
    } else if size == 32 {
        0xffff_ffff
    } else {
        0xffff_ffff_ffff_ffff
    }
}

pub struct Dram {
    pub dram: Vec<u8>,
}

impl Dram {
    /// The store as a sequence of `DRAM_SIZE` bytes.
    pub open spec fn view(&self) -> Seq<u8> {
        self.dram@
    }

    pub open spec fn wf(&self) -> bool {
        self@.len() == DRAM_SIZE
    }

    /// Whether an access of `size` bits at `addr` lies inside the store.
    pub open spec fn in_range(addr: u64, size: u64) -> bool {
        DRAM_BASE <= addr && addr - DRAM_BASE + size / 8 <= DRAM_SIZE
    }

    /// The value `load` returns, as a function of the state.
    pub open spec fn spec_load(&self, addr: u64, size: u64) -> Result<u64, Exception> {
        if valid_size(size) && Self::in_range(addr, size) {
            Ok(le_load(self@, addr - DRAM_BASE, size as int / 8))
        } else {
            Err(Exception::LoadAccessFault(addr))
        }
    }

    /// The bytes after a `store` and the result it returns.
    pub open spec fn spec_store(&self, addr: u64, size: u64, value: u64) -> (Seq<u8>, Result<
        (),
        Exception,
    >) {
        if valid_size(size) && Self::in_range(addr, size) {
            (le_store(self@, addr - DRAM_BASE, size as int / 8, value), Ok(()))
        } else {
            (self@, Err(Exception::StoreAMOAccessFault(addr)))
        }
    }

    pub fn new(binary: Vec<u8>) -> (r: Dram)
        requires
            binary@.len() <= DRAM_SIZE,
        ensures
            r.wf(),
            forall|k: int|
                0 <= k < DRAM_SIZE ==> r@[k] == (if k < binary@.len() {
                    binary@[k]
                } else {
                    0u8
                }),
    {
        let mut dram: Vec<u8> = Vec::new();
        dram.resize(DRAM_SIZE as usize, 0u8);
        assert(forall|k: int| 0 <= k < DRAM_SIZE ==> dram@[k] == 0u8);
        let mut i: usize = 0;
        while i < binary.len()
            invariant
                i <= binary@.len(),
                binary@.len() <= DRAM_SIZE,
                dram@.len() == DRAM_SIZE,
                forall|k: int|
                    0 <= k < DRAM_SIZE ==> dram@[k] == (if k < i {
                        binary@[k]
                    } else {
                        0u8
                    }),
            decreases binary@.len() - i,
        {
            dram[i] = binary[i];
            i = i + 1;
        }
        Dram { dram }
    }

    /// Little-endian load of `size` bits at `addr`. A width outside
    /// {8, 16, 32, 64}, or an access that overruns the end of the store,
    /// fails with `LoadAccessFault` carrying the address.
    pub fn load(&self, addr: u64, size: u64) -> (r: Result<u64, Exception>)
        requires
            self.wf(),
            DRAM_BASE <= addr && addr - DRAM_BASE < DRAM_SIZE,
        ensures
            r == self.spec_load(addr, size),
    {
        if !(size == 8 || size == 16 || size == 32 || size == 64) {
            return Err(Exception::LoadAccessFault(addr));
        }
        let nbytes: u64 = size / 8;
        let index: usize = (addr - DRAM_BASE) as usize;
        if !(index as u64 + nbytes <= DRAM_SIZE) {
            return Err(Exception::LoadAccessFault(addr));
        }
        let mut value: u64 = 0;
        let mut i: u64 = 0;
        while i < nbytes
            invariant
                self.wf(),
                i <= nbytes,
                nbytes <= 8,
                index + nbytes <= DRAM_SIZE,
                value == le_load(self@, index as int, i as int),
            decreases nbytes - i,
        {
            value = value | ((self.dram[index + i as usize] as u64) << (i * 8));
            i = i + 1;
        }
        Ok(value)
    }

    /// Little-endian store of the low `size` bits of `value` at `addr`, with
    /// the same width and range rules as `load` but failing with
    /// `StoreAMOAccessFault`.
    pub fn store(&mut self, addr: u64, size: u64, value: u64) -> (r: Result<(), Exception>)
        requires
            old(self).wf(),
            DRAM_BASE <= addr && addr - DRAM_BASE < DRAM_SIZE,
        ensures
            final(self).wf(),
            final(self)@ == old(self).spec_store(addr, size, value).0,
            r == old(self).spec_store(addr, size, value).1,
    {
        if !(size == 8 || size == 16 || size == 32 || size == 64) {
            return Err(Exception::StoreAMOAccessFault(addr));
        }
        let nbytes: u64 = size / 8;
        let index: usize = (addr - DRAM_BASE) as usize;
        if !(index as u64 + nbytes <= DRAM_SIZE) {
            return Err(Exception::StoreAMOAccessFault(addr));
        }
        let mut i: u64 = 0;
        while i < nbytes
            invariant
                self@.len() == DRAM_SIZE,
                i <= nbytes,
                nbytes <= 8,
                index + nbytes <= DRAM_SIZE,
                forall|k: int|
                    0 <= k < DRAM_SIZE ==> self@[k] == (if index <= k < index + i {
                        byte_of(value, k - index)
                    } else {
                        old(self)@[k]
                    }),
            decreases nbytes - i,
        {
            proof {
                lemma_byte_of_fits(value, i as int);
            }
            self.dram[index + i as usize] = ((value >> (i * 8)) & 0xff) as u8;
            i = i + 1;
        }
        proof {
            assert(self@ =~= le_store(old(self)@, addr - DRAM_BASE, size as int / 8, value));
        }
        Ok(())
    }
}

/// Little-endian round trip: storing `v` with any legal width at any
/// in-range position and loading it back with the same width yields `v`
/// masked to that width.
pub proof fn lemma_store_load_round_trip(bytes: Seq<u8>, i: int, size: u64, v: u64)
    requires
        valid_size(size),
        0 <= i,
        i + size / 8 <= bytes.len(),
    ensures
        le_load(le_store(bytes, i, size as int / 8, v), i, size as int / 8) == v & size_mask(
            size,
        ),
{
    let n = size as int / 8;
    let s = le_store(bytes, i, n, v);
    lemma_stored_byte(bytes, i, n, v, 0, 0);
    let b0 = s[i + 0] as u64;
    if size == 8 {
        assert(le_load(s, i, 1) == 0u64 | (b0 << 0u64)) by {
            reveal_with_fuel(le_load, 2);
        }
        assert(0u64 | (b0 << 0u64) == v & 0xff) by (bit_vector)
            requires
                b0 == (v >> 0u64) & 0xff,
        ;
    } else if size == 16 {
        lemma_stored_byte(bytes, i, n, v, 1, 8);
        let b1 = s[i + 1] as u64;
        assert(le_load(s, i, 2) == 0u64 | (b0 << 0u64) | (b1 << 8u64)) by {
            reveal_with_fuel(le_load, 3);
        }
        assert(0u64 | (b0 << 0u64) | (b1 << 8u64) == v & 0xffff) by (bit_vector)
            requires
                b0 == (v >> 0u64) & 0xff,
                b1 == (v >> 8u64) & 0xff,
        ;
    } else if size == 32 {
        lemma_stored_byte(bytes, i, n, v, 1, 8);
        lemma_stored_byte(bytes, i, n, v, 2, 16);
        lemma_stored_byte(bytes, i, n, v, 3, 24);
        let b1 = s[i + 1] as u64;
        let b2 = s[i + 2] as u64;
        let b3 = s[i + 3] as u64;
        assert(le_load(s, i, 4) == 0u64 | (b0 << 0u64) | (b1 << 8u64) | (b2 << 16u64) | (b3
            << 24u64)) by {
            reveal_with_fuel(le_load, 5);
        }
        assert(0u64 | (b0 << 0u64) | (b1 << 8u64) | (b2 << 16u64) | (b3 << 24u64) == v
            & 0xffff_ffff) by (bit_vector)
            requires
                b0 == (v >> 0u64) & 0xff,
                b1 == (v >> 8u64) & 0xff,
                b2 == (v >> 16u64) & 0xff,
                b3 == (v >> 24u64) & 0xff,
        ;
    } else {
        lemma_stored_byte(bytes, i, n, v, 1, 8);
        lemma_stored_byte(bytes, i, n, v, 2, 16);
        lemma_stored_byte(bytes, i, n, v, 3, 24);
        lemma_stored_byte(bytes, i, n, v, 4, 32);
        lemma_stored_byte(bytes, i, n, v, 5, 40);
        lemma_stored_byte(bytes, i, n, v, 6, 48);
        lemma_stored_byte(bytes, i, n, v, 7, 56);
        let b1 = s[i + 1] as u64;
        let b2 = s[i + 2] as u64;
        let b3 = s[i + 3] as u64;
        let b4 = s[i + 4] as u64;
        let b5 = s[i + 5] as u64;
        let b6 = s[i + 6] as u64;
        let b7 = s[i + 7] as u64;
        assert(le_load(s, i, 8) == 0u64 | (b0 << 0u64) | (b1 << 8u64) | (b2 << 16u64) | (b3
            << 24u64) | (b4 << 32u64) | (b5 << 40u64) | (b6 << 48u64) | (b7 << 56u64)) by {
            reveal_with_fuel(le_load, 9);
        }
        assert(0u64 | (b0 << 0u64) | (b1 << 8u64) | (b2 << 16u64) | (b3 << 24u64) | (b4 << 32u64)
            | (b5 << 40u64) | (b6 << 48u64) | (b7 << 56u64) == v & 0xffff_ffff_ffff_ffff)
            by (bit_vector)
            requires
                b0 == (v >> 0u64) & 0xff,
                b1 == (v >> 8u64) & 0xff,
                b2 == (v >> 16u64) & 0xff,
                b3 == (v >> 24u64) & 0xff,
                b4 == (v >> 32u64) & 0xff,
                b5 == (v >> 40u64) & 0xff,
                b6 == (v >> 48u64) & 0xff,
                b7 == (v >> 56u64) & 0xff,
        ;
    }
}

/// Byte `j` of the freshly stored region, read back as a 64-bit value.
proof fn lemma_stored_byte(bytes: Seq<u8>, i: int, n: int, v: u64, j: int, sh: u64)
    requires
        0 <= i,
        0 <= j < n,
        j < 8,
        i + n <= bytes.len(),
        sh == 8 * j,
    ensures
        le_store(bytes, i, n, v)[i + j] as u64 == (v >> sh) & 0xff,
{
    assert(le_store(bytes, i, n, v)[i + j] == byte_of(v, j));
    lemma_byte_of_fits(v, j);
    assert(((8 * j) as u64) == sh);
}

/// The truncation in `byte_of` keeps exactly the low eight bits.
pub proof fn lemma_byte_of_fits(v: u64, j: int)
    requires
        0 <= j < 8,
    ensures
        byte_of(v, j) as u64 == (v >> ((8 * j) as u64)) & 0xff,
{
    let s: u64 = (8 * j) as u64;
    assert(((v >> s) & 0xff) as u8 as u64 == (v >> s) & 0xff) by (bit_vector);
}

} // verus!
