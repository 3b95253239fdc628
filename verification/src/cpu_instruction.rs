//! Per-mnemonic instruction semantics: each method carries the exact
//! effect of one mnemonic on the register file, the program counter, the
//! CSR file and the bus, stated over the spec-level decode helpers.

use vstd::prelude::*;

use crate::address::{MEPC, MSTATUS, SEPC, SSTATUS};
use crate::bus::Bus;
use crate::cpu::{
    mret_mode, mstatus_on_mret, sext8, sext16, sext32, signed_lt, sra32, sra64, sret_mode,
    sstatus_on_sret, wadd, wmul, wr, wsub, Cpu, Mode,
};
use crate::exception::Exception;

verus! {

/// Signed comparison of two register values, by cases on the sign bits.
pub fn signed_less_than(a: u64, b: u64) -> (r: bool)
    ensures
        r == signed_lt(a, b),
{
    if a >= 0x8000_0000_0000_0000 && b < 0x8000_0000_0000_0000 {
        true
    } else if a < 0x8000_0000_0000_0000 && b >= 0x8000_0000_0000_0000 {
        false
    } else {
        a < b
    }
}

impl Cpu {
    /// `rd = rs1 + imm`, wrapping.
    pub fn execute_addi(&mut self, rd: u64, rs1: u64, imm: u64)
        requires
            old(self).wf(),
            rd < 32,
            rs1 < 32,
        ensures
            final(self).wf(),
            final(self).regs@ == wr(old(self).regs@, rd, wadd(old(self).regs@[rs1 as int], imm)),
            final(self).pc == old(self).pc,
            final(self).mode == old(self).mode,
            final(self).csr == old(self).csr,
            final(self).bus == old(self).bus,
    {
        let v = self.read_reg(rs1).wrapping_add(imm);
        self.write_reg(rd, v);
    }

    /// `rd = 1` when `rs1 < imm` as signed values, else 0.
    pub fn execute_slti(&mut self, rd: u64, rs1: u64, imm: u64)
        requires
            old(self).wf(),
            rd < 32,
            rs1 < 32,
        ensures
            final(self).wf(),
            final(self).regs@ == wr(old(self).regs@, rd, (if signed_lt(old(self).regs@[rs1 as int], imm) { 1u64 } else { 0u64 })),
            final(self).pc == old(self).pc,
            final(self).mode == old(self).mode,
            final(self).csr == old(self).csr,
            final(self).bus == old(self).bus,
    {
        let v: u64 = if signed_less_than(self.read_reg(rs1), imm) { 1 } else { 0 };
        self.write_reg(rd, v);
    }

    /// `rd = 1` when `rs1 < imm` as unsigned values, else 0.
    pub fn execute_sltiu(&mut self, rd: u64, rs1: u64, imm: u64)
        requires
            old(self).wf(),
            rd < 32,
            rs1 < 32,
        ensures
            final(self).wf(),
            final(self).regs@ == wr(old(self).regs@, rd, (if old(self).regs@[rs1 as int] < imm { 1u64 } else { 0u64 })),
            final(self).pc == old(self).pc,
            final(self).mode == old(self).mode,
            final(self).csr == old(self).csr,
            final(self).bus == old(self).bus,
    {
        let v: u64 = if self.read_reg(rs1) < imm { 1 } else { 0 };
        self.write_reg(rd, v);
    }

    /// `rd = rs1 ^ imm`.
    pub fn execute_xori(&mut self, rd: u64, rs1: u64, imm: u64)
        requires
            old(self).wf(),
            rd < 32,
            rs1 < 32,
        ensures
            final(self).wf(),
            final(self).regs@ == wr(old(self).regs@, rd, old(self).regs@[rs1 as int] ^ imm),
            final(self).pc == old(self).pc,
            final(self).mode == old(self).mode,
            final(self).csr == old(self).csr,
            final(self).bus == old(self).bus,
    {
        let v = self.read_reg(rs1) ^ imm;
        self.write_reg(rd, v);
    }

    /// `rd = rs1 | imm`.
    pub fn execute_ori(&mut self, rd: u64, rs1: u64, imm: u64)
        requires
            old(self).wf(),
            rd < 32,
            rs1 < 32,
        ensures
            final(self).wf(),
            final(self).regs@ == wr(old(self).regs@, rd, old(self).regs@[rs1 as int] | imm),
            final(self).pc == old(self).pc,
            final(self).mode == old(self).mode,
            final(self).csr == old(self).csr,
            final(self).bus == old(self).bus,
    {
        let v = self.read_reg(rs1) | imm;
        self.write_reg(rd, v);
    }

    /// `rd = rs1 & imm`.
    pub fn execute_andi(&mut self, rd: u64, rs1: u64, imm: u64)
        requires
            old(self).wf(),
            rd < 32,
            rs1 < 32,
        ensures
            final(self).wf(),
            final(self).regs@ == wr(old(self).regs@, rd, old(self).regs@[rs1 as int] & imm),
            final(self).pc == old(self).pc,
            final(self).mode == old(self).mode,
            final(self).csr == old(self).csr,
            final(self).bus == old(self).bus,
    {
        let v = self.read_reg(rs1) & imm;
        self.write_reg(rd, v);
    }

    /// `rd = rs1 + imm` on 32 bits, sign-extended.
    pub fn execute_addiw(&mut self, rd: u64, rs1: u64, imm: u64)
        requires
            old(self).wf(),
            rd < 32,
            rs1 < 32,
        ensures
            final(self).wf(),
            final(self).regs@ == wr(old(self).regs@, rd, sext32(wadd(old(self).regs@[rs1 as int], imm))),
            final(self).pc == old(self).pc,
            final(self).mode == old(self).mode,
            final(self).csr == old(self).csr,
            final(self).bus == old(self).bus,
    {
        let s = self.read_reg(rs1).wrapping_add(imm);
        let v = if s & 0x8000_0000 != 0 {
            (s & 0xffff_ffff) | 0xffff_ffff_0000_0000
        } else {
            s & 0xffff_ffff
        };
        self.write_reg(rd, v);
    }

    /// `rd = rs1 << shamt` (six-bit shift amount).
    pub fn execute_slli(&mut self, rd: u64, rs1: u64, shamt: u64)
        requires
            old(self).wf(),
            rd < 32,
            rs1 < 32,
            shamt < 64,
        ensures
            final(self).wf(),
            final(self).regs@ == wr(old(self).regs@, rd, old(self).regs@[rs1 as int] << shamt),
            final(self).pc == old(self).pc,
            final(self).mode == old(self).mode,
            final(self).csr == old(self).csr,
            final(self).bus == old(self).bus,
    {
        let v = self.read_reg(rs1) << shamt;
        self.write_reg(rd, v);
    }

    /// `rd = rs1 >> shamt`, logical.
    pub fn execute_srli(&mut self, rd: u64, rs1: u64, shamt: u64)
        requires
            old(self).wf(),
            rd < 32,
            rs1 < 32,
            shamt < 64,
        ensures
            final(self).wf(),
            final(self).regs@ == wr(old(self).regs@, rd, old(self).regs@[rs1 as int] >> shamt),
            final(self).pc == old(self).pc,
            final(self).mode == old(self).mode,
            final(self).csr == old(self).csr,
            final(self).bus == old(self).bus,
    {
        let v = self.read_reg(rs1) >> shamt;
        self.write_reg(rd, v);
    }

    /// `rd = rs1 >> shamt`, arithmetic.
    pub fn execute_srai(&mut self, rd: u64, rs1: u64, shamt: u64)
        requires
            old(self).wf(),
            rd < 32,
            rs1 < 32,
            shamt < 64,
        ensures
            final(self).wf(),
            final(self).regs@ == wr(old(self).regs@, rd, sra64(old(self).regs@[rs1 as int], shamt)),
            final(self).pc == old(self).pc,
            final(self).mode == old(self).mode,
            final(self).csr == old(self).csr,
            final(self).bus == old(self).bus,
    {
        let x = self.read_reg(rs1);
        let v = if x & 0x8000_0000_0000_0000 != 0 {
            !((!x) >> shamt)
        } else {
            x >> shamt
        };
        self.write_reg(rd, v);
    }

    /// `rd = rs1 << shamt` on 32 bits, sign-extended.
    pub fn execute_slliw(&mut self, rd: u64, rs1: u64, shamt: u64)
        requires
            old(self).wf(),
            rd < 32,
            rs1 < 32,
            shamt < 32,
        ensures
            final(self).wf(),
            final(self).regs@ == wr(old(self).regs@, rd, sext32(old(self).regs@[rs1 as int] << shamt)),
            final(self).pc == old(self).pc,
            final(self).mode == old(self).mode,
            final(self).csr == old(self).csr,
            final(self).bus == old(self).bus,
    {
        let s = self.read_reg(rs1) << shamt;
        let v = if s & 0x8000_0000 != 0 {
            (s & 0xffff_ffff) | 0xffff_ffff_0000_0000
        } else {
            s & 0xffff_ffff
        };
        self.write_reg(rd, v);
    }

    /// `rd = (rs1 as 32 bits) >> shamt`, logical, sign-extended.
    pub fn execute_srliw(&mut self, rd: u64, rs1: u64, shamt: u64)
        requires
            old(self).wf(),
            rd < 32,
            rs1 < 32,
            shamt < 32,
        ensures
            final(self).wf(),
            final(self).regs@ == wr(old(self).regs@, rd, sext32((old(self).regs@[rs1 as int] & 0xffff_ffff) >> shamt)),
            final(self).pc == old(self).pc,
            final(self).mode == old(self).mode,
            final(self).csr == old(self).csr,
            final(self).bus == old(self).bus,
    {
        let s = (self.read_reg(rs1) & 0xffff_ffff) >> shamt;
        let v = if s & 0x8000_0000 != 0 {
            (s & 0xffff_ffff) | 0xffff_ffff_0000_0000
        } else {
            s & 0xffff_ffff
        };
        self.write_reg(rd, v);
    }

    /// `rd = (rs1 as 32 bits) >> shamt`, arithmetic, sign-extended.
    pub fn execute_sraiw(&mut self, rd: u64, rs1: u64, shamt: u64)
        requires
            old(self).wf(),
            rd < 32,
            rs1 < 32,
            shamt < 32,
        ensures
            final(self).wf(),
            final(self).regs@ == wr(old(self).regs@, rd, sext32(sra32(old(self).regs@[rs1 as int], shamt))),
            final(self).pc == old(self).pc,
            final(self).mode == old(self).mode,
            final(self).csr == old(self).csr,
            final(self).bus == old(self).bus,
    {
        let x = self.read_reg(rs1);
        let s = if x & 0x8000_0000 != 0 {
            (!((!x & 0xffff_ffff) >> shamt)) & 0xffff_ffff
        } else {
            (x & 0xffff_ffff) >> shamt
        };
        let v = if s & 0x8000_0000 != 0 {
            (s & 0xffff_ffff) | 0xffff_ffff_0000_0000
        } else {
            s & 0xffff_ffff
        };
        self.write_reg(rd, v);
    }

    /// `rd = rs1 + rs2`, wrapping.
    pub fn execute_add(&mut self, rd: u64, rs1: u64, rs2: u64)
        requires
            old(self).wf(),
            rd < 32,
            rs1 < 32,
            rs2 < 32,
        ensures
            final(self).wf(),
            final(self).regs@ == wr(old(self).regs@, rd, wadd(old(self).regs@[rs1 as int], old(self).regs@[rs2 as int])),
            final(self).pc == old(self).pc,
            final(self).mode == old(self).mode,
            final(self).csr == old(self).csr,
            final(self).bus == old(self).bus,
    {
        let v = self.read_reg(rs1).wrapping_add(self.read_reg(rs2));
        self.write_reg(rd, v);
    }

    /// `rd = rs1 - rs2`, wrapping.
    pub fn execute_sub(&mut self, rd: u64, rs1: u64, rs2: u64)
        requires
            old(self).wf(),
            rd < 32,
            rs1 < 32,
            rs2 < 32,
        ensures
            final(self).wf(),
            final(self).regs@ == wr(old(self).regs@, rd, wsub(old(self).regs@[rs1 as int], old(self).regs@[rs2 as int])),
            final(self).pc == old(self).pc,
            final(self).mode == old(self).mode,
            final(self).csr == old(self).csr,
            final(self).bus == old(self).bus,
    {
        let v = self.read_reg(rs1).wrapping_sub(self.read_reg(rs2));
        self.write_reg(rd, v);
    }

    /// `rd = 1` when `rs1 < rs2` as signed values, else 0.
    pub fn execute_slt(&mut self, rd: u64, rs1: u64, rs2: u64)
        requires
            old(self).wf(),
            rd < 32,
            rs1 < 32,
            rs2 < 32,
        ensures
            final(self).wf(),
            final(self).regs@ == wr(old(self).regs@, rd, (if signed_lt(old(self).regs@[rs1 as int], old(self).regs@[rs2 as int]) { 1u64 } else { 0u64 })),
            final(self).pc == old(self).pc,
            final(self).mode == old(self).mode,
            final(self).csr == old(self).csr,
            final(self).bus == old(self).bus,
    {
        let v: u64 = if signed_less_than(self.read_reg(rs1), self.read_reg(rs2)) {
            1
        } else {
            0
        };
        self.write_reg(rd, v);
    }

    /// `rd = 1` when `rs1 < rs2` as unsigned values, else 0.
    pub fn execute_sltu(&mut self, rd: u64, rs1: u64, rs2: u64)
        requires
            old(self).wf(),
            rd < 32,
            rs1 < 32,
            rs2 < 32,
        ensures
            final(self).wf(),
            final(self).regs@ == wr(old(self).regs@, rd, (if old(self).regs@[rs1 as int] < old(self).regs@[rs2 as int] { 1u64 } else { 0u64 })),
            final(self).pc == old(self).pc,
            final(self).mode == old(self).mode,
            final(self).csr == old(self).csr,
            final(self).bus == old(self).bus,
    {
        let v: u64 = if self.read_reg(rs1) < self.read_reg(rs2) { 1 } else { 0 };
        self.write_reg(rd, v);
    }

    /// `rd = rs1 ^ rs2`.
    pub fn execute_xor(&mut self, rd: u64, rs1: u64, rs2: u64)
        requires
            old(self).wf(),
            rd < 32,
            rs1 < 32,
            rs2 < 32,
        ensures
            final(self).wf(),
            final(self).regs@ == wr(old(self).regs@, rd, old(self).regs@[rs1 as int] ^ old(self).regs@[rs2 as int]),
            final(self).pc == old(self).pc,
            final(self).mode == old(self).mode,
            final(self).csr == old(self).csr,
            final(self).bus == old(self).bus,
    {
        let v = self.read_reg(rs1) ^ self.read_reg(rs2);
        self.write_reg(rd, v);
    }

    /// `rd = rs1 | rs2`.
    pub fn execute_or(&mut self, rd: u64, rs1: u64, rs2: u64)
        requires
            old(self).wf(),
            rd < 32,
            rs1 < 32,
            rs2 < 32,
        ensures
            final(self).wf(),
            final(self).regs@ == wr(old(self).regs@, rd, old(self).regs@[rs1 as int] | old(self).regs@[rs2 as int]),
            final(self).pc == old(self).pc,
            final(self).mode == old(self).mode,
            final(self).csr == old(self).csr,
            final(self).bus == old(self).bus,
    {
        let v = self.read_reg(rs1) | self.read_reg(rs2);
        self.write_reg(rd, v);
    }

    /// `rd = rs1 & rs2`.
    pub fn execute_and(&mut self, rd: u64, rs1: u64, rs2: u64)
        requires
            old(self).wf(),
            rd < 32,
            rs1 < 32,
            rs2 < 32,
        ensures
            final(self).wf(),
            final(self).regs@ == wr(old(self).regs@, rd, old(self).regs@[rs1 as int] & old(self).regs@[rs2 as int]),
            final(self).pc == old(self).pc,
            final(self).mode == old(self).mode,
            final(self).csr == old(self).csr,
            final(self).bus == old(self).bus,
    {
        let v = self.read_reg(rs1) & self.read_reg(rs2);
        self.write_reg(rd, v);
    }

    /// `rd = rs1 * rs2`, wrapping.
    pub fn execute_mul(&mut self, rd: u64, rs1: u64, rs2: u64)
        requires
            old(self).wf(),
            rd < 32,
            rs1 < 32,
            rs2 < 32,
        ensures
            final(self).wf(),
            final(self).regs@ == wr(old(self).regs@, rd, wmul(old(self).regs@[rs1 as int], old(self).regs@[rs2 as int])),
            final(self).pc == old(self).pc,
            final(self).mode == old(self).mode,
            final(self).csr == old(self).csr,
            final(self).bus == old(self).bus,
    {
        let v = self.read_reg(rs1).wrapping_mul(self.read_reg(rs2));
        self.write_reg(rd, v);
    }

    /// `rd = rs1 / rs2` unsigned; division by zero yields all ones.
    pub fn execute_divu(&mut self, rd: u64, rs1: u64, rs2: u64)
        requires
            old(self).wf(),
            rd < 32,
            rs1 < 32,
            rs2 < 32,
        ensures
            final(self).wf(),
            final(self).regs@ == wr(old(self).regs@, rd, (if old(self).regs@[rs2 as int] == 0 { 0xffff_ffff_ffff_ffffu64 } else { old(self).regs@[rs1 as int] / old(self).regs@[rs2 as int] })),
            final(self).pc == old(self).pc,
            final(self).mode == old(self).mode,
            final(self).csr == old(self).csr,
            final(self).bus == old(self).bus,
    {
        let divisor = self.read_reg(rs2);
        let v = if divisor == 0 {
            0xffff_ffff_ffff_ffff
        } else {
            self.read_reg(rs1) / divisor
        };
        self.write_reg(rd, v);
    }

    /// `rd = rs1 % rs2` unsigned; a zero divisor yields the dividend whole.
    pub fn execute_remu(&mut self, rd: u64, rs1: u64, rs2: u64)
        requires
            old(self).wf(),
            rd < 32,
            rs1 < 32,
            rs2 < 32,
        ensures
            final(self).wf(),
            final(self).regs@ == wr(old(self).regs@, rd, (if old(self).regs@[rs2 as int] == 0 { old(self).regs@[rs1 as int] } else { old(self).regs@[rs1 as int] % old(self).regs@[rs2 as int] })),
            final(self).pc == old(self).pc,
            final(self).mode == old(self).mode,
            final(self).csr == old(self).csr,
            final(self).bus == old(self).bus,
    {
        let divisor = self.read_reg(rs2);
        let v = if divisor == 0 {
            self.read_reg(rs1)
        } else {
            self.read_reg(rs1) % divisor
        };
        self.write_reg(rd, v);
    }

    /// `rd = rs1 + rs2` on 32 bits, sign-extended.
    pub fn execute_addw(&mut self, rd: u64, rs1: u64, rs2: u64)
        requires
            old(self).wf(),
            rd < 32,
            rs1 < 32,
            rs2 < 32,
        ensures
            final(self).wf(),
            final(self).regs@ == wr(old(self).regs@, rd, sext32(wadd(old(self).regs@[rs1 as int], old(self).regs@[rs2 as int]))),
            final(self).pc == old(self).pc,
            final(self).mode == old(self).mode,
            final(self).csr == old(self).csr,
            final(self).bus == old(self).bus,
    {
        let s = self.read_reg(rs1).wrapping_add(self.read_reg(rs2));
        let v = if s & 0x8000_0000 != 0 {
            (s & 0xffff_ffff) | 0xffff_ffff_0000_0000
        } else {
            s & 0xffff_ffff
        };
        self.write_reg(rd, v);
    }

    /// `rd = rs1 - rs2` on 32 bits, sign-extended.
    pub fn execute_subw(&mut self, rd: u64, rs1: u64, rs2: u64)
        requires
            old(self).wf(),
            rd < 32,
            rs1 < 32,
            rs2 < 32,
        ensures
            final(self).wf(),
            final(self).regs@ == wr(old(self).regs@, rd, sext32(wsub(old(self).regs@[rs1 as int], old(self).regs@[rs2 as int]))),
            final(self).pc == old(self).pc,
            final(self).mode == old(self).mode,
            final(self).csr == old(self).csr,
            final(self).bus == old(self).bus,
    {
        let s = self.read_reg(rs1).wrapping_sub(self.read_reg(rs2));
        let v = if s & 0x8000_0000 != 0 {
            (s & 0xffff_ffff) | 0xffff_ffff_0000_0000
        } else {
            s & 0xffff_ffff
        };
        self.write_reg(rd, v);
    }

    /// `rd = rs1 % rs2` unsigned on the low 32 bits, sign-extended; a zero
    /// divisor yields the 32-bit dividend, sign-extended.
    pub fn execute_remuw(&mut self, rd: u64, rs1: u64, rs2: u64)
        requires
            old(self).wf(),
            rd < 32,
            rs1 < 32,
            rs2 < 32,
        ensures
            final(self).wf(),
            final(self).regs@ == wr(old(self).regs@, rd, (if old(self).regs@[rs2 as int] & 0xffff_ffff == 0 { sext32(old(self).regs@[rs1 as int]) } else { sext32((old(self).regs@[rs1 as int] & 0xffff_ffff) % (old(self).regs@[rs2 as int] & 0xffff_ffff)) })),
            final(self).pc == old(self).pc,
            final(self).mode == old(self).mode,
            final(self).csr == old(self).csr,
            final(self).bus == old(self).bus,
    {
        let divisor = self.read_reg(rs2) & 0xffff_ffff;
        if divisor == 0 {
            let x = self.read_reg(rs1);
            let v = if x & 0x8000_0000 != 0 {
                (x & 0xffff_ffff) | 0xffff_ffff_0000_0000
            } else {
                x & 0xffff_ffff
            };
            self.write_reg(rd, v);
        } else {
            let s = (self.read_reg(rs1) & 0xffff_ffff) % divisor;
            let v = if s & 0x8000_0000 != 0 {
                (s & 0xffff_ffff) | 0xffff_ffff_0000_0000
            } else {
                s & 0xffff_ffff
            };
            self.write_reg(rd, v);
        }
    }

    /// `rd = rs1 << shamt` (shift amount from a register's low six bits).
    pub fn execute_sll(&mut self, rd: u64, rs1: u64, shamt: u64)
        requires
            old(self).wf(),
            rd < 32,
            rs1 < 32,
            shamt < 64,
        ensures
            final(self).wf(),
            final(self).regs@ == wr(old(self).regs@, rd, old(self).regs@[rs1 as int] << shamt),
            final(self).pc == old(self).pc,
            final(self).mode == old(self).mode,
            final(self).csr == old(self).csr,
            final(self).bus == old(self).bus,
    {
        let v = self.read_reg(rs1) << shamt;
        self.write_reg(rd, v);
    }

    /// `rd = rs1 >> shamt`, logical.
    pub fn execute_srl(&mut self, rd: u64, rs1: u64, shamt: u64)
        requires
            old(self).wf(),
            rd < 32,
            rs1 < 32,
            shamt < 64,
        ensures
            final(self).wf(),
            final(self).regs@ == wr(old(self).regs@, rd, old(self).regs@[rs1 as int] >> shamt),
            final(self).pc == old(self).pc,
            final(self).mode == old(self).mode,
            final(self).csr == old(self).csr,
            final(self).bus == old(self).bus,
    {
        let v = self.read_reg(rs1) >> shamt;
        self.write_reg(rd, v);
    }

    /// `rd = rs1 >> shamt`, arithmetic.
    pub fn execute_sra(&mut self, rd: u64, rs1: u64, shamt: u64)
        requires
            old(self).wf(),
            rd < 32,
            rs1 < 32,
            shamt < 64,
        ensures
            final(self).wf(),
            final(self).regs@ == wr(old(self).regs@, rd, sra64(old(self).regs@[rs1 as int], shamt)),
            final(self).pc == old(self).pc,
            final(self).mode == old(self).mode,
            final(self).csr == old(self).csr,
            final(self).bus == old(self).bus,
    {
        let x = self.read_reg(rs1);
        let v = if x & 0x8000_0000_0000_0000 != 0 {
            !((!x) >> shamt)
        } else {
            x >> shamt
        };
        self.write_reg(rd, v);
    }

    /// `rd = rs1 << shamt` on 32 bits, sign-extended.
    pub fn execute_sllw(&mut self, rd: u64, rs1: u64, shamt: u64)
        requires
            old(self).wf(),
            rd < 32,
            rs1 < 32,
            shamt < 32,
        ensures
            final(self).wf(),
            final(self).regs@ == wr(old(self).regs@, rd, sext32((old(self).regs@[rs1 as int] & 0xffff_ffff) << shamt)),
            final(self).pc == old(self).pc,
            final(self).mode == old(self).mode,
            final(self).csr == old(self).csr,
            final(self).bus == old(self).bus,
    {
        let s = (self.read_reg(rs1) & 0xffff_ffff) << shamt;
        let v = if s & 0x8000_0000 != 0 {
            (s & 0xffff_ffff) | 0xffff_ffff_0000_0000
        } else {
            s & 0xffff_ffff
        };
        self.write_reg(rd, v);
    }

    /// `rd = (rs1 as 32 bits) >> shamt`, logical, sign-extended.
    pub fn execute_srlw(&mut self, rd: u64, rs1: u64, shamt: u64)
        requires
            old(self).wf(),
            rd < 32,
            rs1 < 32,
            shamt < 32,
        ensures
            final(self).wf(),
            final(self).regs@ == wr(old(self).regs@, rd, sext32((old(self).regs@[rs1 as int] & 0xffff_ffff) >> shamt)),
            final(self).pc == old(self).pc,
            final(self).mode == old(self).mode,
            final(self).csr == old(self).csr,
            final(self).bus == old(self).bus,
    {
        let s = (self.read_reg(rs1) & 0xffff_ffff) >> shamt;
        let v = if s & 0x8000_0000 != 0 {
            (s & 0xffff_ffff) | 0xffff_ffff_0000_0000
        } else {
            s & 0xffff_ffff
        };
        self.write_reg(rd, v);
    }

    /// `rd = (rs1 as 32 bits) >> shamt`, arithmetic, sign-extended.
    pub fn execute_sraw(&mut self, rd: u64, rs1: u64, shamt: u64)
        requires
            old(self).wf(),
            rd < 32,
            rs1 < 32,
            shamt < 32,
        ensures
            final(self).wf(),
            final(self).regs@ == wr(old(self).regs@, rd, sext32(sra32(old(self).regs@[rs1 as int], shamt))),
            final(self).pc == old(self).pc,
            final(self).mode == old(self).mode,
            final(self).csr == old(self).csr,
            final(self).bus == old(self).bus,
    {
        let x = self.read_reg(rs1);
        let s = if x & 0x8000_0000 != 0 {
            (!((!x & 0xffff_ffff) >> shamt)) & 0xffff_ffff
        } else {
            (x & 0xffff_ffff) >> shamt
        };
        let v = if s & 0x8000_0000 != 0 {
            (s & 0xffff_ffff) | 0xffff_ffff_0000_0000
        } else {
            s & 0xffff_ffff
        };
        self.write_reg(rd, v);
    }

    /// `rd = imm` (the U-form immediate, already shifted and sign-extended).
    pub fn execute_lui(&mut self, inst: u64, rd: u64)
        requires
            old(self).wf(),
            rd < 32,
        ensures
            final(self).wf(),
            final(self).regs@ == wr(old(self).regs@, rd, crate::cpu::imm_u_of(inst)),
            final(self).pc == old(self).pc,
            final(self).mode == old(self).mode,
            final(self).csr == old(self).csr,
            final(self).bus == old(self).bus,
    {
        let v = if inst & 0x8000_0000 != 0 {
            (inst & 0xffff_f000) | 0xffff_ffff_0000_0000
        } else {
            inst & 0xffff_f000
        };
        self.write_reg(rd, v);
    }

    /// `rd = pc + imm`, wrapping.
    pub fn execute_auipc(&mut self, rd: u64, imm: u64)
        requires
            old(self).wf(),
            rd < 32,
        ensures
            final(self).wf(),
            final(self).regs@ == wr(old(self).regs@, rd, wadd(old(self).pc, imm)),
            final(self).pc == old(self).pc,
            final(self).mode == old(self).mode,
            final(self).csr == old(self).csr,
            final(self).bus == old(self).bus,
    {
        let v = self.pc.wrapping_add(imm);
        self.write_reg(rd, v);
    }

    /// `rd = pc + 4`; `pc = pc + imm`, both wrapping.
    pub fn execute_jal(&mut self, rd: u64, imm: u64)
        requires
            old(self).wf(),
            rd < 32,
        ensures
            final(self).wf(),
            final(self).regs@ == wr(old(self).regs@, rd, wadd(old(self).pc, 4)),
            final(self).pc == wadd(old(self).pc, imm),
            final(self).mode == old(self).mode,
            final(self).csr == old(self).csr,
            final(self).bus == old(self).bus,
    {
        let v = self.pc.wrapping_add(4);
        self.write_reg(rd, v);
        self.pc = self.pc.wrapping_add(imm);
    }

    /// `rd = pc + 4`; `pc = (rs1 + imm) & !1`, both wrapping.
    pub fn execute_jalr(&mut self, rd: u64, rs1: u64, imm: u64)
        requires
            old(self).wf(),
            rd < 32,
            rs1 < 32,
        ensures
            final(self).wf(),
            final(self).regs@ == wr(old(self).regs@, rd, wadd(old(self).pc, 4)),
            final(self).pc == wadd(old(self).regs@[rs1 as int], imm) & 0xffff_ffff_ffff_fffe,
            final(self).mode == old(self).mode,
            final(self).csr == old(self).csr,
            final(self).bus == old(self).bus,
    {
        let t = self.pc;
        self.pc = self.read_reg(rs1).wrapping_add(imm) & 0xffff_ffff_ffff_fffe;
        let v = t.wrapping_add(4);
        self.write_reg(rd, v);
    }

    /// Branch when `rs1 == rs2`. The result is what the driver adds to `pc`: zero on a
    /// taken branch (`pc` was just set), four otherwise.
    pub fn execute_beq(&mut self, rs1: u64, rs2: u64, imm: u64) -> (r: u64)
        requires
            old(self).wf(),
            rs1 < 32,
            rs2 < 32,
        ensures
            final(self).wf(),
            final(self).regs == old(self).regs,
            final(self).mode == old(self).mode,
            final(self).csr == old(self).csr,
            final(self).bus == old(self).bus,
            if old(self).regs@[rs1 as int] == old(self).regs@[rs2 as int] {
                final(self).pc == wadd(old(self).pc, imm) && r == 0
            } else {
                final(self).pc == old(self).pc && r == 4
            },
    {
        if self.read_reg(rs1) == self.read_reg(rs2) {
            self.pc = self.pc.wrapping_add(imm);
            return 0;
        }
        4
    }

    /// Branch when `rs1 != rs2`. The result is what the driver adds to `pc`: zero on a
    /// taken branch (`pc` was just set), four otherwise.
    pub fn execute_bne(&mut self, rs1: u64, rs2: u64, imm: u64) -> (r: u64)
        requires
            old(self).wf(),
            rs1 < 32,
            rs2 < 32,
        ensures
            final(self).wf(),
            final(self).regs == old(self).regs,
            final(self).mode == old(self).mode,
            final(self).csr == old(self).csr,
            final(self).bus == old(self).bus,
            if old(self).regs@[rs1 as int] != old(self).regs@[rs2 as int] {
                final(self).pc == wadd(old(self).pc, imm) && r == 0
            } else {
                final(self).pc == old(self).pc && r == 4
            },
    {
        if self.read_reg(rs1) != self.read_reg(rs2) {
            self.pc = self.pc.wrapping_add(imm);
            return 0;
        }
        4
    }

    /// Branch when `rs1 < rs2` as signed values. The result is what the driver adds to `pc`: zero on a
    /// taken branch (`pc` was just set), four otherwise.
    pub fn execute_blt(&mut self, rs1: u64, rs2: u64, imm: u64) -> (r: u64)
        requires
            old(self).wf(),
            rs1 < 32,
            rs2 < 32,
        ensures
            final(self).wf(),
            final(self).regs == old(self).regs,
            final(self).mode == old(self).mode,
            final(self).csr == old(self).csr,
            final(self).bus == old(self).bus,
            if signed_lt(old(self).regs@[rs1 as int], old(self).regs@[rs2 as int]) {
                final(self).pc == wadd(old(self).pc, imm) && r == 0
            } else {
                final(self).pc == old(self).pc && r == 4
            },
    {
        if signed_less_than(self.read_reg(rs1), self.read_reg(rs2)) {
            self.pc = self.pc.wrapping_add(imm);
            return 0;
        }
        4
    }

    /// Branch when `rs1 >= rs2` as signed values. The result is what the driver adds to `pc`: zero on a
    /// taken branch (`pc` was just set), four otherwise.
    pub fn execute_bge(&mut self, rs1: u64, rs2: u64, imm: u64) -> (r: u64)
        requires
            old(self).wf(),
            rs1 < 32,
            rs2 < 32,
        ensures
            final(self).wf(),
            final(self).regs == old(self).regs,
            final(self).mode == old(self).mode,
            final(self).csr == old(self).csr,
            final(self).bus == old(self).bus,
            if !signed_lt(old(self).regs@[rs1 as int], old(self).regs@[rs2 as int]) {
                final(self).pc == wadd(old(self).pc, imm) && r == 0
            } else {
                final(self).pc == old(self).pc && r == 4
            },
    {
        if !signed_less_than(self.read_reg(rs1), self.read_reg(rs2)) {
            self.pc = self.pc.wrapping_add(imm);
            return 0;
        }
        4
    }

    /// Branch when `rs1 < rs2` as unsigned values. The result is what the driver adds to `pc`: zero on a
    /// taken branch (`pc` was just set), four otherwise.
    pub fn execute_bltu(&mut self, rs1: u64, rs2: u64, imm: u64) -> (r: u64)
        requires
            old(self).wf(),
            rs1 < 32,
            rs2 < 32,
        ensures
            final(self).wf(),
            final(self).regs == old(self).regs,
            final(self).mode == old(self).mode,
            final(self).csr == old(self).csr,
            final(self).bus == old(self).bus,
            if old(self).regs@[rs1 as int] < old(self).regs@[rs2 as int] {
                final(self).pc == wadd(old(self).pc, imm) && r == 0
            } else {
                final(self).pc == old(self).pc && r == 4
            },
    {
        if self.read_reg(rs1) < self.read_reg(rs2) {
            self.pc = self.pc.wrapping_add(imm);
            return 0;
        }
        4
    }

    /// Branch when `rs1 >= rs2` as unsigned values. The result is what the driver adds to `pc`: zero on a
    /// taken branch (`pc` was just set), four otherwise.
    pub fn execute_bgeu(&mut self, rs1: u64, rs2: u64, imm: u64) -> (r: u64)
        requires
            old(self).wf(),
            rs1 < 32,
            rs2 < 32,
        ensures
            final(self).wf(),
            final(self).regs == old(self).regs,
            final(self).mode == old(self).mode,
            final(self).csr == old(self).csr,
            final(self).bus == old(self).bus,
            if old(self).regs@[rs1 as int] >= old(self).regs@[rs2 as int] {
                final(self).pc == wadd(old(self).pc, imm) && r == 0
            } else {
                final(self).pc == old(self).pc && r == 4
            },
    {
        if self.read_reg(rs1) >= self.read_reg(rs2) {
            self.pc = self.pc.wrapping_add(imm);
            return 0;
        }
        4
    }

    /// Load a byte at `addr`, sign-extended into `rd`.
    pub fn execute_lb(&mut self, addr: u64, rd: u64, now: u64) -> (r: Result<(), Exception>)
        requires
            old(self).wf(),
            rd < 32,
        ensures
            final(self).wf(),
            final(self).pc == old(self).pc,
            final(self).mode == old(self).mode,
            final(self).csr == old(self).csr,
            Bus::load_state_rel(old(self).bus, addr, 8, final(self).bus),
            match old(self).bus.spec_load_result(addr, 8, now) {
                Ok(v) => r == Ok::<(), Exception>(()) && final(self).regs@ == wr(
                    old(self).regs@,
                    rd,
                    sext8(v),
                ),
                Err(e) => r == Err::<(), Exception>(e) && final(self).regs == old(self).regs,
            },
    {
        let val = self.load(addr, 8, now)?;
        let v = if val & 0x80 != 0 {
            (val & 0xff) | 0xffff_ffff_ffff_ff00
        } else {
            val & 0xff
        };
        self.write_reg(rd, v);
        Ok(())
    }

    /// Load a halfword at `addr`, sign-extended into `rd`.
    pub fn execute_lh(&mut self, addr: u64, rd: u64, now: u64) -> (r: Result<(), Exception>)
        requires
            old(self).wf(),
            rd < 32,
        ensures
            final(self).wf(),
            final(self).pc == old(self).pc,
            final(self).mode == old(self).mode,
            final(self).csr == old(self).csr,
            Bus::load_state_rel(old(self).bus, addr, 16, final(self).bus),
            match old(self).bus.spec_load_result(addr, 16, now) {
                Ok(v) => r == Ok::<(), Exception>(()) && final(self).regs@ == wr(
                    old(self).regs@,
                    rd,
                    sext16(v),
                ),
                Err(e) => r == Err::<(), Exception>(e) && final(self).regs == old(self).regs,
            },
    {
        let val = self.load(addr, 16, now)?;
        let v = if val & 0x8000 != 0 {
            (val & 0xffff) | 0xffff_ffff_ffff_0000
        } else {
            val & 0xffff
        };
        self.write_reg(rd, v);
        Ok(())
    }

    /// Load a word at `addr`, sign-extended into `rd`.
    pub fn execute_lw(&mut self, addr: u64, rd: u64, now: u64) -> (r: Result<(), Exception>)
        requires
            old(self).wf(),
            rd < 32,
        ensures
            final(self).wf(),
            final(self).pc == old(self).pc,
            final(self).mode == old(self).mode,
            final(self).csr == old(self).csr,
            Bus::load_state_rel(old(self).bus, addr, 32, final(self).bus),
            match old(self).bus.spec_load_result(addr, 32, now) {
                Ok(v) => r == Ok::<(), Exception>(()) && final(self).regs@ == wr(
                    old(self).regs@,
                    rd,
                    sext32(v),
                ),
                Err(e) => r == Err::<(), Exception>(e) && final(self).regs == old(self).regs,
            },
    {
        let val = self.load(addr, 32, now)?;
        let v = if val & 0x8000_0000 != 0 {
            (val & 0xffff_ffff) | 0xffff_ffff_0000_0000
        } else {
            val & 0xffff_ffff
        };
        self.write_reg(rd, v);
        Ok(())
    }

    /// Load a doubleword at `addr` into `rd`.
    pub fn execute_ld(&mut self, addr: u64, rd: u64, now: u64) -> (r: Result<(), Exception>)
        requires
            old(self).wf(),
            rd < 32,
        ensures
            final(self).wf(),
            final(self).pc == old(self).pc,
            final(self).mode == old(self).mode,
            final(self).csr == old(self).csr,
            Bus::load_state_rel(old(self).bus, addr, 64, final(self).bus),
            match old(self).bus.spec_load_result(addr, 64, now) {
                Ok(v) => r == Ok::<(), Exception>(()) && final(self).regs@ == wr(
                    old(self).regs@,
                    rd,
                    v,
                ),
                Err(e) => r == Err::<(), Exception>(e) && final(self).regs == old(self).regs,
            },
    {
        let val = self.load(addr, 64, now)?;
        self.write_reg(rd, val);
        Ok(())
    }

    /// Load a byte at `addr`, zero-extended into `rd`.
    pub fn execute_lbu(&mut self, addr: u64, rd: u64, now: u64) -> (r: Result<(), Exception>)
        requires
            old(self).wf(),
            rd < 32,
        ensures
            final(self).wf(),
            final(self).pc == old(self).pc,
            final(self).mode == old(self).mode,
            final(self).csr == old(self).csr,
            Bus::load_state_rel(old(self).bus, addr, 8, final(self).bus),
            match old(self).bus.spec_load_result(addr, 8, now) {
                Ok(v) => r == Ok::<(), Exception>(()) && final(self).regs@ == wr(
                    old(self).regs@,
                    rd,
                    v,
                ),
                Err(e) => r == Err::<(), Exception>(e) && final(self).regs == old(self).regs,
            },
    {
        let val = self.load(addr, 8, now)?;
        self.write_reg(rd, val);
        Ok(())
    }

    /// Load a halfword at `addr`, zero-extended into `rd`.
    pub fn execute_lhu(&mut self, addr: u64, rd: u64, now: u64) -> (r: Result<(), Exception>)
        requires
            old(self).wf(),
            rd < 32,
        ensures
            final(self).wf(),
            final(self).pc == old(self).pc,
            final(self).mode == old(self).mode,
            final(self).csr == old(self).csr,
            Bus::load_state_rel(old(self).bus, addr, 16, final(self).bus),
            match old(self).bus.spec_load_result(addr, 16, now) {
                Ok(v) => r == Ok::<(), Exception>(()) && final(self).regs@ == wr(
                    old(self).regs@,
                    rd,
                    v,
                ),
                Err(e) => r == Err::<(), Exception>(e) && final(self).regs == old(self).regs,
            },
    {
        let val = self.load(addr, 16, now)?;
        self.write_reg(rd, val);
        Ok(())
    }

    /// Load a word at `addr`, zero-extended into `rd`.
    pub fn execute_lwu(&mut self, addr: u64, rd: u64, now: u64) -> (r: Result<(), Exception>)
        requires
            old(self).wf(),
            rd < 32,
        ensures
            final(self).wf(),
            final(self).pc == old(self).pc,
            final(self).mode == old(self).mode,
            final(self).csr == old(self).csr,
            Bus::load_state_rel(old(self).bus, addr, 32, final(self).bus),
            match old(self).bus.spec_load_result(addr, 32, now) {
                Ok(v) => r == Ok::<(), Exception>(()) && final(self).regs@ == wr(
                    old(self).regs@,
                    rd,
                    v,
                ),
                Err(e) => r == Err::<(), Exception>(e) && final(self).regs == old(self).regs,
            },
    {
        let val = self.load(addr, 32, now)?;
        self.write_reg(rd, val);
        Ok(())
    }

    /// Store the low byte of `rs2` at `addr`.
    pub fn execute_sb(&mut self, addr: u64, rs2: u64, now: u64) -> (r: Result<(), Exception>)
        requires
            old(self).wf(),
            rs2 < 32,
        ensures
            final(self).wf(),
            final(self).regs == old(self).regs,
            final(self).pc == old(self).pc,
            final(self).mode == old(self).mode,
            final(self).csr == old(self).csr,
            Bus::store_state_rel(
                old(self).bus,
                addr,
                8,
                old(self).regs@[rs2 as int],
                now,
                final(self).bus,
            ),
            r == old(self).bus.spec_store_result(addr, 8, old(self).regs@[rs2 as int]),
    {
        let v = self.read_reg(rs2);
        self.store(addr, 8, v, now)?;
        Ok(())
    }

    /// Store the low halfword of `rs2` at `addr`.
    pub fn execute_sh(&mut self, addr: u64, rs2: u64, now: u64) -> (r: Result<(), Exception>)
        requires
            old(self).wf(),
            rs2 < 32,
        ensures
            final(self).wf(),
            final(self).regs == old(self).regs,
            final(self).pc == old(self).pc,
            final(self).mode == old(self).mode,
            final(self).csr == old(self).csr,
            Bus::store_state_rel(
                old(self).bus,
                addr,
                16,
                old(self).regs@[rs2 as int],
                now,
                final(self).bus,
            ),
            r == old(self).bus.spec_store_result(addr, 16, old(self).regs@[rs2 as int]),
    {
        let v = self.read_reg(rs2);
        self.store(addr, 16, v, now)?;
        Ok(())
    }

    /// Store the low word of `rs2` at `addr`.
    pub fn execute_sw(&mut self, addr: u64, rs2: u64, now: u64) -> (r: Result<(), Exception>)
        requires
            old(self).wf(),
            rs2 < 32,
        ensures
            final(self).wf(),
            final(self).regs == old(self).regs,
            final(self).pc == old(self).pc,
            final(self).mode == old(self).mode,
            final(self).csr == old(self).csr,
            Bus::store_state_rel(
                old(self).bus,
                addr,
                32,
                old(self).regs@[rs2 as int],
                now,
                final(self).bus,
            ),
            r == old(self).bus.spec_store_result(addr, 32, old(self).regs@[rs2 as int]),
    {
        let v = self.read_reg(rs2);
        self.store(addr, 32, v, now)?;
        Ok(())
    }

    /// Store `rs2` whole at `addr`.
    pub fn execute_sd(&mut self, addr: u64, rs2: u64, now: u64) -> (r: Result<(), Exception>)
        requires
            old(self).wf(),
            rs2 < 32,
        ensures
            final(self).wf(),
            final(self).regs == old(self).regs,
            final(self).pc == old(self).pc,
            final(self).mode == old(self).mode,
            final(self).csr == old(self).csr,
            Bus::store_state_rel(
                old(self).bus,
                addr,
                64,
                old(self).regs@[rs2 as int],
                now,
                final(self).bus,
            ),
            r == old(self).bus.spec_store_result(addr, 64, old(self).regs@[rs2 as int]),
    {
        let v = self.read_reg(rs2);
        self.store(addr, 64, v, now)?;
        Ok(())
    }

    /// Atomic read/write: `rd` takes the old CSR value, the CSR takes `rs1` (a read with `rd = x0` has no register effect).
    pub fn execute_csrrw(&mut self, csr_addr: u64, rd: u64, rs1: u64)
        requires
            old(self).wf(),
            csr_addr < crate::csr::NUM_CSRS,
            rd < 32,
            rs1 < 32,
        ensures
            final(self).wf(),
            final(self).csr@ == old(self).csr@.update(csr_addr as int, old(self).regs@[rs1 as int]),
            final(self).regs@ == wr(old(self).regs@, rd, old(self).csr@[csr_addr as int]),
            final(self).pc == old(self).pc,
            final(self).mode == old(self).mode,
            final(self).bus == old(self).bus,
    {
        let t = self.csr.load(csr_addr);
        let v = self.read_reg(rs1);
        self.csr.store(csr_addr, v);
        self.write_reg(rd, t);
    }

    /// Atomic read and set bits: `rd` takes the old CSR value, the CSR takes its old value with the bits of `rs1` set.
    pub fn execute_csrrs(&mut self, csr_addr: u64, rd: u64, rs1: u64)
        requires
            old(self).wf(),
            csr_addr < crate::csr::NUM_CSRS,
            rd < 32,
            rs1 < 32,
        ensures
            final(self).wf(),
            final(self).csr@ == old(self).csr@.update(csr_addr as int, old(self).csr@[csr_addr as int] | old(self).regs@[rs1 as int]),
            final(self).regs@ == wr(old(self).regs@, rd, old(self).csr@[csr_addr as int]),
            final(self).pc == old(self).pc,
            final(self).mode == old(self).mode,
            final(self).bus == old(self).bus,
    {
        let t = self.csr.load(csr_addr);
        let v = t | self.read_reg(rs1);
        self.csr.store(csr_addr, v);
        self.write_reg(rd, t);
    }

    /// Atomic read and clear bits: `rd` takes the old CSR value, the CSR takes its old value with the bits of `rs1` cleared.
    pub fn execute_csrrc(&mut self, csr_addr: u64, rd: u64, rs1: u64)
        requires
            old(self).wf(),
            csr_addr < crate::csr::NUM_CSRS,
            rd < 32,
            rs1 < 32,
        ensures
            final(self).wf(),
            final(self).csr@ == old(self).csr@.update(csr_addr as int, old(self).csr@[csr_addr as int] & !old(self).regs@[rs1 as int]),
            final(self).regs@ == wr(old(self).regs@, rd, old(self).csr@[csr_addr as int]),
            final(self).pc == old(self).pc,
            final(self).mode == old(self).mode,
            final(self).bus == old(self).bus,
    {
        let t = self.csr.load(csr_addr);
        let v = t & !self.read_reg(rs1);
        self.csr.store(csr_addr, v);
        self.write_reg(rd, t);
    }

    /// As `csrrw` with the five-bit immediate for the source.
    pub fn execute_csrrwi(&mut self, csr_addr: u64, rd: u64, uimm: u64)
        requires
            old(self).wf(),
            csr_addr < crate::csr::NUM_CSRS,
            rd < 32,
            
        ensures
            final(self).wf(),
            final(self).csr@ == old(self).csr@.update(csr_addr as int, uimm),
            final(self).regs@ == wr(old(self).regs@, rd, old(self).csr@[csr_addr as int]),
            final(self).pc == old(self).pc,
            final(self).mode == old(self).mode,
            final(self).bus == old(self).bus,
    {
        let t = self.csr.load(csr_addr);
        let v = uimm;
        self.csr.store(csr_addr, v);
        self.write_reg(rd, t);
    }

    /// As `csrrs` with the five-bit immediate for the mask.
    pub fn execute_csrrsi(&mut self, csr_addr: u64, rd: u64, uimm: u64)
        requires
            old(self).wf(),
            csr_addr < crate::csr::NUM_CSRS,
            rd < 32,
            
        ensures
            final(self).wf(),
            final(self).csr@ == old(self).csr@.update(csr_addr as int, old(self).csr@[csr_addr as int] | uimm),
            final(self).regs@ == wr(old(self).regs@, rd, old(self).csr@[csr_addr as int]),
            final(self).pc == old(self).pc,
            final(self).mode == old(self).mode,
            final(self).bus == old(self).bus,
    {
        let t = self.csr.load(csr_addr);
        let v = t | uimm;
        self.csr.store(csr_addr, v);
        self.write_reg(rd, t);
    }

    /// As `csrrc` with the five-bit immediate for the mask.
    pub fn execute_csrrci(&mut self, csr_addr: u64, rd: u64, uimm: u64)
        requires
            old(self).wf(),
            csr_addr < crate::csr::NUM_CSRS,
            rd < 32,
            
        ensures
            final(self).wf(),
            final(self).csr@ == old(self).csr@.update(csr_addr as int, old(self).csr@[csr_addr as int] & !uimm),
            final(self).regs@ == wr(old(self).regs@, rd, old(self).csr@[csr_addr as int]),
            final(self).pc == old(self).pc,
            final(self).mode == old(self).mode,
            final(self).bus == old(self).bus,
    {
        let t = self.csr.load(csr_addr);
        let v = t & !uimm;
        self.csr.store(csr_addr, v);
        self.write_reg(rd, t);
    }

    /// Memory ordering is trivial on a single in-order hart: nothing to do.
    pub fn execute_fence(&mut self)
        ensures
            *final(self) == *old(self),
    {
    }

    /// Address-translation fences are trivial without paging: nothing to do.
    pub fn execute_sfence_vma(&mut self)
        ensures
            *final(self) == *old(self),
    {
    }

    /// An environment call traps with the cause of the current mode and
    /// the program counter as the trap value.
    pub fn execute_ecall(&mut self) -> (r: Result<(), Exception>)
        ensures
            *final(self) == *old(self),
            r == Err::<(), Exception>(
                match old(self).mode {
                    Mode::User => Exception::EnvironmentCallFromUMode(old(self).pc),
                    Mode::Supervisor => Exception::EnvironmentCallFromSMode(old(self).pc),
                    Mode::Machine => Exception::EnvironmentCallFromMMode(old(self).pc),
                },
            ),
    {
        match self.mode {
            Mode::User => Err(Exception::EnvironmentCallFromUMode(self.pc)),
            Mode::Supervisor => Err(Exception::EnvironmentCallFromSMode(self.pc)),
            Mode::Machine => Err(Exception::EnvironmentCallFromMMode(self.pc)),
        }
    }

    /// A breakpoint traps with the program counter as the trap value.
    pub fn execute_ebreak(&mut self) -> (r: Result<(), Exception>)
        ensures
            *final(self) == *old(self),
            r == Err::<(), Exception>(Exception::Breakpoint(old(self).pc)),
    {
        Err(Exception::Breakpoint(self.pc))
    }

    /// Atomically load a word at `rs1`, store `rs2` there, and return the original into `rd`.
    pub fn execute_amoswap_w(&mut self, rd: u64, rs1: u64, rs2: u64, now: u64) -> (r: Result<
        (),
        Exception,
    >)
        requires
            old(self).wf(),
            rd < 32,
            rs1 < 32,
            rs2 < 32,
        ensures
            final(self).wf(),
            final(self).pc == old(self).pc,
            final(self).mode == old(self).mode,
            final(self).csr == old(self).csr,
            exists|mid: Bus|
                {
                    &&& Bus::load_state_rel(
                        old(self).bus,
                        old(self).regs@[rs1 as int],
                        32,
                        mid,
                    )
                    &&& match old(self).bus.spec_load_result(
                        old(self).regs@[rs1 as int],
                        32,
                        now,
                    ) {
                        Ok(t) => {
                            &&& Bus::store_state_rel(
                                mid,
                                old(self).regs@[rs1 as int],
                                32,
                                old(self).regs@[rs2 as int],
                                now,
                                final(self).bus,
                            )
                            &&& match mid.spec_store_result(
                                old(self).regs@[rs1 as int],
                                32,
                                old(self).regs@[rs2 as int],
                            ) {
                                Ok(u) => r == Ok::<(), Exception>(()) && final(self).regs@ == wr(
                                    old(self).regs@,
                                    rd,
                                    t,
                                ),
                                Err(e) => r == Err::<(), Exception>(e) && final(self).regs
                                    == old(self).regs,
                            }
                        },
                        Err(e) => {
                            &&& final(self).bus == mid
                            &&& r == Err::<(), Exception>(e)
                            &&& final(self).regs == old(self).regs
                        },
                    }
                },
    {
        let addr = self.read_reg(rs1);
        let t = self.load(addr, 32, now)?;
        let ghost mid = self.bus;
        let sv = self.read_reg(rs2);
        self.store(addr, 32, sv, now)?;
        self.write_reg(rd, t);
        Ok(())
    }

    /// Atomically load a word at `rs1`, store the wrapping sum with `rs2`, and return the original into `rd`.
    pub fn execute_amoadd_w(&mut self, rd: u64, rs1: u64, rs2: u64, now: u64) -> (r: Result<
        (),
        Exception,
    >)
        requires
            old(self).wf(),
            rd < 32,
            rs1 < 32,
            rs2 < 32,
        ensures
            final(self).wf(),
            final(self).pc == old(self).pc,
            final(self).mode == old(self).mode,
            final(self).csr == old(self).csr,
            exists|mid: Bus|
                {
                    &&& Bus::load_state_rel(
                        old(self).bus,
                        old(self).regs@[rs1 as int],
                        32,
                        mid,
                    )
                    &&& match old(self).bus.spec_load_result(
                        old(self).regs@[rs1 as int],
                        32,
                        now,
                    ) {
                        Ok(t) => {
                            &&& Bus::store_state_rel(
                                mid,
                                old(self).regs@[rs1 as int],
                                32,
                                wadd(t, old(self).regs@[rs2 as int]),
                                now,
                                final(self).bus,
                            )
                            &&& match mid.spec_store_result(
                                old(self).regs@[rs1 as int],
                                32,
                                wadd(t, old(self).regs@[rs2 as int]),
                            ) {
                                Ok(u) => r == Ok::<(), Exception>(()) && final(self).regs@ == wr(
                                    old(self).regs@,
                                    rd,
                                    t,
                                ),
                                Err(e) => r == Err::<(), Exception>(e) && final(self).regs
                                    == old(self).regs,
                            }
                        },
                        Err(e) => {
                            &&& final(self).bus == mid
                            &&& r == Err::<(), Exception>(e)
                            &&& final(self).regs == old(self).regs
                        },
                    }
                },
    {
        let addr = self.read_reg(rs1);
        let t = self.load(addr, 32, now)?;
        let ghost mid = self.bus;
        let sv = t.wrapping_add(self.read_reg(rs2));
        self.store(addr, 32, sv, now)?;
        self.write_reg(rd, t);
        Ok(())
    }

    /// Atomically load a doubleword at `rs1`, store `rs2` there, and return the original into `rd`.
    pub fn execute_amoswap_d(&mut self, rd: u64, rs1: u64, rs2: u64, now: u64) -> (r: Result<
        (),
        Exception,
    >)
        requires
            old(self).wf(),
            rd < 32,
            rs1 < 32,
            rs2 < 32,
        ensures
            final(self).wf(),
            final(self).pc == old(self).pc,
            final(self).mode == old(self).mode,
            final(self).csr == old(self).csr,
            exists|mid: Bus|
                {
                    &&& Bus::load_state_rel(
                        old(self).bus,
                        old(self).regs@[rs1 as int],
                        64,
                        mid,
                    )
                    &&& match old(self).bus.spec_load_result(
                        old(self).regs@[rs1 as int],
                        64,
                        now,
                    ) {
                        Ok(t) => {
                            &&& Bus::store_state_rel(
                                mid,
                                old(self).regs@[rs1 as int],
                                64,
                                old(self).regs@[rs2 as int],
                                now,
                                final(self).bus,
                            )
                            &&& match mid.spec_store_result(
                                old(self).regs@[rs1 as int],
                                64,
                                old(self).regs@[rs2 as int],
                            ) {
                                Ok(u) => r == Ok::<(), Exception>(()) && final(self).regs@ == wr(
                                    old(self).regs@,
                                    rd,
                                    t,
                                ),
                                Err(e) => r == Err::<(), Exception>(e) && final(self).regs
                                    == old(self).regs,
                            }
                        },
                        Err(e) => {
                            &&& final(self).bus == mid
                            &&& r == Err::<(), Exception>(e)
                            &&& final(self).regs == old(self).regs
                        },
                    }
                },
    {
        let addr = self.read_reg(rs1);
        let t = self.load(addr, 64, now)?;
        let ghost mid = self.bus;
        let sv = self.read_reg(rs2);
        self.store(addr, 64, sv, now)?;
        self.write_reg(rd, t);
        Ok(())
    }

    /// Atomically load a doubleword at `rs1`, store the wrapping sum with `rs2`, and return the original into `rd`.
    pub fn execute_amoadd_d(&mut self, rd: u64, rs1: u64, rs2: u64, now: u64) -> (r: Result<
        (),
        Exception,
    >)
        requires
            old(self).wf(),
            rd < 32,
            rs1 < 32,
            rs2 < 32,
        ensures
            final(self).wf(),
            final(self).pc == old(self).pc,
            final(self).mode == old(self).mode,
            final(self).csr == old(self).csr,
            exists|mid: Bus|
                {
                    &&& Bus::load_state_rel(
                        old(self).bus,
                        old(self).regs@[rs1 as int],
                        64,
                        mid,
                    )
                    &&& match old(self).bus.spec_load_result(
                        old(self).regs@[rs1 as int],
                        64,
                        now,
                    ) {
                        Ok(t) => {
                            &&& Bus::store_state_rel(
                                mid,
                                old(self).regs@[rs1 as int],
                                64,
                                wadd(t, old(self).regs@[rs2 as int]),
                                now,
                                final(self).bus,
                            )
                            &&& match mid.spec_store_result(
                                old(self).regs@[rs1 as int],
                                64,
                                wadd(t, old(self).regs@[rs2 as int]),
                            ) {
                                Ok(u) => r == Ok::<(), Exception>(()) && final(self).regs@ == wr(
                                    old(self).regs@,
                                    rd,
                                    t,
                                ),
                                Err(e) => r == Err::<(), Exception>(e) && final(self).regs
                                    == old(self).regs,
                            }
                        },
                        Err(e) => {
                            &&& final(self).bus == mid
                            &&& r == Err::<(), Exception>(e)
                            &&& final(self).regs == old(self).regs
                        },
                    }
                },
    {
        let addr = self.read_reg(rs1);
        let t = self.load(addr, 64, now)?;
        let ghost mid = self.bus;
        let sv = t.wrapping_add(self.read_reg(rs2));
        self.store(addr, 64, sv, now)?;
        self.write_reg(rd, t);
        Ok(())
    }

    /// Return from a supervisor trap: the mode comes from `sstatus.SPP`,
    /// `SIE` is restored from `SPIE`, `SPIE` is set, `SPP` is cleared to
    /// user, `mstatus.MPRV` is cleared, and control moves to `sepc`.
    pub fn execute_sret(&mut self)
        requires
            old(self).wf(),
        ensures
            final(self).wf(),
            final(self).regs == old(self).regs,
            final(self).bus == old(self).bus,
            final(self).mode == sret_mode(old(self).csr@[SSTATUS as int]),
            final(self).pc == old(self).csr@[SEPC as int],
            final(self).csr@ == old(self).csr@.update(
                MSTATUS as int,
                old(self).csr@[MSTATUS as int] & !0x20000,
            ).update(SSTATUS as int, sstatus_on_sret(old(self).csr@[SSTATUS as int])),
    {
        let sstatus = self.csr.load(SSTATUS);
        self.mode = if (sstatus >> 8) & 0b1 == 0 {
            Mode::User
        } else {
            Mode::Supervisor
        };
        let mstatus = self.csr.load(MSTATUS);
        self.csr.store(MSTATUS, mstatus & !0x20000);
        let a = sstatus & !0x100;
        let spie = (sstatus >> 5) & 0b1;
        let b = (a & !0x2) | (spie << 1);
        self.csr.store(SSTATUS, b | 0x20);
        self.pc = self.csr.load(SEPC);
    }

    /// Return from a machine trap: the mode comes from `mstatus.MPP`,
    /// `MIE` is restored from `MPIE`, `MPIE` is set, `MPP` is cleared to
    /// user, `MPRV` is cleared when not returning to machine mode, and
    /// control moves to `mepc`.
    pub fn execute_mret(&mut self)
        requires
            old(self).wf(),
        ensures
            final(self).wf(),
            final(self).regs == old(self).regs,
            final(self).bus == old(self).bus,
            final(self).mode == mret_mode(old(self).csr@[MSTATUS as int]),
            final(self).pc == old(self).csr@[MEPC as int],
            final(self).csr@ == old(self).csr@.update(
                MSTATUS as int,
                mstatus_on_mret(old(self).csr@[MSTATUS as int]),
            ),
    {
        let mstatus = self.csr.load(MSTATUS);
        let mpie = (mstatus >> 7) & 0b1;
        let with_mie = (mstatus & !0x8) | (mpie << 3);
        let mpp = (mstatus >> 11) & 0b11;
        let cleared;
        if mpp == 0b11 {
            self.mode = Mode::Machine;
            cleared = with_mie;
        } else if mpp == 0b01 {
            self.mode = Mode::Supervisor;
            cleared = with_mie & !0x20000;
        } else {
            self.mode = Mode::User;
            cleared = with_mie & !0x20000;
        }
        self.csr.store(MSTATUS, (cleared | 0x80) & !0x1800);
        self.pc = self.csr.load(MEPC);
    }
}

} // verus!
