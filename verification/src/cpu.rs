//! The hart: 32 general-purpose registers (index 0 wired to zero), the
//! program counter, the privilege mode, the CSR file and the bus. The
//! fetch-decode-execute driver, the trap machinery and the interrupt
//! arbitration live here; the per-mnemonic semantics live alongside in
//! their own module.

use vstd::prelude::*;

use crate::address::{
    DRAM_BASE, DRAM_SIZE, MCAUSE, MEDELEG, MEPC, MIDELEG, MIE, MIP, MSTATUS, MTVAL, MTVEC, SCAUSE,
    SEPC, SIE, SIP, SSTATUS, STVAL, STVEC,
};
use crate::bus::Bus;
use crate::clint::time_at;
use crate::csr::Csr;
use crate::exception::Exception;
use crate::interrupt::Interrupt;
use crate::plic::Plic;
use crate::uart::{set_pending_rel_holds, UART};

verus! {

/// Ticks per second of the platform timer.
pub const TIMER_FREQ: u64 = 10_000_000;

/// The privilege mode of the hart.
#[derive(Debug, Clone, Copy, PartialEq, Eq, Structural)]
pub enum Mode {
    User,
    Supervisor,
    Machine,
}

impl Mode {
    /// The two-bit encoding of the mode, as held in `mstatus.MPP`.
    pub open spec fn spec_code(self) -> u64 {
        match self {
            Mode::User => 0b00,
            Mode::Supervisor => 0b01,
            Mode::Machine => 0b11,
        }
    }

    #[verifier::when_used_as_spec(spec_code)]
    pub fn code(self) -> (r: u64)
        ensures
            r == self.spec_code(),
    {
        match self {
            Mode::User => 0b00,
            Mode::Supervisor => 0b01,
            Mode::Machine => 0b11,
        }
    }
}

/// The register file after writing `v` to register `rd`: register 0 is
/// wired to zero, so a write there changes nothing.
pub open spec fn wr(regs: Seq<u64>, rd: u64, v: u64) -> Seq<u64> {
    if rd == 0 {
        regs
    } else {
        regs.update(rd as int, v)
    }
}

/// Addition wrapping at sixty-four bits.
pub open spec fn wadd(a: u64, b: u64) -> u64 {
    vstd::wrapping::u64_specs::wrapping_add(a, b)
}

/// Subtraction wrapping at sixty-four bits.
pub open spec fn wsub(a: u64, b: u64) -> u64 {
    vstd::wrapping::u64_specs::wrapping_sub(a, b)
}

/// Multiplication wrapping at sixty-four bits.
pub open spec fn wmul(a: u64, b: u64) -> u64 {
    vstd::wrapping::u64_specs::wrapping_mul(a, b)
}

/// The destination register field, bits 11:7.
pub open spec fn rd_of(inst: u64) -> u64 {
    (inst >> 7) & 0x1f
}

/// The first source register field, bits 19:15.
pub open spec fn rs1_of(inst: u64) -> u64 {
    (inst >> 15) & 0x1f
}

/// The second source register field, bits 24:20.
pub open spec fn rs2_of(inst: u64) -> u64 {
    (inst >> 20) & 0x1f
}

/// The minor opcode field, bits 14:12.
pub open spec fn funct3_of(inst: u64) -> u64 {
    (inst >> 12) & 0x7
}

/// The major function field, bits 31:25.
pub open spec fn funct7_of(inst: u64) -> u64 {
    (inst >> 25) & 0x7f
}

/// The CSR number field, bits 31:20.
pub open spec fn csr_of(inst: u64) -> u64 {
    (inst >> 20) & 0xfff
}

/// The I-form immediate: bits 31:20, sign-extended from bit 11.
pub open spec fn imm_i_of(inst: u64) -> u64 {
    if (inst >> 20) & 0xfff >= 0x800 {
        ((inst >> 20) & 0xfff) | 0xffff_ffff_ffff_f000
    } else {
        (inst >> 20) & 0xfff
    }
}

/// The S-form immediate: bits 31:25 and 11:7, sign-extended from bit 11.
pub open spec fn imm_s_of(inst: u64) -> u64 {
    if (((inst >> 25) & 0x7f) << 5) | ((inst >> 7) & 0x1f) >= 0x800 {
        ((((inst >> 25) & 0x7f) << 5) | ((inst >> 7) & 0x1f)) | 0xffff_ffff_ffff_f000
    } else {
        (((inst >> 25) & 0x7f) << 5) | ((inst >> 7) & 0x1f)
    }
}

/// The B-form immediate: a 13-bit branch offset in multiples of two,
/// sign-extended from bit 12.
pub open spec fn imm_b_of(inst: u64) -> u64 {
    if inst & 0x8000_0000 != 0 {
        (((inst >> 7) & 0x1) << 11) | (((inst >> 25) & 0x3f) << 5) | (((inst >> 8) & 0xf) << 1)
            | 0xffff_ffff_ffff_f000
    } else {
        (((inst >> 7) & 0x1) << 11) | (((inst >> 25) & 0x3f) << 5) | (((inst >> 8) & 0xf) << 1)
    }
}

/// The U-form immediate: bits 31:12 shifted into place, sign-extended from
/// bit 31.
pub open spec fn imm_u_of(inst: u64) -> u64 {
    if inst & 0x8000_0000 != 0 {
        (inst & 0xffff_f000) | 0xffff_ffff_0000_0000
    } else {
        inst & 0xffff_f000
    }
}

/// The J-form immediate: a 21-bit jump offset in multiples of two,
/// sign-extended from bit 20.
pub open spec fn imm_j_of(inst: u64) -> u64 {
    if inst & 0x8000_0000 != 0 {
        (inst & 0xff000) | (((inst >> 20) & 0x1) << 11) | (((inst >> 21) & 0x3ff) << 1)
            | 0xffff_ffff_fff0_0000
    } else {
        (inst & 0xff000) | (((inst >> 20) & 0x1) << 11) | (((inst >> 21) & 0x3ff) << 1)
    }
}

/// An 8-bit value sign-extended to sixty-four bits.
pub open spec fn sext8(v: u64) -> u64 {
    if v & 0x80 != 0 {
        (v & 0xff) | 0xffff_ffff_ffff_ff00
    } else {
        v & 0xff
    }
}

/// A 16-bit value sign-extended to sixty-four bits.
pub open spec fn sext16(v: u64) -> u64 {
    if v & 0x8000 != 0 {
        (v & 0xffff) | 0xffff_ffff_ffff_0000
    } else {
        v & 0xffff
    }
}

/// A 32-bit value sign-extended to sixty-four bits.
pub open spec fn sext32(v: u64) -> u64 {
    if v & 0x8000_0000 != 0 {
        (v & 0xffff_ffff) | 0xffff_ffff_0000_0000
    } else {
        v & 0xffff_ffff
    }
}

/// The value of `v` read as a two's-complement signed integer.
pub open spec fn as_signed64(v: u64) -> int {
    if v < 0x8000_0000_0000_0000 {
        v as int
    } else {
        v as int - 0x1_0000_0000_0000_0000
    }
}

/// Signed comparison of two 64-bit register values.
pub open spec fn signed_lt(a: u64, b: u64) -> bool {
    as_signed64(a) < as_signed64(b)
}

/// Arithmetic right shift of a 64-bit value by `sh < 64`: the sign bit
/// fills from the left, which for a negative value is the complement of
/// the logical shift of the complement.
pub open spec fn sra64(v: u64, sh: u64) -> u64 {
    if v & 0x8000_0000_0000_0000 != 0 {
        !((!v) >> sh)
    } else {
        v >> sh
    }
}

/// Arithmetic right shift of the low 32 bits of `v` by `sh < 32`, within
/// 32 bits.
pub open spec fn sra32(v: u64, sh: u64) -> u64 {
    if v & 0x8000_0000 != 0 {
        (!((!v & 0xffff_ffff) >> sh)) & 0xffff_ffff
    } else {
        (v & 0xffff_ffff) >> sh
    }
}

/// The mode `mret` returns to, from `mstatus.MPP`; the reserved encoding
/// falls to user.
pub open spec fn mret_mode(m: u64) -> Mode {
    if (m >> 11) & 0b11 == 0b11 {
        Mode::Machine
    } else if (m >> 11) & 0b11 == 0b01 {
        Mode::Supervisor
    } else {
        Mode::User
    }
}

/// `mstatus` after `mret`: `MIE` restored from `MPIE`, `MPIE` set, `MPP`
/// cleared to user, and `MPRV` cleared when not returning to machine mode.
pub open spec fn mstatus_on_mret(m: u64) -> u64 {
    let with_mie = (m & !0x8) | (((m >> 7) & 0b1) << 3);
    let cleared = if (m >> 11) & 0b11 == 0b11 {
        with_mie
    } else {
        with_mie & !0x20000
    };
    (cleared | 0x80) & !0x1800
}

/// The mode `sret` returns to, from `sstatus.SPP`.
pub open spec fn sret_mode(s: u64) -> Mode {
    if (s >> 8) & 0b1 == 0 {
        Mode::User
    } else {
        Mode::Supervisor
    }
}

/// `sstatus` after `sret`: `SIE` restored from `SPIE`, `SPIE` set, `SPP`
/// cleared to user.
pub open spec fn sstatus_on_sret(s: u64) -> u64 {
    let a = s & !0x100;
    ((a & !0x2) | (((s >> 5) & 0b1) << 1)) | 0x20
}


/// `mstatus` on a trap into machine mode from `prev`: `MPIE` takes the old
/// `MIE`, `MIE` is cleared, `MPP` takes the previous mode.
pub open spec fn mstatus_on_trap(m: u64, prev: Mode) -> u64 {
    let cleared = (m & !0x8) & !0x80;
    let with_mpie = cleared | (((m >> 3) & 0b1) << 7);
    (with_mpie & !0x1800) | (prev.spec_code() << 11)
}

/// `sstatus` on a trap into supervisor mode from `prev`: `SPIE` takes the
/// old `SIE`, `SIE` is cleared, `SPP` takes the previous mode.
pub open spec fn sstatus_on_trap(s: u64, prev: Mode) -> u64 {
    let cleared = (s & !0x2) & !0x20;
    let with_spie = cleared | (((s >> 1) & 0b1) << 5);
    (with_spie & !0x100) | (prev.spec_code() << 8)
}

/// Whether an exception is delegated to supervisor mode: the hart is below
/// machine mode and the cause's bit is set in `medeleg`.
pub open spec fn exception_target_s(pre: Cpu, e: Exception) -> bool {
    pre.mode != Mode::Machine && (pre.csr@[MEDELEG as int] >> e.spec_code()) & 1 == 1
}

/// Trap entry for an exception: the trapping `pc` is saved in `mepc` or
/// `sepc`, the cause and the exception's payload are recorded, the status
/// register stacks the interrupt-enable and previous-mode fields, control
/// moves to the handler base (exceptions always use direct mode), and the
/// hart enters the target mode.
pub open spec fn exception_rel(pre: Cpu, e: Exception, post: Cpu) -> bool {
    &&& post.regs == pre.regs
    &&& post.bus == pre.bus
    &&& if exception_target_s(pre, e) {
        &&& post.mode == Mode::Supervisor
        &&& post.pc == pre.csr@[STVEC as int] & !0b11
        &&& post.csr@ == pre.csr@.update(SEPC as int, pre.pc).update(
            SCAUSE as int,
            e.spec_code(),
        ).update(STVAL as int, e.spec_value()).update(
            SSTATUS as int,
            sstatus_on_trap(pre.csr@[SSTATUS as int], pre.mode),
        )
    } else {
        &&& post.mode == Mode::Machine
        &&& post.pc == pre.csr@[MTVEC as int] & !0b11
        &&& post.csr@ == pre.csr@.update(MEPC as int, pre.pc).update(
            MCAUSE as int,
            e.spec_code(),
        ).update(MTVAL as int, e.spec_value()).update(
            MSTATUS as int,
            mstatus_on_trap(pre.csr@[MSTATUS as int], pre.mode),
        )
    }
}

/// Whether an interrupt is delegated to supervisor mode: the hart is below
/// machine mode and the cause's bit is set in `mideleg`.
pub open spec fn interrupt_target_s(pre: Cpu, i: Interrupt) -> bool {
    pre.mode != Mode::Machine && (pre.csr@[MIDELEG as int] >> i.spec_cause_code()) & 1 == 1
}

/// The handler entry point held in a trap vector register for an
/// interrupt: the base in direct mode, the base plus four times the cause
/// code in vectored mode; reserved mode bits fall to direct.
pub open spec fn vectored_pc(tvec: u64, cause_code: u64) -> u64 {
    if tvec & 0b11 == 0b01 {
        wadd(tvec & !0b11, cause_code << 2)
    } else {
        tvec & !0b11
    }
}

/// Trap entry for an interrupt: as for an exception, but the trap value is
/// zero, the cause carries the interrupt bit, and vectored dispatch
/// applies.
pub open spec fn interrupt_rel(pre: Cpu, i: Interrupt, post: Cpu) -> bool {
    &&& post.regs == pre.regs
    &&& post.bus == pre.bus
    &&& if interrupt_target_s(pre, i) {
        &&& post.mode == Mode::Supervisor
        &&& post.pc == vectored_pc(pre.csr@[STVEC as int], i.spec_cause_code())
        &&& post.csr@ == pre.csr@.update(SEPC as int, pre.pc).update(
            SCAUSE as int,
            i.spec_code(),
        ).update(STVAL as int, 0u64).update(
            SSTATUS as int,
            sstatus_on_trap(pre.csr@[SSTATUS as int], pre.mode),
        )
    } else {
        &&& post.mode == Mode::Machine
        &&& post.pc == vectored_pc(pre.csr@[MTVEC as int], i.spec_cause_code())
        &&& post.csr@ == pre.csr@.update(MEPC as int, pre.pc).update(
            MCAUSE as int,
            i.spec_code(),
        ).update(MTVAL as int, 0u64).update(
            MSTATUS as int,
            mstatus_on_trap(pre.csr@[MSTATUS as int], pre.mode),
        )
    }
}

/// The interrupt the hart takes next, if any: machine-level sources first
/// (external, then software, then timer), gated by `mstatus.MIE` only when
/// already in machine mode; then, below machine mode, supervisor-level
/// sources in the same order, gated by `sstatus.SIE` in supervisor mode.
pub open spec fn pending_interrupt(mode: Mode, csr: Seq<u64>) -> Option<Interrupt> {
    if mode == Mode::Machine && (csr[MSTATUS as int] >> 3) & 1 == 0 {
        None
    } else {
        let machine_pending = csr[MIE as int] & csr[MIP as int];
        if machine_pending & 0x800 != 0 {
            Some(Interrupt::MachineExternalInterrupt)
        } else if machine_pending & 0x8 != 0 {
            Some(Interrupt::MachineSoftwareInterrupt)
        } else if machine_pending & 0x80 != 0 {
            Some(Interrupt::MachineTimerInterrupt)
        } else if mode == Mode::Machine {
            None
        } else if mode == Mode::Supervisor && (csr[SSTATUS as int] >> 1) & 1 == 0 {
            None
        } else {
            let supervisor_pending = csr[SIE as int] & csr[SIP as int];
            if supervisor_pending & 0x200 != 0 {
                Some(Interrupt::SupervisorExternalInterrupt)
            } else if supervisor_pending & 0x2 != 0 {
                Some(Interrupt::SupervisorSoftwareInterrupt)
            } else if supervisor_pending & 0x20 != 0 {
                Some(Interrupt::SupervisorTimerInterrupt)
            } else {
                None
            }
        }
    }
}

/// The CSR file after the taken interrupt's pending bit is cleared, so the
/// same source cannot be taken twice without being raised again.
pub open spec fn ip_cleared(csr: Seq<u64>, i: Interrupt) -> Seq<u64> {
    match i {
        Interrupt::MachineExternalInterrupt => csr.update(
            MIP as int,
            csr[MIP as int] & !0x800,
        ),
        Interrupt::MachineSoftwareInterrupt => csr.update(MIP as int, csr[MIP as int] & !0x8),
        Interrupt::MachineTimerInterrupt => csr.update(MIP as int, csr[MIP as int] & !0x80),
        Interrupt::SupervisorExternalInterrupt => csr.update(
            SIP as int,
            csr[SIP as int] & !0x200,
        ),
        Interrupt::SupervisorSoftwareInterrupt => csr.update(
            SIP as int,
            csr[SIP as int] & !0x2,
        ),
        Interrupt::SupervisorTimerInterrupt => csr.update(SIP as int, csr[SIP as int] & !0x20),
        Interrupt::CounterOverflowInterrupt => csr,
    }
}


/// An illegal instruction: nothing changes and the word is reported.
pub open spec fn illegal_rel(pre: Cpu, inst: u64, post: Cpu, r: Result<(), Exception>) -> bool {
    post == pre && r == Err::<(), Exception>(Exception::IllegalInstruction(inst))
}

/// The access width of a load, from its minor opcode.
pub open spec fn load_size_of(f3: u64) -> u64 {
    if f3 == 0 || f3 == 4 {
        8
    } else if f3 == 1 || f3 == 5 {
        16
    } else if f3 == 2 || f3 == 6 {
        32
    } else {
        64
    }
}

/// How a loaded value enters the register file: sign-extended for the
/// signed widths, whole otherwise.
pub open spec fn load_conv(f3: u64, v: u64) -> u64 {
    if f3 == 0 {
        sext8(v)
    } else if f3 == 1 {
        sext16(v)
    } else if f3 == 2 {
        sext32(v)
    } else {
        v
    }
}

/// What the LOAD class does: an effective address from `rs1` plus the
/// I-form immediate, a bus load of the decoded width, the converted value
/// into `rd` and a four-byte advance on success; the bus fault otherwise.
pub open spec fn load_class_rel(
    pre: Cpu,
    inst: u64,
    now: u64,
    post: Cpu,
    r: Result<(), Exception>,
) -> bool {
    let f3 = funct3_of(inst);
    let addr = wadd(pre.regs@[rs1_of(inst) as int], imm_i_of(inst));
    if f3 <= 6 && f3 != 7 {
        let size = load_size_of(f3);
        &&& post.mode == pre.mode
        &&& post.csr == pre.csr
        &&& Bus::load_state_rel(pre.bus, addr, size, post.bus)
        &&& match pre.bus.spec_load_result(addr, size, now) {
            Ok(v) => r == Ok::<(), Exception>(()) && post.regs@ == wr(
                pre.regs@,
                rd_of(inst),
                load_conv(f3, v),
            ) && post.pc == wadd(pre.pc, 4),
            Err(e) => r == Err::<(), Exception>(e) && post.regs == pre.regs && post.pc == pre.pc,
        }
    } else {
        illegal_rel(pre, inst, post, r)
    }
}

/// What the STORE class does: an effective address from `rs1` plus the
/// S-form immediate, a bus store of `rs2` at the decoded width and a
/// four-byte advance on success; the bus fault otherwise.
pub open spec fn store_class_rel(
    pre: Cpu,
    inst: u64,
    now: u64,
    post: Cpu,
    r: Result<(), Exception>,
) -> bool {
    let f3 = funct3_of(inst);
    let addr = wadd(pre.regs@[rs1_of(inst) as int], imm_s_of(inst));
    if f3 <= 3 {
        let size = (if f3 == 0 {
            8u64
        } else if f3 == 1 {
            16u64
        } else if f3 == 2 {
            32u64
        } else {
            64u64
        });
        let v = pre.regs@[rs2_of(inst) as int];
        &&& post.mode == pre.mode
        &&& post.csr == pre.csr
        &&& post.regs == pre.regs
        &&& Bus::store_state_rel(pre.bus, addr, size, v, now, post.bus)
        &&& match pre.bus.spec_store_result(addr, size, v) {
            Ok(u) => r == Ok::<(), Exception>(()) && post.pc == wadd(pre.pc, 4),
            Err(e) => r == Err::<(), Exception>(e) && post.pc == pre.pc,
        }
    } else {
        illegal_rel(pre, inst, post, r)
    }
}

/// The value an OP-IMM instruction writes, or nothing when the encoding is
/// reserved. Shifts take a six-bit amount; bit 25 belongs to the shift
/// amount, not the function field.
pub open spec fn op_imm_value(inst: u64, a: u64) -> Option<u64> {
    let imm = imm_i_of(inst);
    let shamt = imm & 0x3f;
    let f3 = funct3_of(inst);
    let f7 = funct7_of(inst);
    if f3 == 0 {
        Some(wadd(a, imm))
    } else if f3 == 2 {
        Some(if signed_lt(a, imm) { 1u64 } else { 0u64 })
    } else if f3 == 3 {
        Some(if a < imm { 1u64 } else { 0u64 })
    } else if f3 == 4 {
        Some(a ^ imm)
    } else if f3 == 6 {
        Some(a | imm)
    } else if f3 == 7 {
        Some(a & imm)
    } else if f3 == 1 && f7 >> 1 == 0 {
        Some(a << shamt)
    } else if f3 == 5 && f7 >> 1 == 0 {
        Some(a >> shamt)
    } else if f3 == 5 && f7 >> 1 == 0x10 {
        Some(sra64(a, shamt))
    } else {
        None
    }
}

/// The value an OP-IMM-32 instruction writes, or nothing when the encoding
/// is reserved. Shifts take a five-bit amount and the result is always the
/// sign-extended 32-bit value.
pub open spec fn op_imm32_value(inst: u64, a: u64) -> Option<u64> {
    let imm = imm_i_of(inst);
    let shamt = imm & 0x1f;
    let f3 = funct3_of(inst);
    let f7 = funct7_of(inst);
    if f3 == 0 {
        Some(sext32(wadd(a, imm)))
    } else if f3 == 1 && f7 == 0 {
        Some(sext32(a << shamt))
    } else if f3 == 5 && f7 == 0 {
        Some(sext32((a & 0xffff_ffff) >> shamt))
    } else if f3 == 5 && f7 == 0x20 {
        Some(sext32(sra32(a, shamt)))
    } else {
        None
    }
}

/// The value an OP instruction writes, or nothing when the encoding is
/// reserved. `a` and `b` are the two source registers; shifts take the low
/// six bits of `b`.
pub open spec fn op_value(inst: u64, a: u64, b: u64) -> Option<u64> {
    let f3 = funct3_of(inst);
    let f7 = funct7_of(inst);
    let shamt = b & 0x3f;
    if f7 == 0 && f3 == 0 {
        Some(wadd(a, b))
    } else if f7 == 0x20 && f3 == 0 {
        Some(wsub(a, b))
    } else if f7 == 0 && f3 == 1 {
        Some(a << shamt)
    } else if f7 == 0 && f3 == 2 {
        Some(if signed_lt(a, b) { 1u64 } else { 0u64 })
    } else if f7 == 0 && f3 == 3 {
        Some(if a < b { 1u64 } else { 0u64 })
    } else if f7 == 0 && f3 == 4 {
        Some(a ^ b)
    } else if f7 == 0 && f3 == 5 {
        Some(a >> shamt)
    } else if f7 == 0x20 && f3 == 5 {
        Some(sra64(a, shamt))
    } else if f7 == 0 && f3 == 6 {
        Some(a | b)
    } else if f7 == 0 && f3 == 7 {
        Some(a & b)
    } else if f7 == 1 && f3 == 0 {
        Some(wmul(a, b))
    } else if f7 == 1 && f3 == 5 {
        Some(if b == 0 { 0xffff_ffff_ffff_ffffu64 } else { a / b })
    } else if f7 == 1 && f3 == 7 {
        Some(if b == 0 { a } else { a % b })
    } else {
        None
    }
}

/// The value an OP-32 instruction writes, or nothing when the encoding is
/// reserved. Shifts take the low five bits of `b`; every result is the
/// sign-extended 32-bit value.
pub open spec fn op32_value(inst: u64, a: u64, b: u64) -> Option<u64> {
    let f3 = funct3_of(inst);
    let f7 = funct7_of(inst);
    let shamt = b & 0x1f;
    if f7 == 0 && f3 == 0 {
        Some(sext32(wadd(a, b)))
    } else if f7 == 0x20 && f3 == 0 {
        Some(sext32(wsub(a, b)))
    } else if f7 == 0 && f3 == 1 {
        Some(sext32((a & 0xffff_ffff) << shamt))
    } else if f7 == 0 && f3 == 5 {
        Some(sext32((a & 0xffff_ffff) >> shamt))
    } else if f7 == 0x20 && f3 == 5 {
        Some(sext32(sra32(a, shamt)))
    } else if f7 == 1 && f3 == 7 {
        Some(if b & 0xffff_ffff == 0 {
            sext32(a)
        } else {
            sext32((a & 0xffff_ffff) % (b & 0xffff_ffff))
        })
    } else {
        None
    }
}

/// An instruction that only writes `rd` and advances four bytes.
pub open spec fn alu_rel(pre: Cpu, inst: u64, v: u64, post: Cpu, r: Result<(), Exception>) -> bool {
    &&& r == Ok::<(), Exception>(())
    &&& post.regs@ == wr(pre.regs@, rd_of(inst), v)
    &&& post.pc == wadd(pre.pc, 4)
    &&& post.mode == pre.mode
    &&& post.csr == pre.csr
    &&& post.bus == pre.bus
}

/// Whether a branch of minor opcode `f3` is taken on sources `a` and `b`.
pub open spec fn branch_taken(f3: u64, a: u64, b: u64) -> bool {
    if f3 == 0 {
        a == b
    } else if f3 == 1 {
        a != b
    } else if f3 == 4 {
        signed_lt(a, b)
    } else if f3 == 5 {
        !signed_lt(a, b)
    } else if f3 == 6 {
        a < b
    } else {
        a >= b
    }
}

/// What an AMO instruction does: load the addressed word, store the
/// swapped or added value, and return the original into `rd`, advancing
/// four bytes; a fault at either access leaves the registers alone.
pub open spec fn amo_rel(
    pre: Cpu,
    inst: u64,
    size: u64,
    swap: bool,
    now: u64,
    post: Cpu,
    r: Result<(), Exception>,
) -> bool {
    let a = pre.regs@[rs1_of(inst) as int];
    let b = pre.regs@[rs2_of(inst) as int];
    &&& post.mode == pre.mode
    &&& post.csr == pre.csr
    &&& exists|mid: Bus|
        {
            &&& Bus::load_state_rel(pre.bus, a, size, mid)
            &&& match pre.bus.spec_load_result(a, size, now) {
                Ok(t) => {
                    let sv = if swap {
                        b
                    } else {
                        wadd(t, b)
                    };
                    &&& Bus::store_state_rel(mid, a, size, sv, now, post.bus)
                    &&& match mid.spec_store_result(a, size, sv) {
                        Ok(u) => r == Ok::<(), Exception>(()) && post.regs@ == wr(
                            pre.regs@,
                            rd_of(inst),
                            t,
                        ) && post.pc == wadd(pre.pc, 4),
                        Err(e) => r == Err::<(), Exception>(e) && post.regs == pre.regs
                            && post.pc == pre.pc,
                    }
                },
                Err(e) => {
                    &&& post.bus == mid
                    &&& r == Err::<(), Exception>(e)
                    &&& post.regs == pre.regs
                    &&& post.pc == pre.pc
                },
            }
        }
}

/// The new CSR value a CSR instruction writes back: the register or
/// immediate source for the write form, the old value with the mask's bits
/// set or cleared for the set and clear forms.
pub open spec fn csr_new_value(f3: u64, t: u64, src: u64) -> u64 {
    if f3 == 1 || f3 == 5 {
        src
    } else if f3 == 2 || f3 == 6 {
        t | src
    } else {
        t & !src
    }
}

/// What a SYSTEM instruction does: environment calls and breakpoints trap
/// with the program counter, `sret`/`mret` unstack the status register and
/// jump to the saved counter, `sfence.vma` is a no-op, and the CSR forms
/// read-modify-write the addressed slot.
pub open spec fn system_rel(pre: Cpu, inst: u64, post: Cpu, r: Result<(), Exception>) -> bool {
    let f3 = funct3_of(inst);
    let f7 = funct7_of(inst);
    let rs2f = rs2_of(inst);
    let csr_addr = csr_of(inst);
    if f3 == 0 {
        if rs2f == 0 {
            post == pre && r == Err::<(), Exception>(
                match pre.mode {
                    Mode::User => Exception::EnvironmentCallFromUMode(pre.pc),
                    Mode::Supervisor => Exception::EnvironmentCallFromSMode(pre.pc),
                    Mode::Machine => Exception::EnvironmentCallFromMMode(pre.pc),
                },
            )
        } else if rs2f == 1 {
            post == pre && r == Err::<(), Exception>(Exception::Breakpoint(pre.pc))
        } else if rs2f == 2 {
            if f7 == 0x08 {
                &&& r == Ok::<(), Exception>(())
                &&& post.regs == pre.regs
                &&& post.bus == pre.bus
                &&& post.mode == sret_mode(pre.csr@[SSTATUS as int])
                &&& post.pc == pre.csr@[SEPC as int]
                &&& post.csr@ == pre.csr@.update(
                    MSTATUS as int,
                    pre.csr@[MSTATUS as int] & !0x20000,
                ).update(SSTATUS as int, sstatus_on_sret(pre.csr@[SSTATUS as int]))
            } else if f7 == 0x18 {
                &&& r == Ok::<(), Exception>(())
                &&& post.regs == pre.regs
                &&& post.bus == pre.bus
                &&& post.mode == mret_mode(pre.csr@[MSTATUS as int])
                &&& post.pc == pre.csr@[MEPC as int]
                &&& post.csr@ == pre.csr@.update(
                    MSTATUS as int,
                    mstatus_on_mret(pre.csr@[MSTATUS as int]),
                )
            } else {
                illegal_rel(pre, inst, post, r)
            }
        } else {
            if f7 == 0x09 {
                &&& r == Ok::<(), Exception>(())
                &&& post.regs == pre.regs
                &&& post.mode == pre.mode
                &&& post.csr == pre.csr
                &&& post.bus == pre.bus
                &&& post.pc == wadd(pre.pc, 4)
            } else {
                illegal_rel(pre, inst, post, r)
            }
        }
    } else if f3 == 4 {
        illegal_rel(pre, inst, post, r)
    } else {
        let src = (if f3 >= 5 {
            rs1_of(inst)
        } else {
            pre.regs@[rs1_of(inst) as int]
        });
        let t = pre.csr@[csr_addr as int];
        &&& r == Ok::<(), Exception>(())
        &&& post.csr@ == pre.csr@.update(csr_addr as int, csr_new_value(f3, t, src))
        &&& post.regs@ == wr(pre.regs@, rd_of(inst), t)
        &&& post.pc == wadd(pre.pc, 4)
        &&& post.mode == pre.mode
        &&& post.bus == pre.bus
    }
}

/// The whole effect of executing one instruction word at host tick count
/// `now`: a dispatch over the two-level opcode table, each class described
/// by its relation above, every unlisted cell illegal.
pub open spec fn execute_rel(
    pre: Cpu,
    inst: u64,
    now: u64,
    post: Cpu,
    r: Result<(), Exception>,
) -> bool {
    let op = (inst >> 2) & 0x1f;
    let f3 = funct3_of(inst);
    if inst & 0b11 != 0b11 {
        illegal_rel(pre, inst, post, r)
    } else if op == 0x00 {
        load_class_rel(pre, inst, now, post, r)
    } else if op == 0x03 {
        if f3 == 0 {
            &&& r == Ok::<(), Exception>(())
            &&& post.regs == pre.regs
            &&& post.mode == pre.mode
            &&& post.csr == pre.csr
            &&& post.bus == pre.bus
            &&& post.pc == wadd(pre.pc, 4)
        } else {
            illegal_rel(pre, inst, post, r)
        }
    } else if op == 0x04 {
        match op_imm_value(inst, pre.regs@[rs1_of(inst) as int]) {
            Some(v) => alu_rel(pre, inst, v, post, r),
            None => illegal_rel(pre, inst, post, r),
        }
    } else if op == 0x05 {
        alu_rel(pre, inst, wadd(pre.pc, imm_u_of(inst)), post, r)
    } else if op == 0x06 {
        match op_imm32_value(inst, pre.regs@[rs1_of(inst) as int]) {
            Some(v) => alu_rel(pre, inst, v, post, r),
            None => illegal_rel(pre, inst, post, r),
        }
    } else if op == 0x08 {
        store_class_rel(pre, inst, now, post, r)
    } else if op == 0x0b {
        let t5 = (inst >> 27) & 0x1f;
        if f3 == 2 && t5 == 1 {
            amo_rel(pre, inst, 32, true, now, post, r)
        } else if f3 == 2 && t5 == 0 {
            amo_rel(pre, inst, 32, false, now, post, r)
        } else if f3 == 3 && t5 == 1 {
            amo_rel(pre, inst, 64, true, now, post, r)
        } else if f3 == 3 && t5 == 0 {
            amo_rel(pre, inst, 64, false, now, post, r)
        } else {
            illegal_rel(pre, inst, post, r)
        }
    } else if op == 0x0c {
        match op_value(
            inst,
            pre.regs@[rs1_of(inst) as int],
            pre.regs@[rs2_of(inst) as int],
        ) {
            Some(v) => alu_rel(pre, inst, v, post, r),
            None => illegal_rel(pre, inst, post, r),
        }
    } else if op == 0x0d {
        alu_rel(pre, inst, imm_u_of(inst), post, r)
    } else if op == 0x0e {
        match op32_value(
            inst,
            pre.regs@[rs1_of(inst) as int],
            pre.regs@[rs2_of(inst) as int],
        ) {
            Some(v) => alu_rel(pre, inst, v, post, r),
            None => illegal_rel(pre, inst, post, r),
        }
    } else if op == 0x18 {
        if f3 == 2 || f3 == 3 {
            illegal_rel(pre, inst, post, r)
        } else {
            let taken = branch_taken(
                f3,
                pre.regs@[rs1_of(inst) as int],
                pre.regs@[rs2_of(inst) as int],
            );
            &&& r == Ok::<(), Exception>(())
            &&& post.regs == pre.regs
            &&& post.mode == pre.mode
            &&& post.csr == pre.csr
            &&& post.bus == pre.bus
            &&& post.pc == (if taken {
                wadd(pre.pc, imm_b_of(inst))
            } else {
                wadd(pre.pc, 4)
            })
        }
    } else if op == 0x19 {
        if f3 == 0 {
            &&& r == Ok::<(), Exception>(())
            &&& post.regs@ == wr(pre.regs@, rd_of(inst), wadd(pre.pc, 4))
            &&& post.pc == wadd(pre.regs@[rs1_of(inst) as int], imm_i_of(inst))
                & 0xffff_ffff_ffff_fffe
            &&& post.mode == pre.mode
            &&& post.csr == pre.csr
            &&& post.bus == pre.bus
        } else {
            illegal_rel(pre, inst, post, r)
        }
    } else if op == 0x1b {
        &&& r == Ok::<(), Exception>(())
        &&& post.regs@ == wr(pre.regs@, rd_of(inst), wadd(pre.pc, 4))
        &&& post.pc == wadd(pre.pc, imm_j_of(inst))
        &&& post.mode == pre.mode
        &&& post.csr == pre.csr
        &&& post.bus == pre.bus
    } else if op == 0x1c {
        system_rel(pre, inst, post, r)
    } else {
        illegal_rel(pre, inst, post, r)
    }
}


/// What the hart takes of a step: whether the run goes on. A trap whose
/// cause is classified fatal is still delivered, and the run then stops so
/// a runaway guest cannot loop forever on an unhandleable fault.
#[derive(Debug, Clone, Copy, PartialEq, Eq, Structural)]
pub enum StepOutcome {
    KeepRunning,
    Halt,
}

/// What the per-step console poll does: only the UART and the PLIC's
/// pending bitmap can change.
pub open spec fn uart_poll_rel(pre: Cpu, input: Option<u8>, post: Cpu) -> bool {
    &&& post.regs == pre.regs
    &&& post.pc == pre.pc
    &&& post.mode == pre.mode
    &&& post.csr == pre.csr
    &&& post.bus.dram == pre.bus.dram
    &&& post.bus.clint == pre.bus.clint
    &&& post.bus.plic.irqs() == pre.bus.plic.irqs()
    &&& set_pending_rel_holds(pre.bus.plic@, input, post.bus.plic@)
    &&& UART::poll_rel(pre.bus.uart, input, post.bus.uart)
}

/// What the instruction fetch does to the state: only the bus (and there
/// only the UART) can change.
pub open spec fn fetch_state_rel(pre: Cpu, post: Cpu) -> bool {
    &&& post.regs == pre.regs
    &&& post.pc == pre.pc
    &&& post.mode == pre.mode
    &&& post.csr == pre.csr
    &&& Bus::load_state_rel(pre.bus, pre.pc, 32, post.bus)
}

/// What the per-step device poll does: nothing when the hart sits in
/// machine mode with `mstatus.MIE` clear; otherwise the CLINT's timer and
/// software conditions enter `mip`, and a PLIC claim on the context of the
/// current mode asserts the external-interrupt pending bit of that
/// context's level.
pub open spec fn devices_rel(pre: Cpu, now: u64, post: Cpu) -> bool {
    &&& post.regs == pre.regs
    &&& post.pc == pre.pc
    &&& post.mode == pre.mode
    &&& post.bus.dram == pre.bus.dram
    &&& post.bus.uart == pre.bus.uart
    &&& post.bus.clint == pre.bus.clint
    &&& if pre.mode == Mode::Machine && (pre.csr@[MSTATUS as int] >> 3) & 1 == 0 {
        post.csr == pre.csr && post.bus.plic == pre.bus.plic
    } else {
        exists|c: Option<u64>| devices_claim_rel(pre, now, post, c)
    }
}

/// The ungated part of the device poll, for one possible claim outcome
/// `c`: the CLINT conditions enter `mip`, and a claimed source asserts
/// `MEIP` for the machine context or `SEIP` for the supervisor one.
pub open spec fn devices_claim_rel(pre: Cpu, now: u64, post: Cpu, c: Option<u64>) -> bool {
    let mti = time_at(pre.bus.clint.begin(), now) >= pre.bus.clint.mtimecmp()[0];
    let msi = pre.bus.clint.msip()[0] != 0;
    let with_mti = (if mti {
        pre.csr@[MIP as int] | 0x80
    } else {
        pre.csr@[MIP as int]
    });
    let mip1 = (if msi {
        with_mti | 0x8
    } else {
        with_mti
    });
    let ctx = (if pre.mode == Mode::Machine {
        0u64
    } else {
        1u64
    });
    &&& Plic::claim_rel(pre.bus.plic, ctx, post.bus.plic, c)
    &&& post.csr@ == (match c {
        Some(irq) => if ctx == 0 {
            pre.csr@.update(MIP as int, mip1 | 0x800)
        } else {
            pre.csr@.update(MIP as int, mip1).update(SIP as int, pre.csr@[SIP as int] | 0x200)
        },
        None => pre.csr@.update(MIP as int, mip1),
    })
}

/// A state equal to `pre` but for the CSR file.
pub open spec fn with_csr(pre: Cpu, csr: Seq<u64>, post: Cpu) -> bool {
    &&& post.regs == pre.regs
    &&& post.pc == pre.pc
    &&& post.mode == pre.mode
    &&& post.bus == pre.bus
    &&& post.csr@ == csr
}

/// The interrupt tail of a step: poll the devices, consult the pending
/// ladder, and deliver the winning interrupt with its pending bit cleared
/// as one step.
pub open spec fn interrupt_phase_rel(pre: Cpu, now: u64, post: Cpu) -> bool {
    exists|d: Cpu|
        {
            &&& devices_rel(pre, now, d)
            &&& match pending_interrupt(d.mode, d.csr@) {
                Some(i) => exists|e: Cpu|
                    {
                        &&& with_csr(d, ip_cleared(d.csr@, i), e)
                        &&& interrupt_rel(e, i, post)
                    },
                None => with_csr(d, d.csr@, post),
            }
        }
}

/// One whole hart step at host tick count `now` with console input
/// `input`: the console poll, the fetch, the execution, the delivery of
/// any exception, and the interrupt tail; a fatal exception is delivered
/// and then stops the run, and a fetch fault skips the interrupt tail.
pub open spec fn step_rel(
    pre: Cpu,
    now: u64,
    input: Option<u8>,
    post: Cpu,
    r: StepOutcome,
) -> bool {
    exists|a: Cpu, b: Cpu|
        {
            &&& uart_poll_rel(pre, input, a)
            &&& fetch_state_rel(a, b)
            &&& match a.bus.spec_load_result(a.pc, 32, now) {
                Err(e) => exception_rel(b, e, post) && r == (if e.spec_is_fatal() {
                    StepOutcome::Halt
                } else {
                    StepOutcome::KeepRunning
                }),
                Ok(inst) => exists|c: Cpu, er: Result<(), Exception>|
                    {
                        &&& execute_rel(b, inst, now, c, er)
                        &&& match er {
                            Err(e) => {
                                if e.spec_is_fatal() {
                                    exception_rel(c, e, post) && r == StepOutcome::Halt
                                } else {
                                    exists|d: Cpu|
                                        {
                                            &&& exception_rel(c, e, d)
                                            &&& interrupt_phase_rel(d, now, post)
                                            &&& r == StepOutcome::KeepRunning
                                        }
                                }
                            },
                            Ok(u) => interrupt_phase_rel(c, now, post) && r
                                == StepOutcome::KeepRunning,
                        }
                    },
            }
        }
}

pub struct Cpu {
    pub regs: Vec<u64>,
    pub pc: u64,
    pub mode: Mode,
    pub csr: Csr,
    pub bus: Bus,
}

impl Cpu {
    pub open spec fn wf(&self) -> bool {
        &&& self.regs@.len() == 32
        &&& self.regs@[0] == 0
        &&& self.csr.wf()
        &&& self.bus.wf()
    }

    /// A fresh hart over `binary`: machine mode, the program counter at
    /// the bottom of DRAM, the stack pointer at its top, everything else
    /// zero.
    pub fn new(binary: Vec<u8>) -> (r: Cpu)
        requires
            binary@.len() <= DRAM_SIZE,
        ensures
            r.wf(),
            r.pc == DRAM_BASE,
            r.mode == Mode::Machine,
            r.regs@ == Seq::new(32, |i: int| if i == 2 { (DRAM_BASE + DRAM_SIZE) as u64 } else { 0u64 }),
            forall|n: int| 0 <= n < crate::csr::NUM_CSRS ==> r.csr@[n] == 0u64,
            r.bus.clint.freq() == TIMER_FREQ,
            forall|k: int|
                0 <= k < DRAM_SIZE ==> r.bus.dram@[k] == (if k < binary@.len() {
                    binary@[k]
                } else {
                    0u8
                }),
            forall|k: int| 0 <= k < crate::address::PLIC_SIZE ==> r.bus.plic@[k] == 0u8,
            r.bus.plic.irqs() == Seq::<u64>::empty().push(crate::uart::UART_IRQ),
            r.bus.uart.rx() == None::<u8>,
            forall|k: int|
                0 <= k < crate::address::UART_SIZE ==> r.bus.uart.window()[k] == (if k
                    == crate::uart::LSR - crate::address::UART_BASE {
                    crate::uart::LSR_THR_EMPTY
                } else {
                    0u8
                }),
            forall|h: int| 0 <= h < crate::clint::MAX_MSIP ==> r.bus.clint.msip()[h] == 0u32,
            forall|h: int|
                0 <= h < crate::clint::MAX_MTIMECMP ==> r.bus.clint.mtimecmp()[h] == 0u64,
    {
        let mut regs: Vec<u64> = Vec::new();
        regs.resize(32, 0u64);
        regs[2] = DRAM_BASE + DRAM_SIZE;
        proof {
            assert(regs@ =~= Seq::new(
                32,
                |i: int| if i == 2 { (DRAM_BASE + DRAM_SIZE) as u64 } else { 0u64 },
            ));
        }
        Cpu {
            regs,
            pc: DRAM_BASE,
            mode: Mode::Machine,
            csr: Csr::new(),
            bus: Bus::new(TIMER_FREQ, binary),
        }
    }

    /// Read register `idx`.
    pub fn read_reg(&self, idx: u64) -> (r: u64)
        requires
            self.wf(),
            idx < 32,
        ensures
            r == self.regs@[idx as int],
    {
        self.regs[idx as usize]
    }

    /// Write register `rd`; register 0 stays zero whatever is written.
    pub fn write_reg(&mut self, rd: u64, v: u64)
        requires
            old(self).wf(),
            rd < 32,
        ensures
            final(self).wf(),
            final(self).regs@ == wr(old(self).regs@, rd, v),
            final(self).pc == old(self).pc,
            final(self).mode == old(self).mode,
            final(self).csr == old(self).csr,
            final(self).bus == old(self).bus,
    {
        if rd != 0 {
            self.regs[rd as usize] = v;
        }
    }

    /// Load a value from the bus at host tick count `now`.
    pub fn load(&mut self, addr: u64, size: u64, now: u64) -> (r: Result<u64, Exception>)
        requires
            old(self).wf(),
        ensures
            final(self).wf(),
            r == old(self).bus.spec_load_result(addr, size, now),
            Bus::load_state_rel(old(self).bus, addr, size, final(self).bus),
            final(self).regs == old(self).regs,
            final(self).pc == old(self).pc,
            final(self).mode == old(self).mode,
            final(self).csr == old(self).csr,
    {
        self.bus.load(addr, size, now)
    }

    /// Store a value to the bus at host tick count `now`.
    pub fn store(&mut self, addr: u64, size: u64, value: u64, now: u64) -> (r: Result<
        (),
        Exception,
    >)
        requires
            old(self).wf(),
        ensures
            final(self).wf(),
            r == old(self).bus.spec_store_result(addr, size, value),
            Bus::store_state_rel(old(self).bus, addr, size, value, now, final(self).bus),
            final(self).regs == old(self).regs,
            final(self).pc == old(self).pc,
            final(self).mode == old(self).mode,
            final(self).csr == old(self).csr,
    {
        self.bus.store(addr, size, value, now)
    }

    /// Fetch the 32-bit instruction word at the program counter.
    pub fn fetch(&mut self, now: u64) -> (r: Result<u64, Exception>)
        requires
            old(self).wf(),
        ensures
            final(self).wf(),
            r == old(self).bus.spec_load_result(old(self).pc, 32, now),
            Bus::load_state_rel(old(self).bus, old(self).pc, 32, final(self).bus),
            final(self).regs == old(self).regs,
            final(self).pc == old(self).pc,
            final(self).mode == old(self).mode,
            final(self).csr == old(self).csr,
    {
        self.bus.load(self.pc, 32, now)
    }

    /// Deliver an exception: trap entry per the delegation rules, with the
    /// exception's payload as the trap value.
    pub fn handle_exception(&mut self, e: Exception)
        requires
            old(self).wf(),
        ensures
            final(self).wf(),
            exception_rel(*old(self), e, *final(self)),
    {
        let exception_pc = self.pc;
        let prev_mode = self.mode;
        let cause = e.code();
        proof {
            assert(cause < 64);
        }
        let medeleg = self.csr.load(MEDELEG);
        let delegated = (medeleg >> cause) & 1 == 1;
        if prev_mode != Mode::Machine && delegated {
            self.mode = Mode::Supervisor;
            let stvec = self.csr.load(STVEC);
            self.pc = stvec & !0b11;
            self.csr.store(SEPC, exception_pc);
            self.csr.store(SCAUSE, cause);
            self.csr.store(STVAL, e.value());
            let sstatus = self.csr.load(SSTATUS);
            let cleared = (sstatus & !0x2) & !0x20;
            let with_spie = cleared | (((sstatus >> 1) & 0b1) << 5);
            self.csr.store(SSTATUS, (with_spie & !0x100) | (prev_mode.code() << 8));
        } else {
            self.mode = Mode::Machine;
            let mtvec = self.csr.load(MTVEC);
            self.pc = mtvec & !0b11;
            self.csr.store(MEPC, exception_pc);
            self.csr.store(MCAUSE, cause);
            self.csr.store(MTVAL, e.value());
            let mstatus = self.csr.load(MSTATUS);
            let cleared = (mstatus & !0x8) & !0x80;
            let with_mpie = cleared | (((mstatus >> 3) & 0b1) << 7);
            self.csr.store(MSTATUS, (with_mpie & !0x1800) | (prev_mode.code() << 11));
        }
    }

    /// Deliver an interrupt: trap entry per the delegation rules, with a
    /// zero trap value and vectored dispatch on the trap vector's mode
    /// bits.
    pub fn handle_interrupt(&mut self, i: Interrupt)
        requires
            old(self).wf(),
        ensures
            final(self).wf(),
            interrupt_rel(*old(self), i, *final(self)),
    {
        let interrupt_pc = self.pc;
        let prev_mode = self.mode;
        let cause = i.code();
        let cause_code = i.cause_code();
        proof {
            assert(cause_code < 64);
        }
        let mideleg = self.csr.load(MIDELEG);
        let delegated = (mideleg >> cause_code) & 1 == 1;
        if prev_mode != Mode::Machine && delegated {
            self.mode = Mode::Supervisor;
            let stvec = self.csr.load(STVEC);
            let base = stvec & !0b11;
            self.pc = if stvec & 0b11 == 0b01 {
                base.wrapping_add(cause_code << 2)
            } else {
                base
            };
            self.csr.store(SEPC, interrupt_pc);
            self.csr.store(SCAUSE, cause);
            self.csr.store(STVAL, 0);
            let sstatus = self.csr.load(SSTATUS);
            let cleared = (sstatus & !0x2) & !0x20;
            let with_spie = cleared | (((sstatus >> 1) & 0b1) << 5);
            self.csr.store(SSTATUS, (with_spie & !0x100) | (prev_mode.code() << 8));
        } else {
            self.mode = Mode::Machine;
            let mtvec = self.csr.load(MTVEC);
            let base = mtvec & !0b11;
            self.pc = if mtvec & 0b11 == 0b01 {
                base.wrapping_add(cause_code << 2)
            } else {
                base
            };
            self.csr.store(MEPC, interrupt_pc);
            self.csr.store(MCAUSE, cause);
            self.csr.store(MTVAL, 0);
            let mstatus = self.csr.load(MSTATUS);
            let cleared = (mstatus & !0x8) & !0x80;
            let with_mpie = cleared | (((mstatus >> 3) & 0b1) << 7);
            self.csr.store(MSTATUS, (with_mpie & !0x1800) | (prev_mode.code() << 11));
        }
    }

    /// Consult the pending and enable CSRs in priority order and take the
    /// winning interrupt, clearing its pending bit as one step with the
    /// decision.
    pub fn check_interrupt(&mut self) -> (r: Option<Interrupt>)
        requires
            old(self).wf(),
        ensures
            final(self).wf(),
            r == pending_interrupt(old(self).mode, old(self).csr@),
            final(self).csr@ == match r {
                Some(i) => ip_cleared(old(self).csr@, i),
                None => old(self).csr@,
            },
            final(self).regs == old(self).regs,
            final(self).pc == old(self).pc,
            final(self).mode == old(self).mode,
            final(self).bus == old(self).bus,
    {
        if self.mode == Mode::Machine && (self.csr.load(MSTATUS) >> 3) & 1 == 0 {
            return None;
        }
        let machine_pending = self.csr.load(MIE) & self.csr.load(MIP);
        if machine_pending & 0x800 != 0 {
            let mip = self.csr.load(MIP);
            self.csr.store(MIP, mip & !0x800);
            return Some(Interrupt::MachineExternalInterrupt);
        }
        if machine_pending & 0x8 != 0 {
            let mip = self.csr.load(MIP);
            self.csr.store(MIP, mip & !0x8);
            return Some(Interrupt::MachineSoftwareInterrupt);
        }
        if machine_pending & 0x80 != 0 {
            let mip = self.csr.load(MIP);
            self.csr.store(MIP, mip & !0x80);
            return Some(Interrupt::MachineTimerInterrupt);
        }
        if self.mode == Mode::Machine {
            return None;
        }
        if self.mode == Mode::Supervisor && (self.csr.load(SSTATUS) >> 1) & 1 == 0 {
            return None;
        }
        let supervisor_pending = self.csr.load(SIE) & self.csr.load(SIP);
        if supervisor_pending & 0x200 != 0 {
            let sip = self.csr.load(SIP);
            self.csr.store(SIP, sip & !0x200);
            return Some(Interrupt::SupervisorExternalInterrupt);
        }
        if supervisor_pending & 0x2 != 0 {
            let sip = self.csr.load(SIP);
            self.csr.store(SIP, sip & !0x2);
            return Some(Interrupt::SupervisorSoftwareInterrupt);
        }
        if supervisor_pending & 0x20 != 0 {
            let sip = self.csr.load(SIP);
            self.csr.store(SIP, sip & !0x20);
            return Some(Interrupt::SupervisorTimerInterrupt);
        }
        None
    }

    /// Decode and execute one instruction word at host tick count `now`,
    /// leaving the program counter on the next instruction to fetch. An
    /// error reports the exception for the trap machinery to deliver, with
    /// the program counter still on the faulting instruction.
    pub fn execute(&mut self, inst: u64, now: u64) -> (r: Result<(), Exception>)
        requires
            old(self).wf(),
        ensures
            final(self).wf(),
            execute_rel(*old(self), inst, now, *final(self), r),
            final(self).regs@[0] == 0,
    {
        if inst & 0b11 != 0b11 {
            return Err(Exception::IllegalInstruction(inst));
        }
        let op = (inst >> 2) & 0x1f;
        let rd = (inst >> 7) & 0x1f;
        let rs1 = (inst >> 15) & 0x1f;
        let rs2 = (inst >> 20) & 0x1f;
        let funct3 = (inst >> 12) & 0x7;
        let funct7 = (inst >> 25) & 0x7f;
        proof {
            lemma_decode_bounds(inst);
        }
        let mut inst_step: u64 = 4;
        if op == 0x00 {
            let imm = imm_i(inst);
            let addr = self.read_reg(rs1).wrapping_add(imm);
            if funct3 == 0 {
                self.execute_lb(addr, rd, now)?;
            } else if funct3 == 1 {
                self.execute_lh(addr, rd, now)?;
            } else if funct3 == 2 {
                self.execute_lw(addr, rd, now)?;
            } else if funct3 == 3 {
                self.execute_ld(addr, rd, now)?;
            } else if funct3 == 4 {
                self.execute_lbu(addr, rd, now)?;
            } else if funct3 == 5 {
                self.execute_lhu(addr, rd, now)?;
            } else if funct3 == 6 {
                self.execute_lwu(addr, rd, now)?;
            } else {
                return Err(Exception::IllegalInstruction(inst));
            }
        } else if op == 0x03 {
            if funct3 == 0 {
                self.execute_fence();
            } else {
                return Err(Exception::IllegalInstruction(inst));
            }
        } else if op == 0x04 {
            let imm = imm_i(inst);
            let shamt = imm & 0x3f;
            proof {
                lemma_mask_bounds(imm);
            }
            if funct3 == 0 {
                self.execute_addi(rd, rs1, imm);
            } else if funct3 == 2 {
                self.execute_slti(rd, rs1, imm);
            } else if funct3 == 3 {
                self.execute_sltiu(rd, rs1, imm);
            } else if funct3 == 4 {
                self.execute_xori(rd, rs1, imm);
            } else if funct3 == 6 {
                self.execute_ori(rd, rs1, imm);
            } else if funct3 == 7 {
                self.execute_andi(rd, rs1, imm);
            } else if funct3 == 1 && funct7 >> 1 == 0 {
                self.execute_slli(rd, rs1, shamt);
            } else if funct3 == 5 && funct7 >> 1 == 0 {
                self.execute_srli(rd, rs1, shamt);
            } else if funct3 == 5 && funct7 >> 1 == 0x10 {
                self.execute_srai(rd, rs1, shamt);
            } else {
                return Err(Exception::IllegalInstruction(inst));
            }
        } else if op == 0x05 {
            let imm = imm_u(inst);
            self.execute_auipc(rd, imm);
        } else if op == 0x06 {
            let imm = imm_i(inst);
            let shamt = imm & 0x1f;
            proof {
                lemma_mask_bounds(imm);
            }
            if funct3 == 0 {
                self.execute_addiw(rd, rs1, imm);
            } else if funct3 == 1 && funct7 == 0 {
                self.execute_slliw(rd, rs1, shamt);
            } else if funct3 == 5 && funct7 == 0 {
                self.execute_srliw(rd, rs1, shamt);
            } else if funct3 == 5 && funct7 == 0x20 {
                self.execute_sraiw(rd, rs1, shamt);
            } else {
                return Err(Exception::IllegalInstruction(inst));
            }
        } else if op == 0x08 {
            let imm = imm_s(inst);
            let addr = self.read_reg(rs1).wrapping_add(imm);
            if funct3 == 0 {
                self.execute_sb(addr, rs2, now)?;
            } else if funct3 == 1 {
                self.execute_sh(addr, rs2, now)?;
            } else if funct3 == 2 {
                self.execute_sw(addr, rs2, now)?;
            } else if funct3 == 3 {
                self.execute_sd(addr, rs2, now)?;
            } else {
                return Err(Exception::IllegalInstruction(inst));
            }
        } else if op == 0x0b {
            let t5 = (inst >> 27) & 0x1f;
            if funct3 == 2 && t5 == 1 {
                self.execute_amoswap_w(rd, rs1, rs2, now)?;
            } else if funct3 == 2 && t5 == 0 {
                self.execute_amoadd_w(rd, rs1, rs2, now)?;
            } else if funct3 == 3 && t5 == 1 {
                self.execute_amoswap_d(rd, rs1, rs2, now)?;
            } else if funct3 == 3 && t5 == 0 {
                self.execute_amoadd_d(rd, rs1, rs2, now)?;
            } else {
                return Err(Exception::IllegalInstruction(inst));
            }
        } else if op == 0x0c {
            let b = self.read_reg(rs2);
            let shamt = b & 0x3f;
            proof {
                lemma_mask_bounds(b);
            }
            if funct7 == 0 && funct3 == 0 {
                self.execute_add(rd, rs1, rs2);
            } else if funct7 == 0x20 && funct3 == 0 {
                self.execute_sub(rd, rs1, rs2);
            } else if funct7 == 0 && funct3 == 1 {
                self.execute_sll(rd, rs1, shamt);
            } else if funct7 == 0 && funct3 == 2 {
                self.execute_slt(rd, rs1, rs2);
            } else if funct7 == 0 && funct3 == 3 {
                self.execute_sltu(rd, rs1, rs2);
            } else if funct7 == 0 && funct3 == 4 {
                self.execute_xor(rd, rs1, rs2);
            } else if funct7 == 0 && funct3 == 5 {
                self.execute_srl(rd, rs1, shamt);
            } else if funct7 == 0x20 && funct3 == 5 {
                self.execute_sra(rd, rs1, shamt);
            } else if funct7 == 0 && funct3 == 6 {
                self.execute_or(rd, rs1, rs2);
            } else if funct7 == 0 && funct3 == 7 {
                self.execute_and(rd, rs1, rs2);
            } else if funct7 == 1 && funct3 == 0 {
                self.execute_mul(rd, rs1, rs2);
            } else if funct7 == 1 && funct3 == 5 {
                self.execute_divu(rd, rs1, rs2);
            } else if funct7 == 1 && funct3 == 7 {
                self.execute_remu(rd, rs1, rs2);
            } else {
                return Err(Exception::IllegalInstruction(inst));
            }
        } else if op == 0x0d {
            self.execute_lui(inst, rd);
        } else if op == 0x0e {
            let b = self.read_reg(rs2);
            let shamt = b & 0x1f;
            proof {
                lemma_mask_bounds(b);
            }
            if funct7 == 0 && funct3 == 0 {
                self.execute_addw(rd, rs1, rs2);
            } else if funct7 == 0x20 && funct3 == 0 {
                self.execute_subw(rd, rs1, rs2);
            } else if funct7 == 0 && funct3 == 1 {
                self.execute_sllw(rd, rs1, shamt);
            } else if funct7 == 0 && funct3 == 5 {
                self.execute_srlw(rd, rs1, shamt);
            } else if funct7 == 0x20 && funct3 == 5 {
                self.execute_sraw(rd, rs1, shamt);
            } else if funct7 == 1 && funct3 == 7 {
                self.execute_remuw(rd, rs1, rs2);
            } else {
                return Err(Exception::IllegalInstruction(inst));
            }
        } else if op == 0x18 {
            let imm = imm_b(inst);
            if funct3 == 0 {
                inst_step = self.execute_beq(rs1, rs2, imm);
            } else if funct3 == 1 {
                inst_step = self.execute_bne(rs1, rs2, imm);
            } else if funct3 == 4 {
                inst_step = self.execute_blt(rs1, rs2, imm);
            } else if funct3 == 5 {
                inst_step = self.execute_bge(rs1, rs2, imm);
            } else if funct3 == 6 {
                inst_step = self.execute_bltu(rs1, rs2, imm);
            } else if funct3 == 7 {
                inst_step = self.execute_bgeu(rs1, rs2, imm);
            } else {
                return Err(Exception::IllegalInstruction(inst));
            }
        } else if op == 0x19 {
            if funct3 == 0 {
                let imm = imm_i(inst);
                self.execute_jalr(rd, rs1, imm);
                inst_step = 0;
            } else {
                return Err(Exception::IllegalInstruction(inst));
            }
        } else if op == 0x1b {
            let imm = imm_j(inst);
            self.execute_jal(rd, imm);
            inst_step = 0;
        } else if op == 0x1c {
            let csr_addr = (inst >> 20) & 0xfff;
            let uimm = rs1;
            if funct3 == 0 {
                if rs2 == 0 {
                    self.execute_ecall()?;
                } else if rs2 == 1 {
                    self.execute_ebreak()?;
                } else if rs2 == 2 {
                    if funct7 == 0x08 {
                        self.execute_sret();
                        inst_step = 0;
                    } else if funct7 == 0x18 {
                        self.execute_mret();
                        inst_step = 0;
                    } else {
                        return Err(Exception::IllegalInstruction(inst));
                    }
                } else {
                    if funct7 == 0x09 {
                        self.execute_sfence_vma();
                    } else {
                        return Err(Exception::IllegalInstruction(inst));
                    }
                }
            } else if funct3 == 1 {
                self.execute_csrrw(csr_addr, rd, rs1);
            } else if funct3 == 2 {
                self.execute_csrrs(csr_addr, rd, rs1);
            } else if funct3 == 3 {
                self.execute_csrrc(csr_addr, rd, rs1);
            } else if funct3 == 5 {
                self.execute_csrrwi(csr_addr, rd, uimm);
            } else if funct3 == 6 {
                self.execute_csrrsi(csr_addr, rd, uimm);
            } else if funct3 == 7 {
                self.execute_csrrci(csr_addr, rd, uimm);
            } else {
                return Err(Exception::IllegalInstruction(inst));
            }
        } else {
            return Err(Exception::IllegalInstruction(inst));
        }
        self.pc = self.pc.wrapping_add(inst_step);
        Ok(())
    }

    /// The per-step device poll: gate on `mstatus.MIE` in machine mode,
    /// fold the CLINT's timer and software conditions into `mip`, and
    /// assert the external pending bit for whatever the PLIC lets the
    /// current context claim.
    pub fn poll_devices(&mut self, now: u64)
        requires
            old(self).wf(),
        ensures
            final(self).wf(),
            devices_rel(*old(self), now, *final(self)),
    {
        if self.mode == Mode::Machine && (self.csr.load(MSTATUS) >> 3) & 1 == 0 {
            return;
        }
        let (mti, msi) = self.bus.clint.check_interrupts(0, now);
        let mut mip = self.csr.load(MIP);
        if mti {
            mip = mip | 0x80;
        }
        if msi {
            mip = mip | 0x8;
        }
        let ctx: u64 = if self.mode == Mode::Machine {
            0
        } else {
            1
        };
        let ghost plic_pre = self.bus.plic;
        let claimed = self.bus.plic.claim(ctx);
        match claimed {
            Some(irq) => {
                if ctx == 0 {
                    self.csr.store(MIP, mip | 0x800);
                } else {
                    self.csr.store(MIP, mip);
                    let sip = self.csr.load(SIP);
                    self.csr.store(SIP, sip | 0x200);
                }
            },
            None => {
                self.csr.store(MIP, mip);
            },
        }
        proof {
            assert(devices_claim_rel(*old(self), now, *self, claimed));
        }
    }

    /// One hart step at host tick count `now` with console input `input`:
    /// poll the console, fetch, execute, deliver any trap, then poll the
    /// devices and take any pending interrupt. Register 0 reads zero when
    /// the step is over, whatever the instruction did.
    pub fn step_at(&mut self, now: u64, input: Option<u8>) -> (r: StepOutcome)
        requires
            old(self).wf(),
        ensures
            final(self).wf(),
            final(self).regs@[0] == 0,
            step_rel(*old(self), now, input, *final(self), r),
    {
        self.bus.poll_uart(input);
        let ghost a = *self;
        let fetched = self.fetch(now);
        let ghost b = *self;
        match fetched {
            Err(e) => {
                self.handle_exception(e);
                proof {
                    assert(uart_poll_rel(*old(self), input, a));
                    assert(fetch_state_rel(a, b));
                }
                if e.is_fatal() {
                    StepOutcome::Halt
                } else {
                    StepOutcome::KeepRunning
                }
            },
            Ok(inst) => {
                let executed = self.execute(inst, now);
                let ghost c = *self;
                match executed {
                    Err(e) => {
                        self.handle_exception(e);
                        let ghost d = *self;
                        if e.is_fatal() {
                            proof {
                                assert(uart_poll_rel(*old(self), input, a));
                                assert(fetch_state_rel(a, b));
                                assert(execute_rel(b, inst, now, c, executed));
                            }
                            StepOutcome::Halt
                        } else {
                            self.interrupt_phase(now);
                            proof {
                                assert(uart_poll_rel(*old(self), input, a));
                                assert(fetch_state_rel(a, b));
                                assert(execute_rel(b, inst, now, c, executed));
                                assert(exception_rel(c, e, d));
                            }
                            StepOutcome::KeepRunning
                        }
                    },
                    Ok(u) => {
                        self.interrupt_phase(now);
                        proof {
                            assert(uart_poll_rel(*old(self), input, a));
                            assert(fetch_state_rel(a, b));
                            assert(execute_rel(b, inst, now, c, executed));
                        }
                        StepOutcome::KeepRunning
                    },
                }
            },
        }
    }

    /// The interrupt tail of a step: poll the devices, then take and
    /// deliver the winning pending interrupt, if any.
    fn interrupt_phase(&mut self, now: u64)
        requires
            old(self).wf(),
        ensures
            final(self).wf(),
            interrupt_phase_rel(*old(self), now, *final(self)),
    {
        self.poll_devices(now);
        let ghost d = *self;
        match self.check_interrupt() {
            Some(i) => {
                let ghost e = *self;
                self.handle_interrupt(i);
                proof {
                    assert(devices_rel(*old(self), now, d));
                    assert(with_csr(d, ip_cleared(d.csr@, i), e) && interrupt_rel(e, i, *self));
                }
            },
            None => {
                proof {
                    assert(devices_rel(*old(self), now, d));
                    assert(with_csr(d, d.csr@, *self));
                }
            },
        }
    }

    /// One hart step against the live host: sample the wall clock once and
    /// run `step_at` on it with the console byte the host handed in.
    pub fn step(&mut self, input: Option<u8>) -> (r: StepOutcome)
        requires
            old(self).wf(),
        ensures
            final(self).wf(),
            final(self).regs@[0] == 0,
            exists|now: u64| step_rel(*old(self), now, input, *final(self), r),
    {
        let now = self.bus.clint.mtime_now();
        self.step_at(now, input)
    }
}


/// Decode-field bounds used by the dispatcher: every register and CSR
/// field fits its file.
pub proof fn lemma_decode_bounds(inst: u64)
    by (bit_vector)
    ensures
        (inst >> 7) & 0x1f < 32,
        (inst >> 15) & 0x1f < 32,
        (inst >> 20) & 0x1f < 32,
        (inst >> 20) & 0xfff < 4096,
        (inst >> 12) & 0x7 < 8,
        (inst >> 25) & 0x7f < 128,
        (inst >> 2) & 0x1f < 32,
        (inst >> 27) & 0x1f < 32,
{
}

/// Mask bounds for shift amounts taken from an immediate or a register.
pub proof fn lemma_mask_bounds(x: u64)
    by (bit_vector)
    ensures
        x & 0x3f < 64,
        x & 0x1f < 32,
{
}

/// The I-form immediate, as `imm_i_of` states it.
fn imm_i(inst: u64) -> (r: u64)
    ensures
        r == imm_i_of(inst),
{
    let v = (inst >> 20) & 0xfff;
    if v >= 0x800 {
        v | 0xffff_ffff_ffff_f000
    } else {
        v
    }
}

/// The S-form immediate, as `imm_s_of` states it.
fn imm_s(inst: u64) -> (r: u64)
    ensures
        r == imm_s_of(inst),
{
    let v = (((inst >> 25) & 0x7f) << 5) | ((inst >> 7) & 0x1f);
    if v >= 0x800 {
        v | 0xffff_ffff_ffff_f000
    } else {
        v
    }
}

/// The B-form immediate, as `imm_b_of` states it.
fn imm_b(inst: u64) -> (r: u64)
    ensures
        r == imm_b_of(inst),
{
    let v = (((inst >> 7) & 0x1) << 11) | (((inst >> 25) & 0x3f) << 5) | (((inst >> 8) & 0xf)
        << 1);
    if inst & 0x8000_0000 != 0 {
        v | 0xffff_ffff_ffff_f000
    } else {
        v
    }
}

/// The U-form immediate, as `imm_u_of` states it.
fn imm_u(inst: u64) -> (r: u64)
    ensures
        r == imm_u_of(inst),
{
    if inst & 0x8000_0000 != 0 {
        (inst & 0xffff_f000) | 0xffff_ffff_0000_0000
    } else {
        inst & 0xffff_f000
    }
}

/// The J-form immediate, as `imm_j_of` states it.
fn imm_j(inst: u64) -> (r: u64)
    ensures
        r == imm_j_of(inst),
{
    let v = (inst & 0xff000) | (((inst >> 20) & 0x1) << 11) | (((inst >> 21) & 0x3ff) << 1);
    if inst & 0x8000_0000 != 0 {
        v | 0xffff_ffff_fff0_0000
    } else {
        v
    }
}

} // verus!