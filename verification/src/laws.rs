//! Laws of the trap machinery and the CSR instructions, stated over the
//! same relations and spec functions the executable contracts use.

use vstd::prelude::*;

use crate::address::{MCAUSE, MEDELEG, MEPC, MSTATUS, MTVEC, SCAUSE, SEPC, SSTATUS, STVEC};
use crate::cpu::{
    csr_of, exception_rel, exception_target_s, execute_rel, funct3_of, interrupt_rel,
    interrupt_target_s, mret_mode, mstatus_on_mret, rd_of, rs1_of, sret_mode, sstatus_on_sret,
    sstatus_on_trap, wadd, Cpu, Mode,
};
use crate::exception::Exception;
use crate::interrupt::Interrupt;

verus! {

/// After any exception trap, the program counter sits on the handler base
/// (`mtvec`/`stvec` with the mode bits masked off — exceptions always
/// dispatch direct), and `mepc`/`sepc` holds the pre-trap program counter.
pub proof fn lemma_exception_entry(pre: Cpu, e: Exception, post: Cpu)
    requires
        pre.wf(),
        exception_rel(pre, e, post),
    ensures
        exception_target_s(pre, e) ==> post.pc == pre.csr@[STVEC as int] & !0b11
            && post.csr@[SEPC as int] == pre.pc,
        !exception_target_s(pre, e) ==> post.pc == pre.csr@[MTVEC as int] & !0b11
            && post.csr@[MEPC as int] == pre.pc,
{
}

/// After any interrupt trap, the program counter sits on the handler base
/// in direct mode, or on the base plus four times the cause code in
/// vectored mode, and `mepc`/`sepc` holds the pre-trap program counter.
pub proof fn lemma_interrupt_entry(pre: Cpu, i: Interrupt, post: Cpu)
    requires
        pre.wf(),
        interrupt_rel(pre, i, post),
    ensures
        interrupt_target_s(pre, i) ==> {
            let stvec = pre.csr@[STVEC as int];
            &&& post.csr@[SEPC as int] == pre.pc
            &&& post.pc == (if stvec & 0b11 == 0b01 {
                wadd(stvec & !0b11, (4 * i.spec_cause_code()) as u64)
            } else {
                stvec & !0b11
            })
        },
        !interrupt_target_s(pre, i) ==> {
            let mtvec = pre.csr@[MTVEC as int];
            &&& post.csr@[MEPC as int] == pre.pc
            &&& post.pc == (if mtvec & 0b11 == 0b01 {
                wadd(mtvec & !0b11, (4 * i.spec_cause_code()) as u64)
            } else {
                mtvec & !0b11
            })
        },
{
    let code = i.spec_cause_code();
    assert(code <= 13);
    assert(code << 2u64 == 4 * code) by (bit_vector)
        requires
            code <= 13u64,
    ;
}

/// A breakpoint taken in machine mode with no delegation: `mcause`
/// records the breakpoint, `mepc` records the address of the trapping
/// instruction (the payload a breakpoint carries is that address, which
/// `execute` guarantees), and control moves to the direct handler base.
pub proof fn lemma_breakpoint_entry(pre: Cpu, p: u64, post: Cpu)
    requires
        pre.wf(),
        pre.mode == Mode::Machine,
        pre.csr@[MEDELEG as int] == 0,
        pre.pc == p,
        exception_rel(pre, Exception::Breakpoint(p), post),
    ensures
        post.csr@[MCAUSE as int] == 3,
        post.csr@[MEPC as int] == p,
        post.pc == pre.csr@[MTVEC as int] & !0b11,
{
}

/// An environment call from user mode with its cause delegated: the hart
/// enters supervisor mode, `scause` and `sepc` record the call and the
/// address of the `ecall` (the payload it carries is that address, which
/// `execute` guarantees), `sstatus.SPP` records the user mode it came
/// from, and the machine trap registers are untouched.
pub proof fn lemma_ecall_delegation(pre: Cpu, p: u64, post: Cpu)
    requires
        pre.wf(),
        pre.mode == Mode::User,
        (pre.csr@[MEDELEG as int] >> 8) & 1 == 1,
        pre.pc == p,
        exception_rel(pre, Exception::EnvironmentCallFromUMode(p), post),
    ensures
        post.mode == Mode::Supervisor,
        post.csr@[SCAUSE as int] == 8,
        post.csr@[SEPC as int] == p,
        (post.csr@[SSTATUS as int] >> 8) & 1 == 0,
        post.csr@[MEPC as int] == pre.csr@[MEPC as int],
        post.csr@[MCAUSE as int] == pre.csr@[MCAUSE as int],
        post.csr@[MSTATUS as int] == pre.csr@[MSTATUS as int],
{
    let s = pre.csr@[SSTATUS as int];
    let t = sstatus_on_trap(s, Mode::User);
    assert(t == (((((s & !0x2) & !0x20) | (((s >> 1) & 0b1) << 5)) & !0x100) | (0u64 << 8)));
    assert((t >> 8) & 1 == 0) by (bit_vector)
        requires
            t == (((((s & !0x2) & !0x20) | (((s >> 1) & 0b1) << 5)) & !0x100) | (0u64 << 8)),
    ;
}

/// `mret` restores the stacked trap context: the mode comes back from
/// `MPP`, `MIE` from `MPIE`, and the stack is reset to `(MPP, MPIE) =
/// (User, set)`. The reserved `MPP` encoding, which no trap entry writes,
/// is left out.
pub proof fn lemma_mret_restores(m: u64)
    requires
        (m >> 11) & 0b11 != 0b10,
    ensures
        mret_mode(m).spec_code() == (m >> 11) & 0b11,
        (mstatus_on_mret(m) >> 3) & 1 == (m >> 7) & 1,
        (mstatus_on_mret(m) >> 11) & 0b11 == 0,
        (mstatus_on_mret(m) >> 7) & 1 == 1,
{
    assert((m >> 11) & 0b11 == 0 || (m >> 11) & 0b11 == 1 || (m >> 11) & 0b11 == 2 || (m >> 11)
        & 0b11 == 3) by (bit_vector);
    assert((mstatus_on_mret(m) >> 3) & 1 == (m >> 7) & 1 && (mstatus_on_mret(m) >> 11) & 0b11
        == 0 && (mstatus_on_mret(m) >> 7) & 1 == 1) by (bit_vector);
}

/// `sret` restores the stacked trap context: the mode comes back from
/// `SPP`, `SIE` from `SPIE`, and the stack is reset to `(SPP, SPIE) =
/// (User, set)`.
pub proof fn lemma_sret_restores(s: u64)
    ensures
        sret_mode(s).spec_code() == (s >> 8) & 1,
        (sstatus_on_sret(s) >> 1) & 1 == (s >> 5) & 1,
        (sstatus_on_sret(s) >> 8) & 1 == 0,
        (sstatus_on_sret(s) >> 5) & 1 == 1,
{
    assert((s >> 8) & 1 == 0 || (s >> 8) & 1 == 1) by (bit_vector);
    assert((sstatus_on_sret(s) >> 1) & 1 == (s >> 5) & 1 && (sstatus_on_sret(s) >> 8) & 1 == 0
        && (sstatus_on_sret(s) >> 5) & 1 == 1) by (bit_vector);
}

/// `csrrs rd, csr, x0` reads the addressed CSR without mutating it: the
/// mask register is wired to zero, so the written-back value is the old
/// one.
pub proof fn lemma_csrrs_x0_reads_only(
    pre: Cpu,
    inst: u64,
    now: u64,
    post: Cpu,
    r: Result<(), Exception>,
)
    requires
        pre.wf(),
        execute_rel(pre, inst, now, post, r),
        inst & 0b11 == 0b11,
        (inst >> 2) & 0x1f == 0x1c,
        funct3_of(inst) == 2,
        rs1_of(inst) == 0,
    ensures
        post.csr@ == pre.csr@,
        r == Ok::<(), Exception>(()),
{
    crate::cpu::lemma_decode_bounds(inst);
    let t = pre.csr@[csr_of(inst) as int];
    assert(t | 0u64 == t) by (bit_vector);
    assert(post.csr@ =~= pre.csr@);
}

/// `csrrw x0, csr, rs` writes the addressed CSR without any observable
/// read side effect: the destination is wired to zero, so the register
/// file is untouched.
pub proof fn lemma_csrrw_x0_writes_only(
    pre: Cpu,
    inst: u64,
    now: u64,
    post: Cpu,
    r: Result<(), Exception>,
)
    requires
        pre.wf(),
        execute_rel(pre, inst, now, post, r),
        inst & 0b11 == 0b11,
        (inst >> 2) & 0x1f == 0x1c,
        funct3_of(inst) == 1,
        rd_of(inst) == 0,
    ensures
        post.regs@ == pre.regs@,
        post.csr@ == pre.csr@.update(
            csr_of(inst) as int,
            pre.regs@[rs1_of(inst) as int],
        ),
        r == Ok::<(), Exception>(()),
{
}

} // verus!

