//! Asynchronous interrupts and their cause codes.

use vstd::prelude::*;

verus! {

/// Bit 63 of `mcause`/`scause`: set for interrupts, clear for exceptions.
pub const INTERRUPT_BIT: u64 = 0x8000_0000_0000_0000;

#[derive(Debug, Clone, Copy, PartialEq, Eq, Structural)]
pub enum Interrupt {
    SupervisorSoftwareInterrupt,
    MachineSoftwareInterrupt,
    SupervisorTimerInterrupt,
    MachineTimerInterrupt,
    SupervisorExternalInterrupt,
    MachineExternalInterrupt,
    CounterOverflowInterrupt,
}

impl Interrupt {
    /// The value written to `mcause`/`scause`: the cause code with the
    /// interrupt bit set.
    pub open spec fn spec_code(self) -> u64 {
        match self {
            Interrupt::SupervisorSoftwareInterrupt => 1 | INTERRUPT_BIT,
            Interrupt::MachineSoftwareInterrupt => 3 | INTERRUPT_BIT,
            Interrupt::SupervisorTimerInterrupt => 5 | INTERRUPT_BIT,
            Interrupt::MachineTimerInterrupt => 7 | INTERRUPT_BIT,
            Interrupt::SupervisorExternalInterrupt => 9 | INTERRUPT_BIT,
            Interrupt::MachineExternalInterrupt => 11 | INTERRUPT_BIT,
            Interrupt::CounterOverflowInterrupt => 13 | INTERRUPT_BIT,
        }
    }

    #[verifier::when_used_as_spec(spec_code)]
    pub fn code(self) -> (r: u64)
        ensures
            r == self.spec_code(),
    {
        match self {
            Interrupt::SupervisorSoftwareInterrupt => 1 | INTERRUPT_BIT,
            Interrupt::MachineSoftwareInterrupt => 3 | INTERRUPT_BIT,
            Interrupt::SupervisorTimerInterrupt => 5 | INTERRUPT_BIT,
            Interrupt::MachineTimerInterrupt => 7 | INTERRUPT_BIT,
            Interrupt::SupervisorExternalInterrupt => 9 | INTERRUPT_BIT,
            Interrupt::MachineExternalInterrupt => 11 | INTERRUPT_BIT,
            Interrupt::CounterOverflowInterrupt => 13 | INTERRUPT_BIT,
        }
    }

    /// The cause code without the interrupt bit, as used for `mideleg`
    /// lookups and vectored dispatch.
    pub open spec fn spec_cause_code(self) -> u64 {
        match self {
            Interrupt::SupervisorSoftwareInterrupt => 1,
            Interrupt::MachineSoftwareInterrupt => 3,
            Interrupt::SupervisorTimerInterrupt => 5,
            Interrupt::MachineTimerInterrupt => 7,
            Interrupt::SupervisorExternalInterrupt => 9,
            Interrupt::MachineExternalInterrupt => 11,
            Interrupt::CounterOverflowInterrupt => 13,
        }
    }

    #[verifier::when_used_as_spec(spec_cause_code)]
    pub fn cause_code(self) -> (r: u64)
        ensures
            r == self.spec_cause_code(),
    {
        match self {
            Interrupt::SupervisorSoftwareInterrupt => 1,
            Interrupt::MachineSoftwareInterrupt => 3,
            Interrupt::SupervisorTimerInterrupt => 5,
            Interrupt::MachineTimerInterrupt => 7,
            Interrupt::SupervisorExternalInterrupt => 9,
            Interrupt::MachineExternalInterrupt => 11,
            Interrupt::CounterOverflowInterrupt => 13,
        }
    }
}

} // verus!
