//! Synchronous exceptions. Each variant carries a 64-bit payload: the
//! faulting address, the offending instruction word, or the program counter.

use vstd::prelude::*;

verus! {

#[derive(Debug, Clone, Copy, PartialEq, Eq, Structural)]
pub enum Exception {
    InstructionAddressMisaligned(u64),
    InstructionAccessFault(u64),
    IllegalInstruction(u64),
    Breakpoint(u64),
    LoadAddressMisaligned(u64),
    LoadAccessFault(u64),
    StoreAMOAddressMisaligned(u64),
    StoreAMOAccessFault(u64),
    EnvironmentCallFromUMode(u64),
    EnvironmentCallFromSMode(u64),
    EnvironmentCallFromMMode(u64),
    InstructionPageFault(u64),
    LoadPageFault(u64),
    StoreAMOPageFault(u64),
}

impl Exception {
    /// The payload: the offending value, written to `mtval`/`stval` on trap
    /// entry.
    pub open spec fn spec_value(self) -> u64 {
        match self {
            Exception::InstructionAddressMisaligned(v) => v,
            Exception::InstructionAccessFault(v) => v,
            Exception::IllegalInstruction(v) => v,
            Exception::Breakpoint(v) => v,
            Exception::LoadAddressMisaligned(v) => v,
            Exception::LoadAccessFault(v) => v,
            Exception::StoreAMOAddressMisaligned(v) => v,
            Exception::StoreAMOAccessFault(v) => v,
            Exception::EnvironmentCallFromUMode(v) => v,
            Exception::EnvironmentCallFromSMode(v) => v,
            Exception::EnvironmentCallFromMMode(v) => v,
            Exception::InstructionPageFault(v) => v,
            Exception::LoadPageFault(v) => v,
            Exception::StoreAMOPageFault(v) => v,
        }
    }

    #[verifier::when_used_as_spec(spec_value)]
    pub fn value(self) -> (r: u64)
        ensures
            r == self.spec_value(),
    {
        match self {
            Exception::InstructionAddressMisaligned(v) => v,
            Exception::InstructionAccessFault(v) => v,
            Exception::IllegalInstruction(v) => v,
            Exception::Breakpoint(v) => v,
            Exception::LoadAddressMisaligned(v) => v,
            Exception::LoadAccessFault(v) => v,
            Exception::StoreAMOAddressMisaligned(v) => v,
            Exception::StoreAMOAccessFault(v) => v,
            Exception::EnvironmentCallFromUMode(v) => v,
            Exception::EnvironmentCallFromSMode(v) => v,
            Exception::EnvironmentCallFromMMode(v) => v,
            Exception::InstructionPageFault(v) => v,
            Exception::LoadPageFault(v) => v,
            Exception::StoreAMOPageFault(v) => v,
        }
    }

    /// The exception cause code, written to `mcause`/`scause` on trap entry.
    pub open spec fn spec_code(self) -> u64 {
        match self {
            Exception::InstructionAddressMisaligned(_) => 0,
            Exception::InstructionAccessFault(_) => 1,
            Exception::IllegalInstruction(_) => 2,
            Exception::Breakpoint(_) => 3,
            Exception::LoadAddressMisaligned(_) => 4,
            Exception::LoadAccessFault(_) => 5,
            Exception::StoreAMOAddressMisaligned(_) => 6,
            Exception::StoreAMOAccessFault(_) => 7,
            Exception::EnvironmentCallFromUMode(_) => 8,
            Exception::EnvironmentCallFromSMode(_) => 9,
            Exception::EnvironmentCallFromMMode(_) => 11,
            Exception::InstructionPageFault(_) => 12,
            Exception::LoadPageFault(_) => 13,
            Exception::StoreAMOPageFault(_) => 15,
        }
    }

    #[verifier::when_used_as_spec(spec_code)]
    pub fn code(self) -> (r: u64)
        ensures
            r == self.spec_code(),
    {
        match self {
            Exception::InstructionAddressMisaligned(_) => 0,
            Exception::InstructionAccessFault(_) => 1,
            Exception::IllegalInstruction(_) => 2,
            Exception::Breakpoint(_) => 3,
            Exception::LoadAddressMisaligned(_) => 4,
            Exception::LoadAccessFault(_) => 5,
            Exception::StoreAMOAddressMisaligned(_) => 6,
            Exception::StoreAMOAccessFault(_) => 7,
            Exception::EnvironmentCallFromUMode(_) => 8,
            Exception::EnvironmentCallFromSMode(_) => 9,
            Exception::EnvironmentCallFromMMode(_) => 11,
            Exception::InstructionPageFault(_) => 12,
            Exception::LoadPageFault(_) => 13,
            Exception::StoreAMOPageFault(_) => 15,
        }
    }

    /// Whether the run terminates after the trap is delivered: a runaway
    /// guest must not loop forever on a fault it cannot handle.
    pub open spec fn spec_is_fatal(self) -> bool {
        match self {
            Exception::InstructionAddressMisaligned(_) => true,
            Exception::InstructionAccessFault(_) => true,
            Exception::IllegalInstruction(_) => true,
            Exception::LoadAccessFault(_) => true,
            Exception::StoreAMOAddressMisaligned(_) => true,
            Exception::StoreAMOAccessFault(_) => true,
            _ => false,
        }
    }

    #[verifier::when_used_as_spec(spec_is_fatal)]
    pub fn is_fatal(self) -> (r: bool)
        ensures
            r == self.spec_is_fatal(),
    {
        match self {
            Exception::InstructionAddressMisaligned(_)
            | Exception::InstructionAccessFault(_)
            | Exception::LoadAccessFault(_)
            | Exception::StoreAMOAddressMisaligned(_)
            | Exception::StoreAMOAccessFault(_)
            | Exception::IllegalInstruction(_) => true,
            _ => false,
        }
    }
}

} // verus!
