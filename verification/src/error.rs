//! The fault taxonomy of the guest execution core.
//!
//! Every fault is unrecoverable for the guest task in which it occurs: it is
//! surfaced to whoever invoked the task, never swallowed or retried.

use vstd::prelude::*;

verus! {

/// A fatal emulation error.
#[derive(Clone, Copy, Debug, PartialEq, Eq, Structural)]
pub enum EmuError {
    /// An address range left the guest address space.
    OutOfBounds { address: u32, size: u32 },
    /// No free region satisfies an allocation request, or a free was asked
    /// of an address that is not a currently used allocation base.
    AllocationFailure { address: u32 },
    /// The interpreter cannot decode or safely execute an instruction.
    UnsupportedInstruction { address: u32, word: u32 },
    /// A host/guest call could not be marshalled per the calling convention.
    CallConventionViolation,
    /// A host collaborator failed on the core's behalf.
    HostIoFailure,
}

impl EmuError {
    /// A short description of the fault kind, for host-side logs.
    pub fn kind_name(&self) -> (r: &'static str)
        ensures
            r@ == match *self {
                EmuError::OutOfBounds { .. } => "out of bounds"@,
                EmuError::AllocationFailure { .. } => "allocation failure"@,
                EmuError::UnsupportedInstruction { .. } => "unsupported instruction"@,
                EmuError::CallConventionViolation => "call convention violation"@,
                EmuError::HostIoFailure => "host i/o failure"@,
            },
    {
        match *self {
            EmuError::OutOfBounds { .. } => "out of bounds",
            EmuError::AllocationFailure { .. } => "allocation failure",
            EmuError::UnsupportedInstruction { .. } => "unsupported instruction",
            EmuError::CallConventionViolation => "call convention violation",
            EmuError::HostIoFailure => "host i/o failure",
        }
    }
}

} // verus!
