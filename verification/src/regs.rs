//! The emulated processor's register file.
//!
//! A plain copy-semantics value type: snapshot and restore are exact,
//! bit for bit.  Exactly one register file is live (bound to the
//! interpreter) at any instant; all others are inert snapshots owned by
//! suspended tasks.

use vstd::prelude::*;

verus! {

/// A control transfer to this address signals that the current guest
/// function call has returned.
pub const RETURN_SENTINEL: u32 = 0xffff_fffc;

/// Zero flag bit of the status register: the last comparison was equal.
pub const FLAG_ZERO: u32 = 0x4000_0000;

/// Negative flag bit of the status register: in the last comparison the
/// first operand was below the second.
pub const FLAG_NEGATIVE: u32 = 0x8000_0000;

/// General-purpose registers, stack pointer, link register, program
/// counter and status flags of the emulated processor.
#[derive(Clone, Copy, Debug, PartialEq, Eq, Structural)]
pub struct RegisterFile {
    pub r0: u32,
    pub r1: u32,
    pub r2: u32,
    pub r3: u32,
    pub r4: u32,
    pub r5: u32,
    pub r6: u32,
    pub r7: u32,
    pub r8: u32,
    pub r9: u32,
    pub r10: u32,
    pub r11: u32,
    pub r12: u32,
    pub sp: u32,
    pub lr: u32,
    pub pc: u32,
    pub cpsr: u32,
}

impl RegisterFile {
    /// The value of general register `idx`; registers 13, 14 and 15 are the
    /// stack pointer, the link register and the program counter.
    pub open spec fn reg(self, idx: int) -> u32 {
        if idx == 0 { self.r0 }
        else if idx == 1 { self.r1 }
        else if idx == 2 { self.r2 }
        else if idx == 3 { self.r3 }
        else if idx == 4 { self.r4 }
        else if idx == 5 { self.r5 }
        else if idx == 6 { self.r6 }
        else if idx == 7 { self.r7 }
        else if idx == 8 { self.r8 }
        else if idx == 9 { self.r9 }
        else if idx == 10 { self.r10 }
        else if idx == 11 { self.r11 }
        else if idx == 12 { self.r12 }
        else if idx == 13 { self.sp }
        else if idx == 14 { self.lr }
        else { self.pc }
    }

    /// The register file with general register `idx` set to `value`.
    pub open spec fn with_reg(self, idx: int, value: u32) -> RegisterFile {
        if idx == 0 { RegisterFile { r0: value, ..self } }
        else if idx == 1 { RegisterFile { r1: value, ..self } }
        else if idx == 2 { RegisterFile { r2: value, ..self } }
        else if idx == 3 { RegisterFile { r3: value, ..self } }
        else if idx == 4 { RegisterFile { r4: value, ..self } }
        else if idx == 5 { RegisterFile { r5: value, ..self } }
        else if idx == 6 { RegisterFile { r6: value, ..self } }
        else if idx == 7 { RegisterFile { r7: value, ..self } }
        else if idx == 8 { RegisterFile { r8: value, ..self } }
        else if idx == 9 { RegisterFile { r9: value, ..self } }
        else if idx == 10 { RegisterFile { r10: value, ..self } }
        else if idx == 11 { RegisterFile { r11: value, ..self } }
        else if idx == 12 { RegisterFile { r12: value, ..self } }
        else if idx == 13 { RegisterFile { sp: value, ..self } }
        else if idx == 14 { RegisterFile { lr: value, ..self } }
        else { RegisterFile { pc: value, ..self } }
    }

    /// The zero flag is set.
    pub open spec fn flag_zero(self) -> bool {
        self.cpsr & FLAG_ZERO != 0
    }

    /// A register file with every register zero.
    pub open spec fn zeroed_spec() -> RegisterFile {
        RegisterFile {
            r0: 0, r1: 0, r2: 0, r3: 0, r4: 0, r5: 0, r6: 0, r7: 0,
            r8: 0, r9: 0, r10: 0, r11: 0, r12: 0, sp: 0, lr: 0, pc: 0,
            cpsr: 0,
        }
    }

    /// A fresh register file with every register zero.
    pub fn zeroed() -> (r: RegisterFile)
        ensures
            r == RegisterFile::zeroed_spec(),
    {
        RegisterFile {
            r0: 0, r1: 0, r2: 0, r3: 0, r4: 0, r5: 0, r6: 0, r7: 0,
            r8: 0, r9: 0, r10: 0, r11: 0, r12: 0, sp: 0, lr: 0, pc: 0,
            cpsr: 0,
        }
    }

    /// Read general register `idx`.
    pub fn get(&self, idx: u32) -> (r: u32)
        requires
            idx < 16,
        ensures
            r == self.reg(idx as int),
    {
        if idx == 0 { self.r0 }
        else if idx == 1 { self.r1 }
        else if idx == 2 { self.r2 }
        else if idx == 3 { self.r3 }
        else if idx == 4 { self.r4 }
        else if idx == 5 { self.r5 }
        else if idx == 6 { self.r6 }
        else if idx == 7 { self.r7 }
        else if idx == 8 { self.r8 }
        else if idx == 9 { self.r9 }
        else if idx == 10 { self.r10 }
        else if idx == 11 { self.r11 }
        else if idx == 12 { self.r12 }
        else if idx == 13 { self.sp }
        else if idx == 14 { self.lr }
        else { self.pc }
    }

    /// Write general register `idx`.
    pub fn set(&mut self, idx: u32, value: u32)
        requires
            idx < 16,
        ensures
            *final(self) == old(self).with_reg(idx as int, value),
    {
        if idx == 0 { self.r0 = value; }
        else if idx == 1 { self.r1 = value; }
        else if idx == 2 { self.r2 = value; }
        else if idx == 3 { self.r3 = value; }
        else if idx == 4 { self.r4 = value; }
        else if idx == 5 { self.r5 = value; }
        else if idx == 6 { self.r6 = value; }
        else if idx == 7 { self.r7 = value; }
        else if idx == 8 { self.r8 = value; }
        else if idx == 9 { self.r9 = value; }
        else if idx == 10 { self.r10 = value; }
        else if idx == 11 { self.r11 = value; }
        else if idx == 12 { self.r12 = value; }
        else if idx == 13 { self.sp = value; }
        else if idx == 14 { self.lr = value; }
        else { self.pc = value; }
    }
}

} // verus!
