//! The guest instruction set: fixed-width 32-bit words, decoded one at a
//! time by the interpreter.
//!
//! The layout is rigid: the opcode sits in the top byte, register operands
//! in the nibbles below it, and immediates in the low bits.  Branch targets
//! are absolute word-aligned addresses packed into the low 24 bits.

use vstd::prelude::*;

verus! {

/// One decoded guest instruction.
#[derive(Clone, Copy, Debug, PartialEq, Eq, Structural)]
pub enum Instr {
    /// `rd := imm` (16-bit immediate).
    MovImm { rd: u32, imm: u32 },
    /// `rd := rn`.
    MovReg { rd: u32, rn: u32 },
    /// `rd := rn + rm`, wrapping.
    Add { rd: u32, rn: u32, rm: u32 },
    /// `rd := rn - rm`, wrapping.
    Sub { rd: u32, rn: u32, rm: u32 },
    /// `rd := word at [rn + off]`.
    Ldr { rd: u32, rn: u32, off: u32 },
    /// `word at [rn + off] := rd`.
    Str { rd: u32, rn: u32, off: u32 },
    /// Compare `rn` with `rm` and set the status flags.
    Cmp { rn: u32, rm: u32 },
    /// Branch to the absolute address `target`.
    B { target: u32 },
    /// Branch to `target` when the zero flag is set.
    Beq { target: u32 },
    /// Branch to `target` when the zero flag is clear.
    Bne { target: u32 },
    /// Call: `lr := pc + 4`, branch to `target`.
    Bl { target: u32 },
    /// Branch to the address held in `rn`; `bx lr` returns from a call.
    Bx { rn: u32 },
}

/// Operands lie in their encodable ranges: register indices below 16,
/// immediates in 16 bits, offsets in 12 bits, branch targets word-aligned
/// below `0x0400_0000`.
pub open spec fn instr_wf(i: Instr) -> bool {
    match i {
        Instr::MovImm { rd, imm } => rd < 16 && imm < 0x1_0000,
        Instr::MovReg { rd, rn } => rd < 16 && rn < 16,
        Instr::Add { rd, rn, rm } => rd < 16 && rn < 16 && rm < 16,
        Instr::Sub { rd, rn, rm } => rd < 16 && rn < 16 && rm < 16,
        Instr::Ldr { rd, rn, off } => rd < 16 && rn < 16 && off < 0x1000,
        Instr::Str { rd, rn, off } => rd < 16 && rn < 16 && off < 0x1000,
        Instr::Cmp { rn, rm } => rn < 16 && rm < 16,
        Instr::B { target } => target < 0x0400_0000 && target % 4 == 0,
        Instr::Beq { target } => target < 0x0400_0000 && target % 4 == 0,
        Instr::Bne { target } => target < 0x0400_0000 && target % 4 == 0,
        Instr::Bl { target } => target < 0x0400_0000 && target % 4 == 0,
        Instr::Bx { rn } => rn < 16,
    }
}

/// The instruction a word decodes to, if any.
pub open spec fn decode_spec(w: u32) -> Option<Instr> {
    let op = w >> 24;
    let rd = (w >> 20) & 0xf;
    let rn = (w >> 16) & 0xf;
    let rm = (w >> 12) & 0xf;
    let imm = w & 0xffff;
    let off = w & 0xfff;
    let target = (w & 0xff_ffff) << 2;
    if op == 1 { Some(Instr::MovImm { rd, imm }) }
    else if op == 2 { Some(Instr::MovReg { rd, rn }) }
    else if op == 3 { Some(Instr::Add { rd, rn, rm }) }
    else if op == 4 { Some(Instr::Sub { rd, rn, rm }) }
    else if op == 5 { Some(Instr::Ldr { rd, rn, off }) }
    else if op == 6 { Some(Instr::Str { rd, rn, off }) }
    else if op == 7 { Some(Instr::Cmp { rn, rm }) }
    else if op == 8 { Some(Instr::B { target }) }
    else if op == 9 { Some(Instr::Beq { target }) }
    else if op == 10 { Some(Instr::Bne { target }) }
    else if op == 11 { Some(Instr::Bl { target }) }
    else if op == 12 { Some(Instr::Bx { rn }) }
    else { None }
}

/// Whatever a word decodes to has well-formed operands.
pub proof fn lemma_decode_wf(w: u32)
    ensures
        match decode_spec(w) {
            Some(i) => instr_wf(i),
            None => true,
        },
{
    assert((w >> 20) & 0xf < 16) by (bit_vector);
    assert((w >> 16) & 0xf < 16) by (bit_vector);
    assert((w >> 12) & 0xf < 16) by (bit_vector);
    assert(w & 0xffff < 0x1_0000) by (bit_vector);
    assert(w & 0xfff < 0x1000) by (bit_vector);
    assert((w & 0xff_ffff) << 2 < 0x0400_0000 && ((w & 0xff_ffff) << 2) % 4 == 0)
        by (bit_vector);
}

/// Decode one instruction word.
pub fn decode(w: u32) -> (r: Option<Instr>)
    ensures
        r == decode_spec(w),
{
    let op = w >> 24;
    let rd = (w >> 20) & 0xf;
    let rn = (w >> 16) & 0xf;
    let rm = (w >> 12) & 0xf;
    let imm = w & 0xffff;
    let off = w & 0xfff;
    let target = (w & 0xff_ffff) << 2;
    if op == 1 { Some(Instr::MovImm { rd, imm }) }
    else if op == 2 { Some(Instr::MovReg { rd, rn }) }
    else if op == 3 { Some(Instr::Add { rd, rn, rm }) }
    else if op == 4 { Some(Instr::Sub { rd, rn, rm }) }
    else if op == 5 { Some(Instr::Ldr { rd, rn, off }) }
    else if op == 6 { Some(Instr::Str { rd, rn, off }) }
    else if op == 7 { Some(Instr::Cmp { rn, rm }) }
    else if op == 8 { Some(Instr::B { target }) }
    else if op == 9 { Some(Instr::Beq { target }) }
    else if op == 10 { Some(Instr::Bne { target }) }
    else if op == 11 { Some(Instr::Bl { target }) }
    else if op == 12 { Some(Instr::Bx { rn }) }
    else { None }
}

/// Encode an instruction into its word: what `decode` undoes exactly, so
/// programs built by the host round-trip through guest memory.
pub fn encode(i: Instr) -> (w: u32)
    requires
        instr_wf(i),
    ensures
        decode_spec(w) == Some(i),
{
    match i {
        Instr::MovImm { rd, imm } => {
            let w = (1u32 << 24) | (rd << 20) | imm;
            proof {
                let rd = rd;
                let imm = imm;
                assert(rd < 16 && imm < 0x1_0000 ==> {
                    let w = (1u32 << 24) | (rd << 20) | imm;
                    w >> 24 == 1 && (w >> 20) & 0xf == rd && w & 0xffff == imm
                }) by (bit_vector);
            }
            w
        },
        Instr::MovReg { rd, rn } => {
            let w = (2u32 << 24) | (rd << 20) | (rn << 16);
            proof {
                let rd = rd;
                let rn = rn;
                assert(rd < 16 && rn < 16 ==> {
                    let w = (2u32 << 24) | (rd << 20) | (rn << 16);
                    w >> 24 == 2 && (w >> 20) & 0xf == rd && (w >> 16) & 0xf == rn
                }) by (bit_vector);
            }
            w
        },
        Instr::Add { rd, rn, rm } => {
            let w = (3u32 << 24) | (rd << 20) | (rn << 16) | (rm << 12);
            proof {
                let rd = rd;
                let rn = rn;
                let rm = rm;
                assert(rd < 16 && rn < 16 && rm < 16 ==> {
                    let w = (3u32 << 24) | (rd << 20) | (rn << 16) | (rm << 12);
                    w >> 24 == 3 && (w >> 20) & 0xf == rd && (w >> 16) & 0xf == rn
                        && (w >> 12) & 0xf == rm
                }) by (bit_vector);
            }
            w
        },
        Instr::Sub { rd, rn, rm } => {
            let w = (4u32 << 24) | (rd << 20) | (rn << 16) | (rm << 12);
            proof {
                let rd = rd;
                let rn = rn;
                let rm = rm;
                assert(rd < 16 && rn < 16 && rm < 16 ==> {
                    let w = (4u32 << 24) | (rd << 20) | (rn << 16) | (rm << 12);
                    w >> 24 == 4 && (w >> 20) & 0xf == rd && (w >> 16) & 0xf == rn
                        && (w >> 12) & 0xf == rm
                }) by (bit_vector);
            }
            w
        },
        Instr::Ldr { rd, rn, off } => {
            let w = (5u32 << 24) | (rd << 20) | (rn << 16) | off;
            proof {
                let rd = rd;
                let rn = rn;
                let off = off;
                assert(rd < 16 && rn < 16 && off < 0x1000 ==> {
                    let w = (5u32 << 24) | (rd << 20) | (rn << 16) | off;
                    w >> 24 == 5 && (w >> 20) & 0xf == rd && (w >> 16) & 0xf == rn
                        && w & 0xfff == off
                }) by (bit_vector);
            }
            w
        },
        Instr::Str { rd, rn, off } => {
            let w = (6u32 << 24) | (rd << 20) | (rn << 16) | off;
            proof {
                let rd = rd;
                let rn = rn;
                let off = off;
                assert(rd < 16 && rn < 16 && off < 0x1000 ==> {
                    let w = (6u32 << 24) | (rd << 20) | (rn << 16) | off;
                    w >> 24 == 6 && (w >> 20) & 0xf == rd && (w >> 16) & 0xf == rn
                        && w & 0xfff == off
                }) by (bit_vector);
            }
            w
        },
        Instr::Cmp { rn, rm } => {
            let w = (7u32 << 24) | (rn << 16) | (rm << 12);
            proof {
                let rn = rn;
                let rm = rm;
                assert(rn < 16 && rm < 16 ==> {
                    let w = (7u32 << 24) | (rn << 16) | (rm << 12);
                    w >> 24 == 7 && (w >> 16) & 0xf == rn && (w >> 12) & 0xf == rm
                }) by (bit_vector);
            }
            w
        },
        Instr::B { target } => {
            let w = (8u32 << 24) | (target >> 2);
            proof {
                let t = target;
                assert(t < 0x0400_0000 && t % 4 == 0 ==> {
                    let w = (8u32 << 24) | (t >> 2);
                    w >> 24 == 8 && (w & 0xff_ffff) << 2 == t
                }) by (bit_vector);
            }
            w
        },
        Instr::Beq { target } => {
            let w = (9u32 << 24) | (target >> 2);
            proof {
                let t = target;
                assert(t < 0x0400_0000 && t % 4 == 0 ==> {
                    let w = (9u32 << 24) | (t >> 2);
                    w >> 24 == 9 && (w & 0xff_ffff) << 2 == t
                }) by (bit_vector);
            }
            w
        },
        Instr::Bne { target } => {
            let w = (10u32 << 24) | (target >> 2);
            proof {
                let t = target;
                assert(t < 0x0400_0000 && t % 4 == 0 ==> {
                    let w = (10u32 << 24) | (t >> 2);
                    w >> 24 == 10 && (w & 0xff_ffff) << 2 == t
                }) by (bit_vector);
            }
            w
        },
        Instr::Bl { target } => {
            let w = (11u32 << 24) | (target >> 2);
            proof {
                let t = target;
                assert(t < 0x0400_0000 && t % 4 == 0 ==> {
                    let w = (11u32 << 24) | (t >> 2);
                    w >> 24 == 11 && (w & 0xff_ffff) << 2 == t
                }) by (bit_vector);
            }
            w
        },
        Instr::Bx { rn } => {
            let w = (12u32 << 24) | (rn << 16);
            proof {
                let rn = rn;
                assert(rn < 16 ==> {
                    let w = (12u32 << 24) | (rn << 16);
                    w >> 24 == 12 && (w >> 16) & 0xf == rn
                }) by (bit_vector);
            }
            w
        },
    }
}

} // verus!
