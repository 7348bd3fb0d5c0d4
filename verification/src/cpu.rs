//! The guest execution core: one register file, the guest address space,
//! the heap allocator, the native-function table and the interpreter state,
//! advanced one step at a time.
//!
//! Each step is a total function of the core's abstract state
//! ([`core_step`]): given identical state, the interpreter takes identical
//! steps, which is what makes runs reproducible.  A step either executes
//! one decoded instruction, recognizes the return sentinel, enters a
//! registered native function, or advances an in-flight native routine.

use vstd::prelude::*;
use crate::error::EmuError;
use crate::regs::{RegisterFile, RETURN_SENTINEL, FLAG_ZERO, FLAG_NEGATIVE};
use crate::mem::{GuestMemory, word_at, bytes_of_word, write_bytes_spec, zero_bytes};
use crate::heap::{Allocator, AllocView, heap_wf, alloc_spec};
use crate::instr::{Instr, decode, decode_spec, instr_wf, lemma_decode_wf};

verus! {

/// Base of the region that holds native-function trampolines.
pub const STUB_BASE: u32 = 0x100;

/// Bytes reserved for one trampoline.
pub const STUB_SIZE: u32 = 8;

/// The trampoline region ends here; at most 480 native functions.
pub const STUB_LIMIT: u32 = 0x1000;

/// Base of the process environment block.
pub const PEB_BASE: u32 = 0x1000;

/// The guest-reachable address of the `index`-th registered native
/// function.
pub open spec fn stub_address_spec(index: int) -> int {
    STUB_BASE + STUB_SIZE * index
}

/// One recorded native-function invocation: which function, and the three
/// argument registers at the moment the interpreter reached its stub.
#[derive(Clone, Copy, Debug, PartialEq, Eq, Structural)]
pub struct CallRecord {
    pub index: usize,
    pub a0: u32,
    pub a1: u32,
    pub a2: u32,
}

/// What a native function does when invoked.
#[derive(Clone, Copy, Debug, PartialEq, Eq, Structural)]
pub enum HostKind {
    /// Return `result` at once.
    Fixed,
    /// Allocate `r0` bytes from the guest heap and return the base address.
    HeapAlloc,
    /// Run the attached script of host steps, then return `result`.
    Script,
}

/// One step of a scripted native routine.
#[derive(Clone, Copy, Debug, PartialEq, Eq, Structural)]
pub enum HostStep {
    /// Suspend the owning task for `millis` milliseconds.
    Sleep { millis: u64 },
    /// Hand control back to the scheduler without waiting.
    Yield,
    /// Store a word into guest memory.
    WriteWord { address: u32, value: u32 },
}

/// A host-implemented native function, registered behind a guest-resident
/// trampoline.
pub struct HostFunction {
    pub kind: HostKind,
    pub result: u32,
    pub steps: Vec<HostStep>,
}

/// The abstract state of a native function.
#[verifier::ext_equal]
pub struct HostFunctionView {
    pub kind: HostKind,
    pub result: u32,
    pub steps: Seq<HostStep>,
}

impl View for HostFunction {
    type V = HostFunctionView;

    open spec fn view(&self) -> HostFunctionView {
        HostFunctionView { kind: self.kind, result: self.result, steps: self.steps@ }
    }
}

impl HostFunction {
    /// A native function that returns `result` at once.
    pub fn fixed(result: u32) -> (f: HostFunction)
        ensures
            f@ == (HostFunctionView { kind: HostKind::Fixed, result, steps: Seq::<HostStep>::empty() }),
    {
        let f = HostFunction { kind: HostKind::Fixed, result, steps: Vec::new() };
        proof {
            assert(f@.steps =~= Seq::<HostStep>::empty());
            assert(f@ =~= HostFunctionView { kind: HostKind::Fixed, result, steps: Seq::<HostStep>::empty() });
        }
        f
    }

    /// A native function that serves guest allocation requests.
    pub fn heap_alloc() -> (f: HostFunction)
        ensures
            f@ == (HostFunctionView { kind: HostKind::HeapAlloc, result: 0, steps: Seq::<HostStep>::empty() }),
    {
        let f = HostFunction { kind: HostKind::HeapAlloc, result: 0, steps: Vec::new() };
        proof {
            assert(f@.steps =~= Seq::<HostStep>::empty());
            assert(f@ =~= HostFunctionView { kind: HostKind::HeapAlloc, result: 0, steps: Seq::<HostStep>::empty() });
        }
        f
    }

    /// A native function that runs `steps`, then returns `result`.
    pub fn script(steps: Vec<HostStep>, result: u32) -> (f: HostFunction)
        ensures
            f@ == (HostFunctionView { kind: HostKind::Script, result, steps: steps@ }),
    {
        HostFunction { kind: HostKind::Script, result, steps }
    }
}

/// The interpreter's state machine, per task.
#[derive(Clone, Copy, Debug, PartialEq, Eq, Structural)]
pub enum CoreState {
    /// Decoding and executing instructions.
    Running,
    /// The current call returned to the sentinel address.
    HaltedAtReturn,
    /// A fatal fault ended the current call.
    Faulted { error: EmuError },
    /// A scripted native routine is in flight: `stub`-th function, about to
    /// run its `step`-th host step.
    InHostCall { stub: usize, step: usize },
}

/// What one core step asks of its surroundings.
#[derive(Clone, Copy, Debug, PartialEq, Eq, Structural)]
pub enum StepEvent {
    /// The step completed; the core can take another.
    Progress,
    /// The running native routine wants to sleep.
    SleepRequest { millis: u64 },
    /// The running native routine yields to the scheduler.
    YieldRequest,
    /// The current call has returned.
    Halted,
    /// The current call faulted fatally.
    Faulted { error: EmuError },
}

/// The abstract state of the whole core.
#[verifier::ext_equal]
pub struct CoreView {
    pub mem: Seq<u8>,
    pub heap: AllocView,
    pub regs: RegisterFile,
    pub stubs: Seq<HostFunctionView>,
    pub journal: Seq<CallRecord>,
    pub state: CoreState,
}

/// The core's structural invariant: a well-formed heap lying inside the
/// address space above the fixed trampoline and environment regions, a
/// bounded function table, and an in-flight native call only into it.
pub open spec fn core_wf(v: CoreView) -> bool {
    &&& heap_wf(v.heap)
    &&& v.heap.limit <= v.mem.len()
    &&& v.heap.base >= PEB_BASE + 0x1000
    &&& v.mem.len() >= PEB_BASE + 0x1000
    &&& v.mem.len() <= u32::MAX
    &&& STUB_BASE + STUB_SIZE * v.stubs.len() <= STUB_LIMIT
    &&& match v.state {
        CoreState::InHostCall { stub, .. } => stub < v.stubs.len(),
        _ => true,
    }
}

/// The function table index behind a guest address, if any: the trampoline
/// region is laid out contiguously from [`STUB_BASE`].
pub open spec fn stub_index_of(v: CoreView, address: u32) -> Option<int> {
    if STUB_BASE <= address && (address - STUB_BASE) % (STUB_SIZE as int) == 0
        && (address - STUB_BASE) / (STUB_SIZE as int) < v.stubs.len() {
        Some((address - STUB_BASE) / (STUB_SIZE as int))
    } else {
        None
    }
}

/// The effect of a heap allocation on the whole core: only the records
/// change, and only on success.
pub open spec fn core_alloc_spec(c: CoreView, size: u32) -> (CoreView, Result<u32, EmuError>) {
    match alloc_spec(c.heap.records, size) {
        Some((records, address)) => (
            CoreView { heap: AllocView { records, ..c.heap }, ..c },
            Ok(address),
        ),
        None => (c, Err(EmuError::AllocationFailure { address: 0 })),
    }
}

/// The effect of registering a native function: the function table grows
/// by one and a marker word lands at the fresh stub address, unless the
/// trampoline region is exhausted.
pub open spec fn register_function_spec(c: CoreView, f: HostFunctionView)
    -> (CoreView, Result<u32, EmuError>) {
    if (c.stubs.len() as int) < (STUB_LIMIT as int - STUB_BASE as int) / (STUB_SIZE as int) {
        let address = stub_address_spec(c.stubs.len() as int) as u32;
        (
            CoreView {
                stubs: c.stubs.push(f),
                mem: write_bytes_spec(c.mem, address,
                    bytes_of_word(((0xef00_0000 + c.stubs.len()) as u32))),
                ..c
            },
            Ok(address),
        )
    } else {
        (c, Err(EmuError::AllocationFailure { address: 0 }))
    }
}

pub open spec fn fault_step(v: CoreView, error: EmuError) -> (CoreView, StepEvent) {
    (CoreView { state: CoreState::Faulted { error }, ..v }, StepEvent::Faulted { error })
}

/// The effect of executing the decoded instruction `ins` in state `v`: the
/// register file and memory change, the program counter advances (or the
/// branch redirects it), and an out-of-range access faults.
pub open spec fn exec_instr_spec(v: CoreView, ins: Instr) -> (CoreView, StepEvent) {
    let regs = v.regs;
    let pc4 = regs.pc.wrapping_add(4);
    match ins {
        Instr::MovImm { rd, imm } => {
            let r2 = regs.with_reg(rd as int, imm);
            (CoreView { regs: RegisterFile { pc: pc4, ..r2 }, ..v }, StepEvent::Progress)
        },
        Instr::MovReg { rd, rn } => {
            let r2 = regs.with_reg(rd as int, regs.reg(rn as int));
            (CoreView { regs: RegisterFile { pc: pc4, ..r2 }, ..v }, StepEvent::Progress)
        },
        Instr::Add { rd, rn, rm } => {
            let r2 = regs.with_reg(rd as int, regs.reg(rn as int).wrapping_add(regs.reg(rm as int)));
            (CoreView { regs: RegisterFile { pc: pc4, ..r2 }, ..v }, StepEvent::Progress)
        },
        Instr::Sub { rd, rn, rm } => {
            let r2 = regs.with_reg(rd as int, regs.reg(rn as int).wrapping_sub(regs.reg(rm as int)));
            (CoreView { regs: RegisterFile { pc: pc4, ..r2 }, ..v }, StepEvent::Progress)
        },
        Instr::Ldr { rd, rn, off } => {
            let address = regs.reg(rn as int).wrapping_add(off);
            if address + 4 <= v.mem.len() {
                let r2 = regs.with_reg(rd as int, word_at(v.mem, address as int));
                (CoreView { regs: RegisterFile { pc: pc4, ..r2 }, ..v }, StepEvent::Progress)
            } else {
                fault_step(v, EmuError::OutOfBounds { address, size: 4 })
            }
        },
        Instr::Str { rd, rn, off } => {
            let address = regs.reg(rn as int).wrapping_add(off);
            if address + 4 <= v.mem.len() {
                (CoreView {
                    mem: write_bytes_spec(v.mem, address, bytes_of_word(regs.reg(rd as int))),
                    regs: RegisterFile { pc: pc4, ..regs },
                    ..v
                }, StepEvent::Progress)
            } else {
                fault_step(v, EmuError::OutOfBounds { address, size: 4 })
            }
        },
        Instr::Cmp { rn, rm } => {
            let a = regs.reg(rn as int);
            let b = regs.reg(rm as int);
            let flags = (if a == b { FLAG_ZERO } else { 0u32 })
                | (if a < b { FLAG_NEGATIVE } else { 0u32 });
            (CoreView { regs: RegisterFile { cpsr: flags, pc: pc4, ..regs }, ..v },
                StepEvent::Progress)
        },
        Instr::B { target } => {
            (CoreView { regs: RegisterFile { pc: target, ..regs }, ..v }, StepEvent::Progress)
        },
        Instr::Beq { target } => {
            let dest = if regs.flag_zero() { target } else { pc4 };
            (CoreView { regs: RegisterFile { pc: dest, ..regs }, ..v }, StepEvent::Progress)
        },
        Instr::Bne { target } => {
            let dest = if !regs.flag_zero() { target } else { pc4 };
            (CoreView { regs: RegisterFile { pc: dest, ..regs }, ..v }, StepEvent::Progress)
        },
        Instr::Bl { target } => {
            (CoreView { regs: RegisterFile { lr: pc4, pc: target, ..regs }, ..v },
                StepEvent::Progress)
        },
        Instr::Bx { rn } => {
            (CoreView { regs: RegisterFile { pc: regs.reg(rn as int), ..regs }, ..v },
                StepEvent::Progress)
        },
    }
}

/// The effect of the interpreter reaching the `index`-th native function's
/// stub: the argument registers are journalled, then the function returns
/// at once, serves an allocation, or starts its script.
pub open spec fn invoke_stub_spec(v: CoreView, index: int) -> (CoreView, StepEvent) {
    let rec = CallRecord { index: index as usize, a0: v.regs.r0, a1: v.regs.r1, a2: v.regs.r2 };
    let v1 = CoreView { journal: v.journal.push(rec), ..v };
    let f = v.stubs[index];
    match f.kind {
        HostKind::Fixed => {
            (CoreView {
                regs: RegisterFile { r0: f.result, pc: v.regs.lr, ..v.regs },
                ..v1
            }, StepEvent::Progress)
        },
        HostKind::HeapAlloc => {
            match alloc_spec(v.heap.records, v.regs.r0) {
                Some((records, address)) => {
                    (CoreView {
                        heap: AllocView { records, ..v.heap },
                        regs: RegisterFile { r0: address, pc: v.regs.lr, ..v.regs },
                        ..v1
                    }, StepEvent::Progress)
                },
                None => fault_step(v1, EmuError::AllocationFailure { address: 0 }),
            }
        },
        HostKind::Script => {
            (CoreView {
                state: CoreState::InHostCall { stub: index as usize, step: 0 },
                ..v1
            }, StepEvent::Progress)
        },
    }
}

/// The effect of advancing an in-flight scripted native routine by one
/// host step; past its last step the routine's result lands in `r0` and
/// control returns to the caller.
pub open spec fn host_step_spec(v: CoreView, stub: int, step: int) -> (CoreView, StepEvent) {
    let f = v.stubs[stub];
    if step < f.steps.len() {
        match f.steps[step] {
            HostStep::Sleep { millis } => {
                (CoreView {
                    state: CoreState::InHostCall { stub: stub as usize, step: (step + 1) as usize },
                    ..v
                }, StepEvent::SleepRequest { millis })
            },
            HostStep::Yield => {
                (CoreView {
                    state: CoreState::InHostCall { stub: stub as usize, step: (step + 1) as usize },
                    ..v
                }, StepEvent::YieldRequest)
            },
            HostStep::WriteWord { address, value } => {
                if address + 4 <= v.mem.len() {
                    (CoreView {
                        mem: write_bytes_spec(v.mem, address, bytes_of_word(value)),
                        state: CoreState::InHostCall { stub: stub as usize, step: (step + 1) as usize },
                        ..v
                    }, StepEvent::Progress)
                } else {
                    fault_step(v, EmuError::OutOfBounds { address, size: 4 })
                }
            },
        }
    } else {
        (CoreView {
            regs: RegisterFile { r0: f.result, pc: v.regs.lr, ..v.regs },
            state: CoreState::Running,
            ..v
        }, StepEvent::Progress)
    }
}

/// One step of the whole core: a total, deterministic function of its
/// abstract state.
pub open spec fn core_step(v: CoreView) -> (CoreView, StepEvent) {
    match v.state {
        CoreState::HaltedAtReturn => (v, StepEvent::Halted),
        CoreState::Faulted { error } => (v, StepEvent::Faulted { error }),
        CoreState::InHostCall { stub, step } => host_step_spec(v, stub as int, step as int),
        CoreState::Running => {
            if v.regs.pc == RETURN_SENTINEL {
                (CoreView { state: CoreState::HaltedAtReturn, ..v }, StepEvent::Halted)
            } else {
                match stub_index_of(v, v.regs.pc) {
                    Some(index) => invoke_stub_spec(v, index),
                    None => {
                        if v.regs.pc + 4 <= v.mem.len() {
                            match decode_spec(word_at(v.mem, v.regs.pc as int)) {
                                Some(ins) => exec_instr_spec(v, ins),
                                None => fault_step(v, EmuError::UnsupportedInstruction {
                                    address: v.regs.pc,
                                    word: word_at(v.mem, v.regs.pc as int),
                                }),
                            }
                        } else {
                            fault_step(v, EmuError::OutOfBounds { address: v.regs.pc, size: 4 })
                        }
                    },
                }
            }
        },
    }
}

/// A core step preserves the address space's size, the heap's region, the
/// function table and the journal's prefix.
pub proof fn lemma_core_step_frame(v: CoreView)
    requires
        core_wf(v),
    ensures
        core_wf(core_step(v).0),
        core_step(v).0.mem.len() == v.mem.len(),
        core_step(v).0.heap.base == v.heap.base,
        core_step(v).0.heap.limit == v.heap.limit,
        core_step(v).0.stubs == v.stubs,
        v.journal.is_prefix_of(core_step(v).0.journal),
{
    let (v2, _) = core_step(v);
    match v.state {
        CoreState::Running => {
            if v.regs.pc == RETURN_SENTINEL {
                assert(v.journal.is_prefix_of(v2.journal));
            } else {
                match stub_index_of(v, v.regs.pc) {
                    Some(index) => {
                        let f = v.stubs[index];
                        if f.kind is HeapAlloc {
                            crate::heap::lemma_alloc_spec_wf(v.heap, v.regs.r0);
                        }
                        assert(v.journal.is_prefix_of(v.journal.push(CallRecord {
                            index: index as usize,
                            a0: v.regs.r0,
                            a1: v.regs.r1,
                            a2: v.regs.r2,
                        })));
                    },
                    None => {
                        assert(v.journal.is_prefix_of(v2.journal));
                    },
                }
            }
        },
        _ => {
            assert(v.journal.is_prefix_of(v2.journal));
        },
    }
}

/// A native callback registered behind a stub and reached through a
/// guest-held function pointer is handed exactly the arguments that the
/// calling convention placed in the first three argument registers: the
/// journal grows by precisely that record.
pub proof fn lemma_stub_call_records_args(v: CoreView, index: int)
    requires
        core_wf(v),
        v.state is Running,
        v.regs.pc != RETURN_SENTINEL,
        stub_index_of(v, v.regs.pc) == Some(index),
    ensures
        core_step(v).0.journal == v.journal.push(CallRecord {
            index: index as usize,
            a0: v.regs.r0,
            a1: v.regs.r1,
            a2: v.regs.r2,
        }),
{
}

/// The guest execution core.
pub struct ArmCore {
    pub mem: GuestMemory,
    pub heap: Allocator,
    pub regs: RegisterFile,
    pub stubs: Vec<HostFunction>,
    pub journal: Vec<CallRecord>,
    pub state: CoreState,
}

impl View for ArmCore {
    type V = CoreView;

    open spec fn view(&self) -> CoreView {
        CoreView {
            mem: self.mem@,
            heap: self.heap@,
            regs: self.regs,
            stubs: self.stubs@.map_values(|f: HostFunction| f@),
            journal: self.journal@,
            state: self.state,
        }
    }
}

impl ArmCore {
    /// A fresh core: zeroed memory of `capacity` bytes, a free heap over
    /// `[heap_base, heap_base + heap_size)`, zeroed registers, no native
    /// functions, ready to run.
    pub fn new(capacity: usize, heap_base: u32, heap_size: u32) -> (c: ArmCore)
        requires
            heap_base >= PEB_BASE + 0x1000,
            heap_base + heap_size <= capacity,
            capacity <= u32::MAX,
        ensures
            core_wf(c@),
            c@.mem == zero_bytes(capacity as int),
            c@.heap.base == heap_base,
            c@.heap.limit == heap_base + heap_size,
            c@.heap.records == if heap_size == 0 {
                Seq::<crate::heap::HeapRecord>::empty()
            } else {
                seq![crate::heap::HeapRecord { base: heap_base, size: heap_size, used: false }]
            },
            c@.regs == RegisterFile::zeroed_spec(),
            c@.stubs == Seq::<HostFunctionView>::empty(),
            c@.journal == Seq::<CallRecord>::empty(),
            c@.state == CoreState::Running,
    {
        let c = ArmCore {
            mem: GuestMemory::new(capacity),
            heap: Allocator::new(heap_base, heap_size),
            regs: RegisterFile::zeroed(),
            stubs: Vec::new(),
            journal: Vec::new(),
            state: CoreState::Running,
        };
        proof {
            assert(c@.stubs =~= Seq::<HostFunctionView>::empty());
            assert(c@.journal =~= Seq::<CallRecord>::empty());
        }
        c
    }

    /// Register a host callback and hand back the guest-reachable stub
    /// address that triggers it; a marker word is planted there.  Fails
    /// when the trampoline region is exhausted, leaving the core unchanged.
    pub fn register_function(&mut self, func: HostFunction) -> (r: Result<u32, EmuError>)
        requires
            core_wf(old(self)@),
        ensures
            core_wf(final(self)@),
            final(self)@ == register_function_spec(old(self)@, func@).0,
            r == register_function_spec(old(self)@, func@).1,
            match r {
                Ok(address) => {
                    &&& (old(self)@.stubs.len() as int) < (STUB_LIMIT as int - STUB_BASE as int) / (STUB_SIZE as int)
                    &&& address == stub_address_spec(old(self)@.stubs.len() as int)
                    &&& stub_index_of(final(self)@, address)
                        == Some(old(self)@.stubs.len() as int)
                    &&& final(self)@.stubs == old(self)@.stubs.push(func@)
                    &&& final(self)@.mem == write_bytes_spec(
                        old(self)@.mem,
                        address,
                        bytes_of_word(((0xef00_0000 + old(self)@.stubs.len()) as u32)),
                    )
                    &&& final(self)@.heap == old(self)@.heap
                    &&& final(self)@.regs == old(self)@.regs
                    &&& final(self)@.journal == old(self)@.journal
                    &&& final(self)@.state == old(self)@.state
                },
                Err(e) => {
                    &&& (old(self)@.stubs.len() as int) >= (STUB_LIMIT as int - STUB_BASE as int) / (STUB_SIZE as int)
                    &&& e == (EmuError::AllocationFailure { address: 0 })
                    &&& final(self)@ == old(self)@
                },
            },
    {
        let count = self.stubs.len();
        if count >= (((STUB_LIMIT - STUB_BASE) / STUB_SIZE) as usize) {
            proof {
                assert(self@ =~~= register_function_spec(old(self)@, func@).0);
            }
            return Err(EmuError::AllocationFailure { address: 0 });
        }
        let address: u32 = STUB_BASE + STUB_SIZE * (count as u32);
        let marker: u32 = 0xef00_0000u32 + (count as u32);
        let res = self.mem.write_u32(address, marker);
        proof {
            assert(address + 4 <= old(self)@.mem.len());
        }
        match res {
            Ok(()) => {},
            Err(_) => {},
        }
        self.stubs.push(func);
        proof {
            assert(self@.stubs =~= old(self)@.stubs.push(func@));
            assert(self@ =~~= register_function_spec(old(self)@, func@).0);
        }
        Ok(address)
    }

    /// The function table index behind `address`, if any.
    fn stub_lookup(&self, address: u32) -> (r: Option<usize>)
        ensures
            match r {
                Some(i) => stub_index_of(self@, address) == Some(i as int),
                None => stub_index_of(self@, address) is None,
            },
    {
        if address >= STUB_BASE {
            let offset = address - STUB_BASE;
            if offset % STUB_SIZE == 0 {
                let idx = (offset / STUB_SIZE) as usize;
                if idx < self.stubs.len() {
                    return Some(idx);
                }
            }
        }
        None
    }

    /// Execute one decoded instruction.
    fn exec_instr(&mut self, ins: Instr) -> (ev: StepEvent)
        requires
            instr_wf(ins),
        ensures
            final(self)@ == exec_instr_spec(old(self)@, ins).0,
            ev == exec_instr_spec(old(self)@, ins).1,
    {
        let regs = self.regs;
        let pc4 = regs.pc.wrapping_add(4);
        match ins {
            Instr::MovImm { rd, imm } => {
                self.regs.set(rd, imm);
                self.regs.pc = pc4;
                StepEvent::Progress
            },
            Instr::MovReg { rd, rn } => {
                let value = regs.get(rn);
                self.regs.set(rd, value);
                self.regs.pc = pc4;
                StepEvent::Progress
            },
            Instr::Add { rd, rn, rm } => {
                let value = regs.get(rn).wrapping_add(regs.get(rm));
                self.regs.set(rd, value);
                self.regs.pc = pc4;
                StepEvent::Progress
            },
            Instr::Sub { rd, rn, rm } => {
                let value = regs.get(rn).wrapping_sub(regs.get(rm));
                self.regs.set(rd, value);
                self.regs.pc = pc4;
                StepEvent::Progress
            },
            Instr::Ldr { rd, rn, off } => {
                let address = regs.get(rn).wrapping_add(off);
                match self.mem.read_u32(address) {
                    Ok(value) => {
                        self.regs.set(rd, value);
                        self.regs.pc = pc4;
                        StepEvent::Progress
                    },
                    Err(error) => {
                        self.state = CoreState::Faulted { error };
                        StepEvent::Faulted { error }
                    },
                }
            },
            Instr::Str { rd, rn, off } => {
                let address = regs.get(rn).wrapping_add(off);
                let value = regs.get(rd);
                match self.mem.write_u32(address, value) {
                    Ok(()) => {
                        self.regs.pc = pc4;
                        StepEvent::Progress
                    },
                    Err(error) => {
                        self.state = CoreState::Faulted { error };
                        StepEvent::Faulted { error }
                    },
                }
            },
            Instr::Cmp { rn, rm } => {
                let a = regs.get(rn);
                let b = regs.get(rm);
                let z: u32 = if a == b { FLAG_ZERO } else { 0 };
                let n: u32 = if a < b { FLAG_NEGATIVE } else { 0 };
                self.regs.cpsr = z | n;
                self.regs.pc = pc4;
                StepEvent::Progress
            },
            Instr::B { target } => {
                self.regs.pc = target;
                StepEvent::Progress
            },
            Instr::Beq { target } => {
                if regs.cpsr & FLAG_ZERO != 0 {
                    self.regs.pc = target;
                } else {
                    self.regs.pc = pc4;
                }
                StepEvent::Progress
            },
            Instr::Bne { target } => {
                if regs.cpsr & FLAG_ZERO == 0 {
                    self.regs.pc = target;
                } else {
                    self.regs.pc = pc4;
                }
                StepEvent::Progress
            },
            Instr::Bl { target } => {
                self.regs.lr = pc4;
                self.regs.pc = target;
                StepEvent::Progress
            },
            Instr::Bx { rn } => {
                let dest = regs.get(rn);
                self.regs.pc = dest;
                StepEvent::Progress
            },
        }
    }

    /// The interpreter reached the `index`-th native function's stub.
    fn invoke_stub(&mut self, index: usize) -> (ev: StepEvent)
        requires
            core_wf(old(self)@),
            index < old(self)@.stubs.len(),
        ensures
            final(self)@ == invoke_stub_spec(old(self)@, index as int).0,
            ev == invoke_stub_spec(old(self)@, index as int).1,
    {
        let rec = CallRecord { index, a0: self.regs.r0, a1: self.regs.r1, a2: self.regs.r2 };
        self.journal.push(rec);
        proof {
            assert(self@.stubs[index as int] == self.stubs@[index as int]@);
        }
        let kind = self.stubs[index].kind;
        match kind {
            HostKind::Fixed => {
                let result = self.stubs[index].result;
                self.regs.r0 = result;
                self.regs.pc = self.regs.lr;
                proof {
                    assert(self@ =~~= invoke_stub_spec(old(self)@, index as int).0);
                }
                StepEvent::Progress
            },
            HostKind::HeapAlloc => {
                let size = self.regs.r0;
                match self.heap.allocate(size) {
                    Ok(address) => {
                        self.regs.r0 = address;
                        self.regs.pc = self.regs.lr;
                        proof {
                            assert(self@ =~~= invoke_stub_spec(old(self)@, index as int).0);
                        }
                        StepEvent::Progress
                    },
                    Err(error) => {
                        self.state = CoreState::Faulted { error };
                        proof {
                            assert(self@ =~~= invoke_stub_spec(old(self)@, index as int).0);
                        }
                        StepEvent::Faulted { error }
                    },
                }
            },
            HostKind::Script => {
                self.state = CoreState::InHostCall { stub: index, step: 0 };
                proof {
                    assert(self@ =~~= invoke_stub_spec(old(self)@, index as int).0);
                }
                StepEvent::Progress
            },
        }
    }

    /// Advance an in-flight scripted native routine by one host step.
    fn host_step(&mut self, stub: usize, step: usize) -> (ev: StepEvent)
        requires
            core_wf(old(self)@),
            stub < old(self)@.stubs.len(),
        ensures
            final(self)@ == host_step_spec(old(self)@, stub as int, step as int).0,
            ev == host_step_spec(old(self)@, stub as int, step as int).1,
    {
        proof {
            assert(self@.stubs[stub as int] == self.stubs@[stub as int]@);
        }
        let n = self.stubs[stub].steps.len();
        if step < n {
            let s = self.stubs[stub].steps[step];
            match s {
                HostStep::Sleep { millis } => {
                    self.state = CoreState::InHostCall { stub, step: step + 1 };
                    StepEvent::SleepRequest { millis }
                },
                HostStep::Yield => {
                    self.state = CoreState::InHostCall { stub, step: step + 1 };
                    StepEvent::YieldRequest
                },
                HostStep::WriteWord { address, value } => {
                    match self.mem.write_u32(address, value) {
                        Ok(()) => {
                            self.state = CoreState::InHostCall { stub, step: step + 1 };
                            StepEvent::Progress
                        },
                        Err(error) => {
                            self.state = CoreState::Faulted { error };
                            StepEvent::Faulted { error }
                        },
                    }
                },
            }
        } else {
            let result = self.stubs[stub].result;
            self.regs.r0 = result;
            self.regs.pc = self.regs.lr;
            self.state = CoreState::Running;
            StepEvent::Progress
        }
    }

    /// Take one interpreter step: execute one instruction, recognize the
    /// return sentinel, enter a native function, or advance an in-flight
    /// native routine.  The step is exactly [`core_step`] of the core's
    /// abstract state.
    pub fn step(&mut self) -> (ev: StepEvent)
        requires
            core_wf(old(self)@),
        ensures
            core_wf(final(self)@),
            final(self)@ == core_step(old(self)@).0,
            ev == core_step(old(self)@).1,
    {
        proof {
            lemma_core_step_frame(old(self)@);
        }
        let state = self.state;
        match state {
            CoreState::HaltedAtReturn => StepEvent::Halted,
            CoreState::Faulted { error } => StepEvent::Faulted { error },
            CoreState::InHostCall { stub, step } => self.host_step(stub, step),
            CoreState::Running => {
                let pc = self.regs.pc;
                if pc == RETURN_SENTINEL {
                    self.state = CoreState::HaltedAtReturn;
                    StepEvent::Halted
                } else {
                    match self.stub_lookup(pc) {
                        Some(index) => self.invoke_stub(index),
                        None => {
                            match self.mem.read_u32(pc) {
                                Err(error) => {
                                    self.state = CoreState::Faulted { error };
                                    StepEvent::Faulted { error }
                                },
                                Ok(w) => {
                                    proof {
                                        lemma_decode_wf(w);
                                    }
                                    match decode(w) {
                                        Some(ins) => self.exec_instr(ins),
                                        None => {
                                            let error = EmuError::UnsupportedInstruction {
                                                address: pc,
                                                word: w,
                                            };
                                            self.state = CoreState::Faulted { error };
                                            StepEvent::Faulted { error }
                                        },
                                    }
                                },
                            }
                        },
                    }
                }
            },
        }
    }

    /// Reserve and zero-fill a region of the guest address space.
    pub fn map(&mut self, address: u32, size: u32) -> (r: Result<(), EmuError>)
        ensures
            final(self)@.heap == old(self)@.heap,
            final(self)@.regs == old(self)@.regs,
            final(self)@.stubs == old(self)@.stubs,
            final(self)@.journal == old(self)@.journal,
            final(self)@.state == old(self)@.state,
            match r {
                Ok(()) => address + size <= old(self)@.mem.len()
                    && final(self)@.mem
                        == write_bytes_spec(old(self)@.mem, address, zero_bytes(size as int)),
                Err(e) => !(address + size <= old(self)@.mem.len())
                    && e == (EmuError::OutOfBounds { address, size })
                    && final(self)@ == old(self)@,
            },
    {
        let r = self.mem.map(address, size);
        proof {
            if r is Err {
                assert(self@ =~~= old(self)@);
            }
        }
        r
    }

    /// Read raw bytes out of the guest address space.
    pub fn read_raw(&self, address: u32, size: u32) -> (r: Result<Vec<u8>, EmuError>)
        ensures
            match r {
                Ok(d) => address + size <= self@.mem.len()
                    && d@ == self@.mem.subrange(address as int, address + size),
                Err(e) => !(address + size <= self@.mem.len())
                    && e == (EmuError::OutOfBounds { address, size }),
            },
    {
        self.mem.read_raw(address, size)
    }

    /// Write raw bytes into the guest address space.
    pub fn write_raw(&mut self, address: u32, data: &[u8]) -> (r: Result<(), EmuError>)
        requires
            data@.len() <= u32::MAX,
        ensures
            final(self)@.heap == old(self)@.heap,
            final(self)@.regs == old(self)@.regs,
            final(self)@.stubs == old(self)@.stubs,
            final(self)@.journal == old(self)@.journal,
            final(self)@.state == old(self)@.state,
            match r {
                Ok(()) => address + data@.len() <= old(self)@.mem.len()
                    && final(self)@.mem == write_bytes_spec(old(self)@.mem, address, data@),
                Err(e) => !(address + data@.len() <= old(self)@.mem.len())
                    && e == (EmuError::OutOfBounds { address, size: data@.len() as u32 })
                    && final(self)@ == old(self)@,
            },
    {
        let r = self.mem.write_raw(address, data);
        proof {
            if r is Err {
                assert(self@ =~~= old(self)@);
            }
        }
        r
    }

    /// Allocate from the guest heap.
    pub fn allocate(&mut self, size: u32) -> (r: Result<u32, EmuError>)
        requires
            core_wf(old(self)@),
        ensures
            core_wf(final(self)@),
            final(self)@ == core_alloc_spec(old(self)@, size).0,
            r == core_alloc_spec(old(self)@, size).1,
            final(self)@.mem == old(self)@.mem,
            final(self)@.regs == old(self)@.regs,
            final(self)@.stubs == old(self)@.stubs,
            final(self)@.journal == old(self)@.journal,
            final(self)@.state == old(self)@.state,
            final(self)@.heap.base == old(self)@.heap.base,
            final(self)@.heap.limit == old(self)@.heap.limit,
            match r {
                Ok(address) => alloc_spec(old(self)@.heap.records, size)
                    == Some((final(self)@.heap.records, address)),
                Err(e) => alloc_spec(old(self)@.heap.records, size) is None
                    && e == (EmuError::AllocationFailure { address: 0 })
                    && final(self)@ == old(self)@,
            },
    {
        let r = self.heap.allocate(size);
        proof {
            assert(self@ =~~= core_alloc_spec(old(self)@, size).0);
        }
        r
    }

    /// Release a guest heap allocation.
    pub fn free(&mut self, address: u32) -> (r: Result<(), EmuError>)
        requires
            core_wf(old(self)@),
        ensures
            core_wf(final(self)@),
            final(self)@.mem == old(self)@.mem,
            final(self)@.regs == old(self)@.regs,
            final(self)@.stubs == old(self)@.stubs,
            final(self)@.journal == old(self)@.journal,
            final(self)@.state == old(self)@.state,
            final(self)@.heap.base == old(self)@.heap.base,
            final(self)@.heap.limit == old(self)@.heap.limit,
            match r {
                Ok(()) => crate::heap::free_spec(old(self)@.heap.records, address)
                    == Some(final(self)@.heap.records),
                Err(e) => crate::heap::free_spec(old(self)@.heap.records, address) is None
                    && e == (EmuError::AllocationFailure { address })
                    && final(self)@ == old(self)@,
            },
    {
        let r = self.heap.free(address);
        proof {
            if r is Err {
                assert(self@ =~~= old(self)@);
            }
        }
        r
    }
}

} // verus!
