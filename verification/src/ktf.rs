//! The vendor boot sequence: loading-time setup of the emulated module.
//!
//! The module's entry point is run once to obtain the executable's root
//! record, the fixed parameter records are allocated and written into guest
//! memory, the native entry points the module calls back into are
//! registered, the process environment block is mapped, and the module's
//! own initializer is run over the parameter block.  The whole sequence is
//! a function of the starting machine state ([`init_spec`]): the module's
//! code decides what the two guest calls return, and everything the host
//! does around them — and how their outcomes become the boot's result — is
//! pinned exactly.

use vstd::prelude::*;
use crate::error::EmuError;
use crate::mem::{word_at, write_bytes_spec, zero_bytes};
use crate::cpu::{ArmCore, CoreView, HostFunction, HostFunctionView, HostKind, HostStep,
    core_wf, core_alloc_spec, register_function_spec, PEB_BASE, STUB_BASE, STUB_SIZE,
    STUB_LIMIT};
use crate::sched::{Scheduler, SchedView, sched_wf, task_wf, run_function_spec};
use crate::records::{
    InitParam0, InitParam1, InitParam1Unk, InitParam2, InitParam3, InitParam4,
    WipiExe, ExeInterface, ExeInterfaceFunctions, write_words, write_words_spec,
};

verus! {

/// The process environment block: what the vendor runtime finds at the
/// fixed [`PEB_BASE`] address.
#[derive(Clone, Copy, Debug, PartialEq, Eq, Structural)]
pub struct KtfPeb {
    pub ptr_java_context_data: u32,
}

/// What loading a module yields: the module's initializer and its class
/// lookup entry point.
#[derive(Clone, Copy, Debug, PartialEq, Eq, Structural)]
pub struct ModuleInfo {
    pub fn_init: u32,
    pub fn_get_class: u32,
}

/// Why the boot sequence failed.
#[derive(Clone, Copy, Debug, PartialEq, Eq, Structural)]
pub enum InitError {
    /// The core faulted or a resource ran out.
    Emulation { error: EmuError },
    /// The module's initializer reported a nonzero code.
    InitFailed { code: u32 },
    /// The step budget ran out before a guest call completed.
    OutOfSteps,
}

/// The native functions the vendor module calls back into; the allocation
/// entry is always the guest heap.
pub struct KtfHooks {
    pub fn_get_interface: HostFunction,
    pub fn_java_throw: HostFunction,
    pub fn_java_new: HostFunction,
    pub fn_java_array_new: HostFunction,
    pub fn_java_class_load: HostFunction,
}

/// The abstract state of the hook set.
#[verifier::ext_equal]
pub struct KtfHooksView {
    pub fn_get_interface: HostFunctionView,
    pub fn_java_throw: HostFunctionView,
    pub fn_java_new: HostFunctionView,
    pub fn_java_array_new: HostFunctionView,
    pub fn_java_class_load: HostFunctionView,
}

impl View for KtfHooks {
    type V = KtfHooksView;

    open spec fn view(&self) -> KtfHooksView {
        KtfHooksView {
            fn_get_interface: self.fn_get_interface@,
            fn_java_throw: self.fn_java_throw@,
            fn_java_new: self.fn_java_new@,
            fn_java_array_new: self.fn_java_array_new@,
            fn_java_class_load: self.fn_java_class_load@,
        }
    }
}

/// What the boot sequence concludes from the records it read back and the
/// initializer's exit code: success hands out the module's entry points,
/// a nonzero code is the initializer's own failure.
pub fn module_info_from_records(exe: WipiExe, fns: ExeInterfaceFunctions, code: u32)
    -> (r: Result<ModuleInfo, InitError>)
    ensures
        r == if code == 0 {
            Ok::<ModuleInfo, InitError>(ModuleInfo {
                fn_init: exe.fn_init,
                fn_get_class: fns.fn_get_class,
            })
        } else {
            Err::<ModuleInfo, InitError>(InitError::InitFailed { code })
        },
{
    if code == 0 {
        Ok(ModuleInfo { fn_init: exe.fn_init, fn_get_class: fns.fn_get_class })
    } else {
        Err(InitError::InitFailed { code })
    }
}

/// The core after the process environment block is mapped and `peb` stored
/// at its base: one zeroed page at [`PEB_BASE`] with the pointer word
/// first; nothing else changes.
pub open spec fn init_peb_spec(c: CoreView, peb: KtfPeb) -> CoreView {
    CoreView {
        mem: write_words_spec(
            write_bytes_spec(c.mem, PEB_BASE, zero_bytes(0x1000)),
            PEB_BASE as int,
            seq![peb.ptr_java_context_data],
        ),
        ..c
    }
}

/// Map the process environment block and store `peb` at its base: one page
/// at [`PEB_BASE`], the pointer word first, the rest zero, the rest of
/// memory untouched.
pub fn init_peb(core: &mut ArmCore, peb: KtfPeb) -> (r: Result<(), EmuError>)
    requires
        core_wf(old(core)@),
    ensures
        core_wf(final(core)@),
        r == Ok::<(), EmuError>(()),
        final(core)@ == init_peb_spec(old(core)@, peb),
        final(core)@.heap == old(core)@.heap,
        final(core)@.regs == old(core)@.regs,
        final(core)@.stubs == old(core)@.stubs,
        final(core)@.journal == old(core)@.journal,
        final(core)@.state == old(core)@.state,
        final(core)@.mem.len() == old(core)@.mem.len(),
        word_at(final(core)@.mem, PEB_BASE as int) == peb.ptr_java_context_data,
        forall|j: int| PEB_BASE + 4 <= j < PEB_BASE + 0x1000
            ==> #[trigger] final(core)@.mem[j] == 0u8,
        forall|j: int| 0 <= j < old(core)@.mem.len()
            && !(PEB_BASE <= j < PEB_BASE + 0x1000)
            ==> #[trigger] final(core)@.mem[j] == old(core)@.mem[j],
{
    let mapped = core.map(PEB_BASE, 0x1000);
    proof {
        match mapped {
            Ok(()) => {},
            Err(_) => {
                assert(false);
            },
        }
    }
    let ghost mid = core@.mem;
    let mut words: Vec<u32> = Vec::new();
    words.push(peb.ptr_java_context_data);
    proof {
        assert(words@ =~= seq![peb.ptr_java_context_data]);
    }
    let wrote = write_words(&mut core.mem, PEB_BASE, &words);
    proof {
        match wrote {
            Ok(()) => {},
            Err(_) => {
                assert(false);
            },
        }
        assert(core@ =~~= init_peb_spec(old(core)@, peb));
        assert(word_at(core@.mem, PEB_BASE as int)
            == crate::records::words_at(core@.mem, PEB_BASE as int, 1)[0]);
        assert forall|j: int| PEB_BASE + 4 <= j < PEB_BASE + 0x1000
            implies #[trigger] core@.mem[j] == 0u8
        by {
            assert(core@.mem[j] == mid[j]);
        };
    }
    Ok(())
}

/// The effect of one guest call made by the boot sequence: a budget
/// overrun and a fault fold into boot errors.
#[verifier::opaque]
pub open spec fn boot_call_spec(v: SchedView, pc: u32, args: Seq<u32>, max_steps: u64)
    -> (SchedView, Result<u32, InitError>) {
    let (v2, r) = run_function_spec(v, pc, args, max_steps);
    (v2, match r {
        Ok(Some(x)) => Ok(x),
        Ok(None) => Err(InitError::OutOfSteps),
        Err(error) => Err(InitError::Emulation { error }),
    })
}

/// The effect of allocating one parameter record's block and writing the
/// record's words into it; a failed write leaves the fresh allocation in
/// place but no bytes changed.
#[verifier::opaque]
pub open spec fn alloc_record_spec(v: SchedView, size: u32, ws: Seq<u32>)
    -> (SchedView, Result<u32, InitError>) {
    let (c1, ar) = core_alloc_spec(v.core, size);
    match ar {
        Err(e) => (v, Err(InitError::Emulation { error: e })),
        Ok(address) => {
            let v1 = SchedView { core: c1, ..v };
            if address + 4 * ws.len() <= c1.mem.len() {
                (
                    SchedView {
                        core: CoreView {
                            mem: write_words_spec(c1.mem, address as int, ws),
                            ..c1
                        },
                        ..v1
                    },
                    Ok(address),
                )
            } else {
                (v1, Err(InitError::Emulation {
                    error: EmuError::OutOfBounds { address, size: (4 * ws.len()) as u32 },
                }))
            }
        },
    }
}

/// The effect of registering one native entry point for the boot sequence.
#[verifier::opaque]
pub open spec fn boot_register_spec(v: SchedView, f: HostFunctionView)
    -> (SchedView, Result<u32, InitError>) {
    let (c2, r) = register_function_spec(v.core, f);
    (SchedView { core: c2, ..v }, match r {
        Ok(a) => Ok(a),
        Err(e) => Err(InitError::Emulation { error: e }),
    })
}

/// Run one guest call for the boot sequence, folding a budget overrun and
/// a fault into boot errors.
#[verifier::spinoff_prover]
fn boot_call(sched: &mut Scheduler, pc: u32, args: &Vec<u32>, max_steps: u64)
    -> (r: Result<u32, InitError>)
    requires
        sched_wf(old(sched)@),
    ensures
        sched_wf(final(sched)@),
        final(sched)@ == boot_call_spec(old(sched)@, pc, args@, max_steps).0,
        r == boot_call_spec(old(sched)@, pc, args@, max_steps).1,
{
    proof {
        reveal(boot_call_spec);
    }
    match sched.run_function(pc, args, max_steps) {
        Ok(Some(v)) => Ok(v),
        Ok(None) => Err(InitError::OutOfSteps),
        Err(error) => Err(InitError::Emulation { error }),
    }
}

/// Allocate a guest heap block for one parameter record and write the
/// record's words into it.
#[verifier::spinoff_prover]
#[verifier::rlimit(100)]
fn alloc_record(sched: &mut Scheduler, size: u32, words: &Vec<u32>)
    -> (r: Result<u32, InitError>)
    requires
        sched_wf(old(sched)@),
        4 * words@.len() <= u32::MAX,
    ensures
        sched_wf(final(sched)@),
        final(sched)@ == alloc_record_spec(old(sched)@, size, words@).0,
        r == alloc_record_spec(old(sched)@, size, words@).1,
{
    proof {
        reveal(alloc_record_spec);
    }
    let ghost pre = sched@;
    let address = match sched.core.allocate(size) {
        Ok(a) => a,
        Err(error) => {
            proof {
                lemma_tasks_still_wf(pre, sched@);
                assert(sched@ =~~= alloc_record_spec(pre, size, words@).0);
            }
            return Err(InitError::Emulation { error });
        },
    };
    proof {
        lemma_tasks_still_wf(pre, sched@);
        assert(sched@ =~~= (SchedView { core: core_alloc_spec(pre.core, size).0, ..pre }));
    }
    let ghost mid = sched@;
    match write_words(&mut sched.core.mem, address, words) {
        Ok(()) => {},
        Err(error) => {
            proof {
                lemma_tasks_still_wf(mid, sched@);
                assert(sched@ =~~= alloc_record_spec(pre, size, words@).0);
            }
            return Err(InitError::Emulation { error });
        },
    }
    proof {
        lemma_tasks_still_wf(mid, sched@);
        assert(sched@ =~~= alloc_record_spec(pre, size, words@).0);
    }
    Ok(address)
}

/// Register one native entry point for the boot sequence.
#[verifier::spinoff_prover]
fn boot_register(sched: &mut Scheduler, func: HostFunction) -> (r: Result<u32, InitError>)
    requires
        sched_wf(old(sched)@),
    ensures
        sched_wf(final(sched)@),
        final(sched)@ == boot_register_spec(old(sched)@, func@).0,
        r == boot_register_spec(old(sched)@, func@).1,
{
    proof {
        reveal(boot_register_spec);
    }
    let ghost pre = sched@;
    let r = sched.core.register_function(func);
    proof {
        assert(sched@ =~~= boot_register_spec(pre, func@).0);
        assert forall|j: int| 0 <= j < sched@.tasks.len()
            implies task_wf(#[trigger] sched@.tasks[j], sched@.core)
        by {
            assert(task_wf(pre.tasks[j], pre.core));
        };
    }
    match r {
        Ok(a) => Ok(a),
        Err(error) => Err(InitError::Emulation { error }),
    }
}

/// Tasks stay well formed whenever the function table has only grown and
/// the task list is unchanged.
proof fn lemma_tasks_still_wf(pre: SchedView, post: SchedView)
    requires
        sched_wf(pre),
        post.tasks == pre.tasks,
        pre.core.stubs.len() <= post.core.stubs.len(),
    ensures
        forall|j: int| 0 <= j < post.tasks.len()
            ==> task_wf(#[trigger] post.tasks[j], post.core),
{
    assert forall|j: int| 0 <= j < post.tasks.len()
        implies task_wf(#[trigger] post.tasks[j], post.core)
    by {
        assert(task_wf(pre.tasks[j], pre.core));
    };
}

/// The fourth fixed parameter record as the boot sequence writes it: the
/// tag of each primitive array pool is the type's descriptor letter.
pub open spec fn boot_param3() -> InitParam3 {
    InitParam3 {
        unk1: 0,
        unk2: 0,
        unk3: 0,
        unk4: 0,
        tag_boolean: 0x5a,
        tag_char: 0x43,
        tag_float: 0x46,
        tag_double: 0x44,
        tag_byte: 0x42,
        tag_short: 0x53,
        tag_int: 0x49,
        tag_long: 0x4a,
    }
}

/// The machine after the first two parameter records (and the opaque
/// block the second points at) are allocated and written.
#[verifier::opaque]
pub open spec fn write_params_head_spec(v: SchedView)
    -> (SchedView, Result<(u32, u32), InitError>) {
    let (v1, r0) = alloc_record_spec(v, 4, (InitParam0 { unk: 0 }).words_spec());
    match r0 {
        Err(e) => (v1, Err(e)),
        Ok(p0) => {
            let (v2, ru) = alloc_record_spec(v1, 128, Seq::new(32, |k: int| 0u32));
            match ru {
                Err(e) => (v2, Err(e)),
                Ok(pu) => {
                    let (v3, r1) = alloc_record_spec(v2, 4,
                        (InitParam1 { ptr_unk_struct: pu }).words_spec());
                    match r1 {
                        Err(e) => (v3, Err(e)),
                        Ok(p1) => (v3, Ok((p0, p1))),
                    }
                },
            }
        },
    }
}

/// The machine after the vtable parameter block and the type-tag record
/// are allocated and written.
#[verifier::opaque]
pub open spec fn write_params_tail_spec(v: SchedView)
    -> (SchedView, Result<(u32, u32), InitError>) {
    let (v1, r2) = alloc_record_spec(v, 268, Seq::new(67, |k: int| 0u32));
    match r2 {
        Err(e) => (v1, Err(e)),
        Ok(p2) => {
            let (v2, r3) = alloc_record_spec(v1, 48, boot_param3().words_spec());
            match r3 {
                Err(e) => (v2, Err(e)),
                Ok(p3) => (v2, Ok((p2, p3))),
            }
        },
    }
}

/// The machine after the first four parameter records are allocated and
/// written, with their addresses.
#[verifier::opaque]
pub open spec fn write_early_params_spec(v: SchedView)
    -> (SchedView, Result<(u32, u32, u32, u32), InitError>) {
    let (v1, rh) = write_params_head_spec(v);
    match rh {
        Err(e) => (v1, Err(e)),
        Ok((p0, p1)) => {
            let (v2, rt) = write_params_tail_spec(v1);
            match rt {
                Err(e) => (v2, Err(e)),
                Ok((p2, p3)) => (v2, Ok((p0, p1, p2, p3))),
            }
        },
    }
}

/// The view of the native function that serves guest allocations.
pub open spec fn heap_alloc_view() -> HostFunctionView {
    HostFunctionView {
        kind: HostKind::HeapAlloc,
        result: 0,
        steps: Seq::<HostStep>::empty(),
    }
}

/// The machine after the native entry points are registered and the record
/// that points at them is written, with that record's address.
#[verifier::opaque]
pub open spec fn write_entry_param_spec(v: SchedView, h: KtfHooksView)
    -> (SchedView, Result<u32, InitError>) {
    let (v1, r1) = boot_register_spec(v, h.fn_get_interface);
    match r1 {
        Err(e) => (v1, Err(e)),
        Ok(fn_get_interface) => {
            let (v2, r2) = boot_register_spec(v1, h.fn_java_throw);
            match r2 {
                Err(e) => (v2, Err(e)),
                Ok(fn_java_throw) => {
                    let (v3, r3) = boot_register_spec(v2, h.fn_java_new);
                    match r3 {
                        Err(e) => (v3, Err(e)),
                        Ok(fn_java_new) => {
                            let (v4, r4) = boot_register_spec(v3, h.fn_java_array_new);
                            match r4 {
                                Err(e) => (v4, Err(e)),
                                Ok(fn_java_array_new) => {
                                    let (v5, r5) = boot_register_spec(v4,
                                        h.fn_java_class_load);
                                    match r5 {
                                        Err(e) => (v5, Err(e)),
                                        Ok(fn_java_class_load) => {
                                            let (v6, r6) = boot_register_spec(v5,
                                                heap_alloc_view());
                                            match r6 {
                                                Err(e) => (v6, Err(e)),
                                                Ok(fn_alloc) => {
                                                    alloc_record_spec(v6, 48, (InitParam4 {
                                                        fn_get_interface,
                                                        fn_java_throw,
                                                        unk1: 0,
                                                        unk2: 0,
                                                        unk3: 0,
                                                        fn_java_new,
                                                        fn_java_array_new,
                                                        unk6: 0,
                                                        fn_java_class_load,
                                                        unk7: 0,
                                                        unk8: 0,
                                                        fn_alloc,
                                                    }).words_spec())
                                                },
                                            }
                                        },
                                    }
                                },
                            }
                        },
                    }
                },
            }
        },
    }
}

/// The machine after all five parameter records are in place and the
/// process environment block points at the vtable parameter block, with
/// the five record addresses.
#[verifier::opaque]
pub open spec fn write_boot_params_spec(v: SchedView, h: KtfHooksView)
    -> (SchedView, Result<(u32, u32, u32, u32, u32), InitError>) {
    let (v1, re) = write_early_params_spec(v);
    match re {
        Err(e) => (v1, Err(e)),
        Ok((p0, p1, p2, p3)) => {
            let (v2, rp) = write_entry_param_spec(v1, h);
            match rp {
                Err(e) => (v2, Err(e)),
                Ok(p4) => {
                    let v3 = SchedView {
                        core: init_peb_spec(v2.core, KtfPeb { ptr_java_context_data: p2 }),
                        ..v2
                    };
                    (v3, Ok((p0, p1, p2, p3, p4)))
                },
            }
        },
    }
}

/// The whole boot sequence as a function of the starting machine state:
/// the entry call, the parameter records, the registered entry points, the
/// environment block, the record chain read back out of guest memory, and
/// the initializer call whose exit code decides the result.
#[verifier::opaque]
pub open spec fn init_spec(v: SchedView, h: KtfHooksView, base_address: u32, bss_size: u32,
    max_steps: u64) -> (SchedView, Result<ModuleInfo, InitError>) {
    let (v1, r1) = boot_call_spec(v, base_address, seq![bss_size], max_steps);
    match r1 {
        Err(e) => (v1, Err(e)),
        Ok(wipi_exe) => {
            let (v2, r2) = write_boot_params_spec(v1, h);
            match r2 {
                Err(e) => (v2, Err(e)),
                Ok((p0, p1, p2, p3, p4)) => {
                    match WipiExe::read_spec(v2.core.mem, wipi_exe) {
                        Err(e) => (v2, Err(InitError::Emulation { error: e })),
                        Ok(exe) => match ExeInterface::read_spec(v2.core.mem,
                            exe.ptr_exe_interface) {
                            Err(e) => (v2, Err(InitError::Emulation { error: e })),
                            Ok(iface) => match ExeInterfaceFunctions::read_spec(v2.core.mem,
                                iface.ptr_functions) {
                                Err(e) => (v2, Err(InitError::Emulation { error: e })),
                                Ok(fns) => {
                                    let (v3, r3) = boot_call_spec(v2, fns.fn_init,
                                        seq![p0, p1, p2, p3, p4], max_steps);
                                    match r3 {
                                        Err(e) => (v3, Err(e)),
                                        Ok(code) => (v3, if code == 0 {
                                            Ok(ModuleInfo {
                                                fn_init: exe.fn_init,
                                                fn_get_class: fns.fn_get_class,
                                            })
                                        } else {
                                            Err(InitError::InitFailed { code })
                                        }),
                                    }
                                },
                            },
                        },
                    }
                },
            }
        },
    }
}

/// Allocate and write the first two fixed parameter records and the
/// opaque block between them.
#[verifier::spinoff_prover]
#[verifier::rlimit(100)]
fn write_params_head(sched: &mut Scheduler) -> (r: Result<(u32, u32), InitError>)
    requires
        sched_wf(old(sched)@),
    ensures
        sched_wf(final(sched)@),
        final(sched)@ == write_params_head_spec(old(sched)@).0,
        r == write_params_head_spec(old(sched)@).1,
{
    proof {
        reveal(write_params_head_spec);
    }
    let param_0 = InitParam0 { unk: 0 };
    let words_0 = param_0.to_words();
    let ptr_param_0 = alloc_record(sched, 4, &words_0)?;

    let unk_block = InitParam1Unk::zeroed();
    let ptr_unk_struct = alloc_record(sched, 128, &unk_block.unk)?;

    let param_1 = InitParam1 { ptr_unk_struct };
    let words_1 = param_1.to_words();
    let ptr_param_1 = alloc_record(sched, 4, &words_1)?;

    Ok((ptr_param_0, ptr_param_1))
}

/// Allocate and write the vtable parameter block and the type-tag record.
#[verifier::spinoff_prover]
#[verifier::rlimit(100)]
fn write_params_tail(sched: &mut Scheduler) -> (r: Result<(u32, u32), InitError>)
    requires
        sched_wf(old(sched)@),
    ensures
        sched_wf(final(sched)@),
        final(sched)@ == write_params_tail_spec(old(sched)@).0,
        r == write_params_tail_spec(old(sched)@).1,
{
    proof {
        reveal(write_params_tail_spec);
    }
    let param_2 = InitParam2::zeroed();
    let words_2 = param_2.to_words();
    let ptr_param_2 = alloc_record(sched, 268, &words_2)?;

    // The primitive-type tags are the descriptor letters Z C F D B S I J.
    let param_3 = InitParam3 {
        unk1: 0,
        unk2: 0,
        unk3: 0,
        unk4: 0,
        tag_boolean: 0x5a,
        tag_char: 0x43,
        tag_float: 0x46,
        tag_double: 0x44,
        tag_byte: 0x42,
        tag_short: 0x53,
        tag_int: 0x49,
        tag_long: 0x4a,
    };
    proof {
        assert(param_3 == boot_param3());
    }
    let words_3 = param_3.to_words();
    let ptr_param_3 = alloc_record(sched, 48, &words_3)?;

    Ok((ptr_param_2, ptr_param_3))
}

/// Allocate and write the first four fixed parameter records; hands back
/// their addresses.
#[verifier::spinoff_prover]
#[verifier::rlimit(100)]
fn write_early_params(sched: &mut Scheduler) -> (r: Result<(u32, u32, u32, u32), InitError>)
    requires
        sched_wf(old(sched)@),
    ensures
        sched_wf(final(sched)@),
        final(sched)@ == write_early_params_spec(old(sched)@).0,
        r == write_early_params_spec(old(sched)@).1,
{
    proof {
        reveal(write_early_params_spec);
    }
    let (ptr_param_0, ptr_param_1) = write_params_head(sched)?;
    let (ptr_param_2, ptr_param_3) = write_params_tail(sched)?;
    Ok((ptr_param_0, ptr_param_1, ptr_param_2, ptr_param_3))
}

/// Register the native entry points the vendor module calls back into and
/// write the record that points at them; hands back its address.
#[verifier::spinoff_prover]
#[verifier::rlimit(100)]
fn write_entry_param(sched: &mut Scheduler, hooks: KtfHooks) -> (r: Result<u32, InitError>)
    requires
        sched_wf(old(sched)@),
    ensures
        sched_wf(final(sched)@),
        final(sched)@ == write_entry_param_spec(old(sched)@, hooks@).0,
        r == write_entry_param_spec(old(sched)@, hooks@).1,
{
    proof {
        reveal(write_entry_param_spec);
    }
    let fn_get_interface = boot_register(sched, hooks.fn_get_interface)?;
    let fn_java_throw = boot_register(sched, hooks.fn_java_throw)?;
    let fn_java_new = boot_register(sched, hooks.fn_java_new)?;
    let fn_java_array_new = boot_register(sched, hooks.fn_java_array_new)?;
    let fn_java_class_load = boot_register(sched, hooks.fn_java_class_load)?;
    let fn_alloc = boot_register(sched, HostFunction::heap_alloc())?;

    let param_4 = InitParam4 {
        fn_get_interface,
        fn_java_throw,
        unk1: 0,
        unk2: 0,
        unk3: 0,
        fn_java_new,
        fn_java_array_new,
        unk6: 0,
        fn_java_class_load,
        unk7: 0,
        unk8: 0,
        fn_alloc,
    };
    let words_4 = param_4.to_words();
    alloc_record(sched, 48, &words_4)
}

/// Allocate and write the five fixed parameter records, register the
/// native entry points, and map the process environment block; hands back
/// the five record addresses.
#[verifier::spinoff_prover]
#[verifier::rlimit(100)]
fn write_boot_params(sched: &mut Scheduler, hooks: KtfHooks)
    -> (r: Result<(u32, u32, u32, u32, u32), InitError>)
    requires
        sched_wf(old(sched)@),
    ensures
        sched_wf(final(sched)@),
        final(sched)@ == write_boot_params_spec(old(sched)@, hooks@).0,
        r == write_boot_params_spec(old(sched)@, hooks@).1,
{
    proof {
        reveal(write_boot_params_spec);
    }
    let ghost h = hooks@;
    let (ptr_param_0, ptr_param_1, ptr_param_2, ptr_param_3) = write_early_params(sched)?;
    let ptr_param_4 = write_entry_param(sched, hooks)?;

    // The runtime's context data block is the vtable parameter block.
    let ghost pre = sched@;
    match init_peb(&mut sched.core, KtfPeb { ptr_java_context_data: ptr_param_2 }) {
        Ok(()) => {},
        Err(error) => {
            proof {
                lemma_tasks_still_wf(pre, sched@);
            }
            return Err(InitError::Emulation { error });
        },
    }
    proof {
        lemma_tasks_still_wf(pre, sched@);
        assert(sched@ =~~= write_boot_params_spec(old(sched)@, h).0);
    }
    Ok((ptr_param_0, ptr_param_1, ptr_param_2, ptr_param_3, ptr_param_4))
}

/// Boot the vendor module mapped at `base_address`.
///
/// Runs the module's entry point once (handing it the zero-fill size) to
/// learn the executable's root record, allocates and writes the five fixed
/// parameter records, registers the native entry points, maps the process
/// environment block with a pointer to the vtable parameter block, reads
/// the interface chain back out of guest memory, and runs the module's own
/// initializer over the parameter pointers.  The final machine and the
/// result are exactly [`init_spec`] of the starting state: a fault or an
/// out-of-range record read surfaces as an emulation error, an exhausted
/// budget as such, a nonzero initializer exit code as that failure, and
/// only a zero code yields the entry points read from the record chain.
#[verifier::spinoff_prover]
#[verifier::rlimit(100)]
pub fn init(sched: &mut Scheduler, hooks: KtfHooks, base_address: u32, bss_size: u32,
    max_steps: u64) -> (r: Result<ModuleInfo, InitError>)
    requires
        sched_wf(old(sched)@),
    ensures
        sched_wf(final(sched)@),
        final(sched)@ == init_spec(old(sched)@, hooks@, base_address, bss_size, max_steps).0,
        r == init_spec(old(sched)@, hooks@, base_address, bss_size, max_steps).1,
{
    proof {
        reveal(init_spec);
    }
    let mut entry_args: Vec<u32> = Vec::new();
    entry_args.push(bss_size);
    proof {
        assert(entry_args@ =~= seq![bss_size]);
    }
    let wipi_exe = boot_call(sched, base_address, &entry_args, max_steps)?;

    let (ptr_param_0, ptr_param_1, ptr_param_2, ptr_param_3, ptr_param_4) =
        write_boot_params(sched, hooks)?;

    let exe = match WipiExe::read_from(&sched.core.mem, wipi_exe) {
        Ok(p) => p,
        Err(error) => {
            return Err(InitError::Emulation { error });
        },
    };
    let iface = match ExeInterface::read_from(&sched.core.mem, exe.ptr_exe_interface) {
        Ok(p) => p,
        Err(error) => {
            return Err(InitError::Emulation { error });
        },
    };
    let fns = match ExeInterfaceFunctions::read_from(&sched.core.mem, iface.ptr_functions) {
        Ok(p) => p,
        Err(error) => {
            return Err(InitError::Emulation { error });
        },
    };

    let mut init_args: Vec<u32> = Vec::new();
    init_args.push(ptr_param_0);
    init_args.push(ptr_param_1);
    init_args.push(ptr_param_2);
    init_args.push(ptr_param_3);
    init_args.push(ptr_param_4);
    proof {
        assert(init_args@ =~= seq![ptr_param_0, ptr_param_1, ptr_param_2, ptr_param_3,
            ptr_param_4]);
    }
    let code = boot_call(sched, fns.fn_init, &init_args, max_steps)?;

    module_info_from_records(exe, fns, code)
}

/// The bridge handed to the platform's C-interface layer: allocation, raw
/// stores and callback registration, straight on the core.
pub struct KtfCBridge {
    pub core: ArmCore,
}

impl KtfCBridge {
    /// A bridge over `core`.
    pub fn new(core: ArmCore) -> (b: KtfCBridge)
        ensures
            b.core@ == core@,
    {
        KtfCBridge { core }
    }

    /// Allocate guest heap memory on a C caller's behalf.
    pub fn allocate(&mut self, size: u32) -> (r: Result<u32, EmuError>)
        requires
            core_wf(old(self).core@),
        ensures
            core_wf(final(self).core@),
            final(self).core@.mem == old(self).core@.mem,
            final(self).core@.regs == old(self).core@.regs,
            final(self).core@.stubs == old(self).core@.stubs,
            final(self).core@.journal == old(self).core@.journal,
            final(self).core@.state == old(self).core@.state,
            final(self).core@.heap.base == old(self).core@.heap.base,
            final(self).core@.heap.limit == old(self).core@.heap.limit,
            match r {
                Ok(address) => crate::heap::alloc_spec(old(self).core@.heap.records, size)
                    == Some((final(self).core@.heap.records, address)),
                Err(e) => crate::heap::alloc_spec(old(self).core@.heap.records, size) is None
                    && e == (EmuError::AllocationFailure { address: 0 })
                    && final(self).core@ == old(self).core@,
            },
    {
        self.core.allocate(size)
    }

    /// Store raw bytes into guest memory on a C caller's behalf.
    pub fn write_raw(&mut self, address: u32, data: &[u8]) -> (r: Result<(), EmuError>)
        requires
            data@.len() <= u32::MAX,
        ensures
            final(self).core@.heap == old(self).core@.heap,
            final(self).core@.regs == old(self).core@.regs,
            final(self).core@.stubs == old(self).core@.stubs,
            final(self).core@.journal == old(self).core@.journal,
            final(self).core@.state == old(self).core@.state,
            match r {
                Ok(()) => address + data@.len() <= old(self).core@.mem.len()
                    && final(self).core@.mem
                        == crate::mem::write_bytes_spec(old(self).core@.mem, address, data@),
                Err(e) => !(address + data@.len() <= old(self).core@.mem.len())
                    && e == (EmuError::OutOfBounds { address, size: data@.len() as u32 })
                    && final(self).core@ == old(self).core@,
            },
    {
        self.core.write_raw(address, data)
    }

    /// Register a C-level callback behind a guest-reachable stub address.
    pub fn register_function(&mut self, method: HostFunction) -> (r: Result<u32, EmuError>)
        requires
            core_wf(old(self).core@),
        ensures
            core_wf(final(self).core@),
            match r {
                Ok(address) => final(self).core@.stubs
                    == old(self).core@.stubs.push(method@)
                    && address == crate::cpu::stub_address_spec(
                        old(self).core@.stubs.len() as int),
                Err(e) => (old(self).core@.stubs.len() as int)
                    >= (STUB_LIMIT as int - STUB_BASE as int) / (STUB_SIZE as int)
                    && e == (EmuError::AllocationFailure { address: 0 })
                    && final(self).core@ == old(self).core@,
            },
    {
        self.core.register_function(method)
    }
}

} // verus!
