use wie::cpu::{ArmCore, HostFunction, HostStep, CallRecord};
use wie::error::EmuError;
use wie::instr::{encode, decode, Instr};
use wie::sched::{Scheduler, TaskStatus, STACK_SIZE};

fn test_core() -> ArmCore {
    // 128 KiB of guest memory, heap in [0x10000, 0x18000).
    ArmCore::new(0x20000, 0x10000, 0x8000)
}

fn program_bytes(instrs: &[Instr]) -> Vec<u8> {
    let mut out = Vec::new();
    for i in instrs {
        out.extend_from_slice(&encode(*i).to_le_bytes());
    }
    out
}

#[test]
fn raw_round_trip() {
    let mut core = test_core();
    let data = vec![1u8, 2, 3, 4, 5];
    core.write_raw(0x4000, &data).unwrap();
    let back = core.read_raw(0x4000, 5).unwrap();
    assert_eq!(back, data);
}

#[test]
fn out_of_bounds_rejected_and_memory_unchanged() {
    let mut core = test_core();
    core.write_raw(0x4000, &[7u8, 8, 9]).unwrap();
    // One byte past the end of the 0x20000-byte space.
    let err = core.write_raw(0x1fffe, &[1u8, 2, 3]).unwrap_err();
    assert_eq!(err, EmuError::OutOfBounds { address: 0x1fffe, size: 3 });
    let err = core.read_raw(0x1fffe, 3).unwrap_err();
    assert_eq!(err, EmuError::OutOfBounds { address: 0x1fffe, size: 3 });
    assert_eq!(core.read_raw(0x4000, 3).unwrap(), vec![7u8, 8, 9]);
    // The failed write touched nothing, even inside the space.
    assert_eq!(core.read_raw(0x1fffd, 3).unwrap(), vec![0u8, 0, 0]);
}

#[test]
fn allocations_never_overlap() {
    let mut core = test_core();
    let mut live: Vec<(u32, u32)> = Vec::new();
    let a = core.allocate(0x100).unwrap();
    let b = core.allocate(0x40).unwrap();
    let c = core.allocate(0x1000).unwrap();
    live.push((a, 0x100));
    live.push((b, 0x40));
    live.push((c, 0x1000));
    core.free(b).unwrap();
    let d = core.allocate(0x20).unwrap();
    live.retain(|&(base, _)| base != b);
    live.push((d, 0x20));
    for (i, &(b1, s1)) in live.iter().enumerate() {
        for &(b2, s2) in live.iter().skip(i + 1) {
            assert!(b1 + s1 <= b2 || b2 + s2 <= b1, "overlap: {b1:#x}+{s1:#x} vs {b2:#x}");
        }
    }
}

#[test]
fn free_of_unallocated_address_fails() {
    let mut core = test_core();
    let a = core.allocate(0x100).unwrap();
    // Never allocated.
    assert_eq!(
        core.free(0x12345),
        Err(EmuError::AllocationFailure { address: 0x12345 })
    );
    core.free(a).unwrap();
    // Already freed.
    assert_eq!(core.free(a), Err(EmuError::AllocationFailure { address: a }));
    // Not an allocation base (middle of a former block).
    assert_eq!(
        core.free(a + 4),
        Err(EmuError::AllocationFailure { address: a + 4 })
    );
}

#[test]
fn alloc_zero_fails() {
    let mut core = test_core();
    assert_eq!(core.allocate(0), Err(EmuError::AllocationFailure { address: 0 }));
}

#[test]
fn instruction_encoding_round_trips() {
    let samples = [
        Instr::MovImm { rd: 0, imm: 0x1234 },
        Instr::MovReg { rd: 3, rn: 15 },
        Instr::Add { rd: 1, rn: 2, rm: 3 },
        Instr::Sub { rd: 4, rn: 5, rm: 6 },
        Instr::Ldr { rd: 7, rn: 8, off: 0xffc },
        Instr::Str { rd: 9, rn: 10, off: 4 },
        Instr::Cmp { rn: 11, rm: 12 },
        Instr::B { target: 0x4000 },
        Instr::Beq { target: 0x8 },
        Instr::Bne { target: 0x03ff_fffc },
        Instr::Bl { target: 0x100 },
        Instr::Bx { rn: 14 },
    ];
    for i in samples {
        assert_eq!(decode(encode(i)), Some(i));
    }
    // The top byte 0xef never decodes: it marks native-function stubs.
    assert_eq!(decode(0xef00_0000), None);
}

#[test]
fn run_function_returns_result_register() {
    let mut core = test_core();
    core.map(0x4000, 0x1000).unwrap();
    let prog = program_bytes(&[Instr::MovImm { rd: 0, imm: 42 }, Instr::Bx { rn: 14 }]);
    core.write_raw(0x4000, &prog).unwrap();
    let mut sched = Scheduler::new(core, 0);
    let args: Vec<u32> = Vec::new();
    assert_eq!(sched.run_function(0x4000, &args, 1000), Ok(Some(42)));
}

#[test]
fn run_function_arithmetic_and_memory() {
    let mut core = test_core();
    core.map(0x4000, 0x1000).unwrap();
    // r2 = r0 + r1; store r2 at [r3]; reload into r0; return.
    let prog = program_bytes(&[
        Instr::Add { rd: 2, rn: 0, rm: 1 },
        Instr::Str { rd: 2, rn: 3, off: 0 },
        Instr::MovImm { rd: 0, imm: 0 },
        Instr::Ldr { rd: 0, rn: 3, off: 0 },
        Instr::Bx { rn: 14 },
    ]);
    core.write_raw(0x4000, &prog).unwrap();
    let mut sched = Scheduler::new(core, 0);
    let args = vec![30u32, 12, 0, 0x4800];
    assert_eq!(sched.run_function(0x4000, &args, 1000), Ok(Some(42)));
    assert_eq!(sched.core.read_raw(0x4800, 4).unwrap(), vec![42u8, 0, 0, 0]);
}

#[test]
fn conditional_branches_follow_flags() {
    let mut core = test_core();
    core.map(0x4000, 0x1000).unwrap();
    // if r0 == r1 then 1 else 2
    let prog = program_bytes(&[
        Instr::Cmp { rn: 0, rm: 1 },
        Instr::Beq { target: 0x4010 },
        Instr::MovImm { rd: 0, imm: 2 },
        Instr::Bx { rn: 14 },
        Instr::MovImm { rd: 0, imm: 1 },
        Instr::Bx { rn: 14 },
    ]);
    core.write_raw(0x4000, &prog).unwrap();
    let mut sched = Scheduler::new(core, 0);
    assert_eq!(sched.run_function(0x4000, &vec![5, 5], 1000), Ok(Some(1)));
    assert_eq!(sched.run_function(0x4000, &vec![5, 6], 1000), Ok(Some(2)));
}

#[test]
fn undecodable_instruction_faults() {
    let mut core = test_core();
    core.map(0x4000, 0x1000).unwrap();
    core.write_raw(0x4000, &0xffff_ffffu32.to_le_bytes()).unwrap();
    let mut sched = Scheduler::new(core, 0);
    let r = sched.run_function(0x4000, &Vec::new(), 1000);
    assert_eq!(
        r,
        Err(EmuError::UnsupportedInstruction { address: 0x4000, word: 0xffff_ffff })
    );
}

#[test]
fn out_of_bounds_load_faults() {
    let mut core = test_core();
    core.map(0x4000, 0x1000).unwrap();
    let prog = program_bytes(&[Instr::Ldr { rd: 0, rn: 1, off: 0 }, Instr::Bx { rn: 14 }]);
    core.write_raw(0x4000, &prog).unwrap();
    let mut sched = Scheduler::new(core, 0);
    let r = sched.run_function(0x4000, &vec![0, 0x30000], 1000);
    assert_eq!(r, Err(EmuError::OutOfBounds { address: 0x30000, size: 4 }));
}

#[test]
fn interpreter_is_deterministic() {
    let build = || {
        let mut core = test_core();
        core.map(0x4000, 0x1000).unwrap();
        let prog = program_bytes(&[
            Instr::Add { rd: 0, rn: 0, rm: 1 },
            Instr::Sub { rd: 0, rn: 0, rm: 2 },
            Instr::Bx { rn: 14 },
        ]);
        core.write_raw(0x4000, &prog).unwrap();
        Scheduler::new(core, 0)
    };
    let args = vec![100u32, 50, 8];
    let mut s1 = build();
    let mut s2 = build();
    let r1 = s1.run_function(0x4000, &args, 1000);
    let r2 = s2.run_function(0x4000, &args, 1000);
    assert_eq!(r1, r2);
    assert_eq!(r1, Ok(Some(142)));
    // A larger step budget changes nothing once the run has finished.
    let mut s3 = build();
    assert_eq!(s3.run_function(0x4000, &args, 100_000), r1);
}

#[test]
fn callback_receives_exact_argument_registers() {
    let mut core = test_core();
    let stub = core.register_function(HostFunction::fixed(7)).unwrap();
    // Store the stub address in guest memory, as a guest-held function
    // pointer, and call through it.
    core.map(0x4000, 0x1000).unwrap();
    core.write_raw(0x4800, &stub.to_le_bytes()).unwrap();
    // The link register still holds the return sentinel, so the callback's
    // return ends the call.
    let prog = program_bytes(&[
        Instr::MovImm { rd: 4, imm: 0x4800 },
        Instr::Ldr { rd: 5, rn: 4, off: 0 },
        Instr::Bx { rn: 5 },
    ]);
    core.write_raw(0x4000, &prog).unwrap();
    let mut sched = Scheduler::new(core, 0);
    let r = sched.run_function(0x4000, &vec![11, 22, 33], 1000);
    assert_eq!(r, Ok(Some(7)));
    assert_eq!(
        sched.core.journal,
        vec![CallRecord { index: 0, a0: 11, a1: 22, a2: 33 }]
    );
}

#[test]
fn stack_reused_after_task_completes() {
    let mut core = test_core();
    core.map(0x4000, 0x1000).unwrap();
    let prog = program_bytes(&[Instr::MovImm { rd: 0, imm: 5 }, Instr::Bx { rn: 14 }]);
    core.write_raw(0x4000, &prog).unwrap();
    let mut sched = Scheduler::new(core, 0);
    assert_eq!(sched.run_function(0x4000, &Vec::new(), 1000), Ok(Some(5)));
    let stack_base = sched.tasks[0].stack_base;
    // The completed task's stack allocation is available again.
    assert_eq!(sched.core.allocate(STACK_SIZE), Ok(stack_base));
}

#[test]
fn stack_released_even_after_fault() {
    let mut core = test_core();
    // No program mapped: the fetch faults at once.
    let mut sched = Scheduler::new(core, 0);
    let r = sched.run_function(0x30000, &Vec::new(), 1000);
    assert!(r.is_err());
    let stack_base = sched.tasks[0].stack_base;
    assert!(matches!(sched.tasks[0].status, TaskStatus::Faulted { .. }));
    assert_eq!(sched.core.allocate(STACK_SIZE), Ok(stack_base));
}

#[test]
fn timers_resume_in_deadline_order() {
    let mut core = test_core();
    let stub_a = core.register_function(HostFunction::script(
        vec![HostStep::Sleep { millis: 500 }],
        0,
    )).unwrap();
    let stub_b = core.register_function(HostFunction::script(
        vec![HostStep::Sleep { millis: 100 }],
        0,
    )).unwrap();
    let mut sched = Scheduler::new(core, 0);
    let a = sched.spawn(stub_a, &Vec::new()).unwrap();
    let b = sched.spawn(stub_b, &Vec::new()).unwrap();
    // Two steps each: enter the native routine, then hit its sleep.
    for _ in 0..4 {
        sched.step_once();
    }
    assert_eq!(sched.tasks[a].status, TaskStatus::Sleeping { wake_at: 500 });
    assert_eq!(sched.tasks[b].status, TaskStatus::Sleeping { wake_at: 100 });
    // Nothing ready: the clock advances to the earliest deadline only.
    sched.step_once();
    assert_eq!(sched.now_ms, 100);
    assert_eq!(sched.tasks[b].status, TaskStatus::Ready);
    assert_eq!(sched.tasks[a].status, TaskStatus::Sleeping { wake_at: 500 });
    // Drive to completion: B finishes before A is even awake.
    sched.run(100);
    assert!(matches!(sched.tasks[a].status, TaskStatus::Done { .. }));
    assert_eq!(sched.now_ms, 500);
}

#[test]
fn sleeping_write_invisible_before_deadline() {
    let mut core = test_core();
    let stub = core.register_function(HostFunction::script(
        vec![
            HostStep::Sleep { millis: 100 },
            HostStep::WriteWord { address: 0x3000, value: 0x2a },
        ],
        0,
    )).unwrap();
    let mut sched = Scheduler::new(core, 0);
    sched.spawn(stub, &Vec::new()).unwrap();
    sched.step_once(); // enter the native routine
    sched.step_once(); // sleep
    assert_eq!(sched.tasks[0].status, TaskStatus::Sleeping { wake_at: 100 });
    // Before the deadline the sentinel is not observable.
    assert_eq!(sched.core.read_raw(0x3000, 4).unwrap(), vec![0u8, 0, 0, 0]);
    assert!(sched.now_ms < 100);
    sched.step_once(); // the clock advances to the deadline and wakes the task
    assert!(sched.now_ms >= 100);
    assert_eq!(sched.core.read_raw(0x3000, 4).unwrap(), vec![0u8, 0, 0, 0]);
    sched.run(100);
    assert_eq!(sched.core.read_raw(0x3000, 4).unwrap(), vec![0x2au8, 0, 0, 0]);
}

#[test]
fn yield_lets_other_tasks_run() {
    let mut core = test_core();
    let stub_y = core.register_function(HostFunction::script(
        vec![HostStep::Yield, HostStep::WriteWord { address: 0x3000, value: 1 }],
        0,
    )).unwrap();
    let stub_w = core.register_function(HostFunction::script(
        vec![HostStep::WriteWord { address: 0x3004, value: 2 }],
        0,
    )).unwrap();
    let mut sched = Scheduler::new(core, 0);
    sched.spawn(stub_y, &Vec::new()).unwrap();
    sched.spawn(stub_w, &Vec::new()).unwrap();
    sched.run(1000);
    assert_eq!(sched.core.read_raw(0x3000, 4).unwrap(), vec![1u8, 0, 0, 0]);
    assert_eq!(sched.core.read_raw(0x3004, 4).unwrap(), vec![2u8, 0, 0, 0]);
}

#[test]
fn too_many_arguments_violate_convention() {
    let core = test_core();
    let mut sched = Scheduler::new(core, 0);
    let args = vec![0u32; 9];
    assert_eq!(
        sched.run_function(0x4000, &args, 10),
        Err(EmuError::CallConventionViolation)
    );
}

#[test]
fn spilled_arguments_land_on_stack() {
    let mut core = test_core();
    core.map(0x4000, 0x1000).unwrap();
    // The fifth argument sits at [sp].
    let prog = program_bytes(&[Instr::Ldr { rd: 0, rn: 13, off: 0 }, Instr::Bx { rn: 14 }]);
    core.write_raw(0x4000, &prog).unwrap();
    let mut sched = Scheduler::new(core, 0);
    let args = vec![1u32, 2, 3, 4, 5555];
    assert_eq!(sched.run_function(0x4000, &args, 1000), Ok(Some(5555)));
}

#[test]
fn error_kind_names() {
    assert_eq!(EmuError::OutOfBounds { address: 0, size: 1 }.kind_name(), "out of bounds");
    assert_eq!(
        EmuError::AllocationFailure { address: 0 }.kind_name(),
        "allocation failure"
    );
    assert_eq!(
        EmuError::UnsupportedInstruction { address: 0, word: 0 }.kind_name(),
        "unsupported instruction"
    );
    assert_eq!(EmuError::CallConventionViolation.kind_name(), "call convention violation");
    assert_eq!(EmuError::HostIoFailure.kind_name(), "host i/o failure");
}

#[test]
fn guest_allocates_through_bridge() {
    let mut core = test_core();
    let stub = core.register_function(HostFunction::heap_alloc()).unwrap();
    let mut sched = Scheduler::new(core, 0);
    // Calling the stub directly: r0 carries the request size.
    let r = sched.run_function(stub, &vec![0x20], 1000);
    let address = r.unwrap().unwrap();
    // The handed-out block is live: freeing it succeeds exactly once.
    assert_eq!(sched.core.free(address), Ok(()));
    assert_eq!(
        sched.core.free(address),
        Err(EmuError::AllocationFailure { address })
    );
}
