//! The guest task layer and the cooperative scheduler.
//!
//! A guest task wraps one host-to-guest invocation: a saved register-file
//! snapshot, the interpreter state of that call, and a dedicated stack
//! allocation released unconditionally when the task ends, even on a fault.
//! The scheduler multiplexes the core's one physical register file across
//! tasks by an explicit copy-in/copy-out at every step; tasks interleave
//! only at suspension points, never mid-instruction.  Each scheduler step
//! is a total function of the abstract state ([`sched_step`]), so runs are
//! reproducible and independent of the step budget once the machine goes
//! idle.

use vstd::prelude::*;
use crate::error::EmuError;
use crate::regs::{RegisterFile, RETURN_SENTINEL};
use crate::heap::{AllocView, free_try, alloc_spec, find_used,
    lemma_find_used_inv, lemma_record_in_range, lemma_free_spec_wf};
use crate::cpu::{ArmCore, CoreView, CoreState, StepEvent, core_step, core_wf,
    lemma_core_step_frame};
use crate::records::{write_words, write_words_spec};

verus! {

/// Bytes of guest heap reserved for each task's stack.
pub const STACK_SIZE: u32 = 0x1000;

/// Where a guest task stands.
#[derive(Clone, Copy, Debug, PartialEq, Eq, Structural)]
pub enum TaskStatus {
    /// Can take interpreter steps now.
    Ready,
    /// Suspended until the clock reaches `wake_at` milliseconds.
    Sleeping { wake_at: u64 },
    /// Completed; `result` is the designated result register's value.
    Done { result: u32 },
    /// Ended by a fatal fault.
    Faulted { error: EmuError },
}

/// One schedulable unit of guest computation: a saved register-file
/// snapshot, the saved interpreter state, the task's stack allocation and
/// its status.
#[derive(Clone, Copy, Debug, PartialEq, Eq, Structural)]
pub struct GuestTask {
    pub regs: RegisterFile,
    pub exec_state: CoreState,
    pub stack_base: u32,
    pub status: TaskStatus,
}

/// The abstract state of the scheduler: the core, the tasks, the clock.
#[verifier::ext_equal]
pub struct SchedView {
    pub core: CoreView,
    pub tasks: Seq<GuestTask>,
    pub now_ms: u64,
}

/// Every task's saved interpreter state points only into the core's
/// function table.
pub open spec fn task_wf(t: GuestTask, core: CoreView) -> bool {
    match t.exec_state {
        CoreState::InHostCall { stub, .. } => stub < core.stubs.len(),
        _ => true,
    }
}

/// The scheduler's structural invariant.
pub open spec fn sched_wf(v: SchedView) -> bool {
    &&& core_wf(v.core)
    &&& forall|i: int| 0 <= i < v.tasks.len() ==> task_wf(#[trigger] v.tasks[i], v.core)
}

/// The lowest-index task that is ready to run, searching from `i`.
pub open spec fn first_ready_from(tasks: Seq<GuestTask>, i: int) -> Option<int>
    decreases tasks.len() - i,
{
    if i < 0 || i >= tasks.len() {
        None
    } else if tasks[i].status is Ready {
        Some(i)
    } else {
        first_ready_from(tasks, i + 1)
    }
}

/// The earliest wake deadline among sleeping tasks, searching from `i`.
pub open spec fn min_wake_from(tasks: Seq<GuestTask>, i: int) -> Option<u64>
    decreases tasks.len() - i,
{
    if i < 0 || i >= tasks.len() {
        None
    } else {
        let rest = min_wake_from(tasks, i + 1);
        match tasks[i].status {
            TaskStatus::Sleeping { wake_at } => match rest {
                None => Some(wake_at),
                Some(m) => Some(if wake_at <= m { wake_at } else { m }),
            },
            _ => rest,
        }
    }
}

/// Addition on the millisecond clock, saturating at the far end of time.
pub open spec fn sat_add(a: u64, b: u64) -> u64 {
    if a + b > u64::MAX { u64::MAX } else { (a + b) as u64 }
}

/// A task woken if its deadline has arrived, otherwise unchanged.
pub open spec fn wake_one(t: GuestTask, now: u64) -> GuestTask {
    match t.status {
        TaskStatus::Sleeping { wake_at } => if wake_at <= now {
            GuestTask { status: TaskStatus::Ready, ..t }
        } else {
            t
        },
        _ => t,
    }
}

/// Every sleeping task whose deadline has arrived becomes ready; nothing
/// else changes.
pub open spec fn wake_due(tasks: Seq<GuestTask>, now: u64) -> Seq<GuestTask> {
    tasks.map_values(|t: GuestTask| wake_one(t, now))
}

/// No task can run and none is waiting on the clock.
pub open spec fn sched_idle(v: SchedView) -> bool {
    first_ready_from(v.tasks, 0) is None && min_wake_from(v.tasks, 0) is None
}

/// One scheduler step, a total function of the abstract state: run one
/// core step of the first ready task (restoring its snapshot into the live
/// register file and saving it back), or, with no task ready, advance the
/// clock to the earliest deadline and wake what is due.  Task completion
/// or fault releases the task's stack unconditionally.
pub open spec fn sched_step(v: SchedView) -> SchedView {
    match first_ready_from(v.tasks, 0) {
        Some(i) => {
            let t = v.tasks[i];
            let c0 = CoreView { regs: t.regs, state: t.exec_state, ..v.core };
            let (c1, ev) = core_step(c0);
            let t1 = GuestTask { regs: c1.regs, exec_state: c1.state, ..t };
            match ev {
                StepEvent::Progress => {
                    SchedView { core: c1, tasks: v.tasks.update(i, t1), ..v }
                },
                StepEvent::SleepRequest { millis } => {
                    let t2 = GuestTask {
                        status: TaskStatus::Sleeping { wake_at: sat_add(v.now_ms, millis) },
                        ..t1
                    };
                    SchedView { core: c1, tasks: v.tasks.update(i, t2), ..v }
                },
                StepEvent::YieldRequest => {
                    let t2 = GuestTask {
                        status: TaskStatus::Sleeping { wake_at: v.now_ms },
                        ..t1
                    };
                    SchedView { core: c1, tasks: v.tasks.update(i, t2), ..v }
                },
                StepEvent::Halted => {
                    let c2 = CoreView {
                        heap: AllocView {
                            records: free_try(c1.heap.records, t.stack_base),
                            ..c1.heap
                        },
                        ..c1
                    };
                    let t2 = GuestTask {
                        status: TaskStatus::Done { result: c1.regs.r0 },
                        ..t1
                    };
                    SchedView { core: c2, tasks: v.tasks.update(i, t2), ..v }
                },
                StepEvent::Faulted { error } => {
                    let c2 = CoreView {
                        heap: AllocView {
                            records: free_try(c1.heap.records, t.stack_base),
                            ..c1.heap
                        },
                        ..c1
                    };
                    let t2 = GuestTask { status: TaskStatus::Faulted { error }, ..t1 };
                    SchedView { core: c2, tasks: v.tasks.update(i, t2), ..v }
                },
            }
        },
        None => {
            match min_wake_from(v.tasks, 0) {
                Some(m) => {
                    let advanced = if m > v.now_ms { m } else { v.now_ms };
                    SchedView {
                        core: v.core,
                        tasks: wake_due(v.tasks, advanced),
                        now_ms: advanced,
                    }
                },
                None => v,
            }
        },
    }
}

/// The state after at most `n` scheduler steps, stopping early when idle.
pub open spec fn run_spec(v: SchedView, n: nat) -> SchedView
    decreases n,
{
    if n == 0 || sched_idle(v) {
        v
    } else {
        run_spec(sched_step(v), (n - 1) as nat)
    }
}

/// An idle machine stays exactly as it is, whatever the budget.
pub proof fn lemma_run_idle(v: SchedView, n: nat)
    requires
        sched_idle(v),
    ensures
        run_spec(v, n) == v,
{
}

/// Once a run has gone idle, a larger step budget changes nothing: the
/// outcome of a run is a function of the starting state alone, so two runs
/// from identical states, each given enough steps to finish, end
/// identically.
pub proof fn lemma_run_deterministic(v: SchedView, n1: nat, n2: nat)
    requires
        sched_idle(run_spec(v, n1)),
        n1 <= n2,
    ensures
        run_spec(v, n2) == run_spec(v, n1),
    decreases n1,
{
    if n1 == 0 {
        lemma_run_idle(v, n2);
    } else if sched_idle(v) {
        lemma_run_idle(v, n2);
    } else {
        lemma_run_deterministic(sched_step(v), (n1 - 1) as nat, (n2 - 1) as nat);
    }
}

/// A scheduler step preserves the invariant and the shape of the machine.
pub proof fn lemma_sched_step_wf(v: SchedView)
    requires
        sched_wf(v),
    ensures
        sched_wf(sched_step(v)),
        sched_step(v).tasks.len() == v.tasks.len(),
        sched_step(v).core.mem.len() == v.core.mem.len(),
        sched_step(v).core.stubs == v.core.stubs,
        sched_step(v).now_ms >= v.now_ms,
{
    match first_ready_from(v.tasks, 0) {
        Some(i) => {
            lemma_first_ready_in_range(v.tasks, 0);
            let t = v.tasks[i];
            let c0 = CoreView { regs: t.regs, state: t.exec_state, ..v.core };
            assert(core_wf(c0));
            lemma_core_step_frame(c0);
            let (c1, ev) = core_step(c0);
            lemma_free_spec_wf(c1.heap, t.stack_base);
            assert forall|j: int| 0 <= j < sched_step(v).tasks.len()
                implies task_wf(#[trigger] sched_step(v).tasks[j], sched_step(v).core)
            by {
                if j != i {
                    assert(sched_step(v).tasks[j] == v.tasks[j]);
                }
            };
        },
        None => {
            match min_wake_from(v.tasks, 0) {
                Some(m) => {
                    assert forall|j: int| 0 <= j < sched_step(v).tasks.len()
                        implies task_wf(#[trigger] sched_step(v).tasks[j], sched_step(v).core)
                    by {
                        assert(v.tasks[j].exec_state == wake_due(v.tasks,
                            if m > v.now_ms { m } else { v.now_ms })[j].exec_state);
                    };
                },
                None => {},
            }
        },
    }
}

/// A successful search for a ready task lands inside the task list.
pub proof fn lemma_first_ready_in_range(tasks: Seq<GuestTask>, i: int)
    requires
        0 <= i <= tasks.len(),
    ensures
        match first_ready_from(tasks, i) {
            Some(j) => i <= j < tasks.len() && tasks[j].status is Ready
                && forall|k: int| i <= k < j ==> !((#[trigger] tasks[k]).status is Ready),
            None => forall|k: int| i <= k < tasks.len()
                ==> !((#[trigger] tasks[k]).status is Ready),
        },
    decreases tasks.len() - i,
{
    if i < tasks.len() && !(tasks[i].status is Ready) {
        lemma_first_ready_in_range(tasks, i + 1);
    }
}

/// The earliest deadline is a deadline of some sleeping task, and no
/// sleeping task wakes earlier.
pub proof fn lemma_min_wake_bounds(tasks: Seq<GuestTask>, i: int)
    requires
        0 <= i <= tasks.len(),
    ensures
        match min_wake_from(tasks, i) {
            Some(m) => (exists|k: int| i <= k < tasks.len()
                    && (#[trigger] tasks[k]).status == (TaskStatus::Sleeping { wake_at: m }))
                && forall|k: int| i <= k < tasks.len()
                    && (#[trigger] tasks[k]).status is Sleeping
                    ==> m <= tasks[k].status->Sleeping_wake_at,
            None => forall|k: int| i <= k < tasks.len()
                ==> !((#[trigger] tasks[k]).status is Sleeping),
        },
    decreases tasks.len() - i,
{
    if 0 <= i < tasks.len() {
        lemma_min_wake_bounds(tasks, i + 1);
    }
}

/// Timer order: with no task ready, task `b` sleeping until the earliest
/// deadline `t2` and task `a` sleeping until a later `t1`, one scheduler
/// step advances the clock to `t2` and resumes `b` while `a` goes on
/// sleeping: timers are served in non-decreasing deadline order.
pub proof fn lemma_timer_wake_order(v: SchedView, a: int, b: int, t1: u64, t2: u64)
    requires
        sched_wf(v),
        first_ready_from(v.tasks, 0) is None,
        0 <= a < v.tasks.len(),
        0 <= b < v.tasks.len(),
        v.tasks[a].status == (TaskStatus::Sleeping { wake_at: t1 }),
        v.tasks[b].status == (TaskStatus::Sleeping { wake_at: t2 }),
        t2 < t1,
        v.now_ms <= t2,
        min_wake_from(v.tasks, 0) == Some(t2),
    ensures
        sched_step(v).now_ms == t2,
        sched_step(v).tasks[b].status is Ready,
        sched_step(v).tasks[a].status == (TaskStatus::Sleeping { wake_at: t1 }),
{
    assert(sched_step(v).tasks[b] == wake_due(v.tasks, t2)[b]);
    assert(sched_step(v).tasks[a] == wake_due(v.tasks, t2)[a]);
}

/// With no task ready, a scheduler step only drives the clock: guest
/// memory is untouched, so nothing a suspended native routine has yet to
/// write can be observed before its deadline arrives.
pub proof fn lemma_no_ready_no_memory_change(v: SchedView)
    requires
        first_ready_from(v.tasks, 0) is None,
    ensures
        sched_step(v).core.mem == v.core.mem,
{
}

/// Where the stack pointer starts for a call with `nargs` arguments: at the
/// top of the task's stack allocation, below any spilled arguments.
pub open spec fn spawn_sp(stack_base: u32, nargs: nat) -> int {
    if nargs <= 4 {
        stack_base + STACK_SIZE
    } else {
        stack_base + STACK_SIZE - 4 * (nargs - 4)
    }
}

/// The register file to start a guest call: the first four arguments in
/// `r0`..`r3`, the stack pointer at the top of the task's stack allocation
/// (below any spilled arguments), the link register at the return sentinel,
/// the program counter at the entry.
pub open spec fn spawn_regs(pc: u32, args: Seq<u32>, stack_base: u32) -> RegisterFile {
    RegisterFile {
        r0: if args.len() > 0 { args[0] } else { 0 },
        r1: if args.len() > 1 { args[1] } else { 0 },
        r2: if args.len() > 2 { args[2] } else { 0 },
        r3: if args.len() > 3 { args[3] } else { 0 },
        sp: spawn_sp(stack_base, args.len()) as u32,
        lr: RETURN_SENTINEL,
        pc,
        ..RegisterFile::zeroed_spec()
    }
}

/// Guest memory at the start of a call: arguments beyond the fourth are
/// spilled onto the new task's stack, in order, at the stack pointer.
pub open spec fn spawn_mem(mem: Seq<u8>, args: Seq<u32>, stack_base: u32) -> Seq<u8> {
    if args.len() <= 4 {
        mem
    } else {
        write_words_spec(mem, spawn_sp(stack_base, args.len()), args.skip(4))
    }
}

/// The whole effect of invoking a guest function: the spawned task's view
/// (stack allocated, arguments placed, snapshot ready) driven by at most
/// `max_steps` scheduler steps, and the outcome read from that task.
pub open spec fn run_function_spec(v: SchedView, pc: u32, args: Seq<u32>, max_steps: u64)
    -> (SchedView, Result<Option<u32>, EmuError>) {
    if args.len() > 8 {
        (v, Err(EmuError::CallConventionViolation))
    } else {
        match alloc_spec(v.core.heap.records, STACK_SIZE) {
            None => (v, Err(EmuError::AllocationFailure { address: 0 })),
            Some((records, stack_base)) => {
                let spawned = SchedView {
                    core: CoreView {
                        heap: AllocView { records, ..v.core.heap },
                        mem: spawn_mem(v.core.mem, args, stack_base),
                        ..v.core
                    },
                    tasks: v.tasks.push(GuestTask {
                        regs: spawn_regs(pc, args, stack_base),
                        exec_state: CoreState::Running,
                        stack_base,
                        status: TaskStatus::Ready,
                    }),
                    now_ms: v.now_ms,
                };
                let finished = run_spec(spawned, max_steps as nat);
                (finished, match finished.tasks[v.tasks.len() as int].status {
                    TaskStatus::Done { result } => Ok(Some(result)),
                    TaskStatus::Faulted { error } => Err(error),
                    _ => Ok(None),
                })
            },
        }
    }
}

/// The cooperative scheduler: the core, the guest tasks, and the
/// millisecond clock.
pub struct Scheduler {
    pub core: ArmCore,
    pub tasks: Vec<GuestTask>,
    pub now_ms: u64,
}

impl View for Scheduler {
    type V = SchedView;

    open spec fn view(&self) -> SchedView {
        SchedView { core: self.core@, tasks: self.tasks@, now_ms: self.now_ms }
    }
}

impl Scheduler {
    /// A scheduler over a fresh core, with no tasks, at clock `now_ms`.
    pub fn new(core: ArmCore, now_ms: u64) -> (s: Scheduler)
        requires
            core_wf(core@),
        ensures
            sched_wf(s@),
            s@.core == core@,
            s@.tasks == Seq::<GuestTask>::empty(),
            s@.now_ms == now_ms,
    {
        let s = Scheduler { core, tasks: Vec::new(), now_ms };
        proof {
            assert(s@.tasks =~= Seq::<GuestTask>::empty());
        }
        s
    }

    /// Schedule a new guest task for the function at `pc`: its stack is
    /// allocated from the guest heap, the first four arguments go to the
    /// argument registers, any further ones are spilled onto the new stack,
    /// and the task starts ready.  Fails with a call-convention violation
    /// on more than eight arguments and with an allocation failure when no
    /// stack fits, leaving everything unchanged.
    #[verifier::rlimit(100)]
    pub fn spawn(&mut self, pc: u32, args: &Vec<u32>) -> (r: Result<usize, EmuError>)
        requires
            sched_wf(old(self)@),
        ensures
            sched_wf(final(self)@),
            final(self)@.now_ms == old(self)@.now_ms,
            match r {
                Ok(tid) => {
                    &&& args@.len() <= 8
                    &&& tid == old(self)@.tasks.len()
                    &&& match alloc_spec(old(self)@.core.heap.records, STACK_SIZE) {
                        Some((records, stack_base)) => {
                            &&& final(self)@.core == (CoreView {
                                heap: AllocView { records, ..old(self)@.core.heap },
                                mem: spawn_mem(old(self)@.core.mem, args@, stack_base),
                                ..old(self)@.core
                            })
                            &&& final(self)@.tasks == old(self)@.tasks.push(GuestTask {
                                regs: spawn_regs(pc, args@, stack_base),
                                exec_state: CoreState::Running,
                                stack_base,
                                status: TaskStatus::Ready,
                            })
                        },
                        None => false,
                    }
                },
                Err(e) => {
                    &&& final(self)@ == old(self)@
                    &&& if args@.len() > 8 {
                        e == EmuError::CallConventionViolation
                    } else {
                        alloc_spec(old(self)@.core.heap.records, STACK_SIZE) is None
                            && e == (EmuError::AllocationFailure { address: 0 })
                    }
                },
            },
    {
        if args.len() > 8 {
            return Err(EmuError::CallConventionViolation);
        }
        let stack_base = match self.core.allocate(STACK_SIZE) {
            Ok(b) => b,
            Err(e) => {
                proof {
                    assert(self@ =~~= old(self)@);
                }
                return Err(e);
            },
        };
        proof {
            crate::heap::lemma_alloc_spec_wf(old(self)@.core.heap, STACK_SIZE);
            let recs = self@.core.heap.records;
            lemma_find_used_inv(recs, stack_base);
            match find_used(recs, stack_base) {
                Some(i) => {
                    lemma_record_in_range(self@.core.heap, i);
                },
                None => {},
            }
            assert(stack_base + STACK_SIZE <= self@.core.heap.limit);
        }
        let nargs = args.len();
        let sp: u32 = if nargs > 4 {
            stack_base + STACK_SIZE - 4 * ((nargs - 4) as u32)
        } else {
            stack_base + STACK_SIZE
        };
        if nargs > 4 {
            let mut spill: Vec<u32> = Vec::new();
            let mut k: usize = 4;
            while k < nargs
                invariant
                    4 <= k <= nargs,
                    nargs == args@.len(),
                    spill@ == args@.subrange(4, k as int),
                decreases nargs - k,
            {
                spill.push(args[k]);
                proof {
                    assert(spill@ =~= args@.subrange(4, k + 1));
                }
                k = k + 1;
            }
            proof {
                assert(spill@ =~= args@.skip(4));
            }
            let wrote = write_words(&mut self.core.mem, sp, &spill);
            proof {
                assert(sp + 4 * spill@.len() <= self@.core.heap.limit);
                match wrote {
                    Ok(()) => {},
                    Err(_) => {
                        assert(false);
                    },
                }
                assert(self@.core.mem
                    == spawn_mem(old(self)@.core.mem, args@, stack_base));
            }
        } else {
            proof {
                assert(self@.core.mem
                    == spawn_mem(old(self)@.core.mem, args@, stack_base));
            }
        }
        let a0 = if args.len() > 0 { args[0] } else { 0 };
        let a1 = if args.len() > 1 { args[1] } else { 0 };
        let a2 = if args.len() > 2 { args[2] } else { 0 };
        let a3 = if args.len() > 3 { args[3] } else { 0 };
        let mut regs = RegisterFile::zeroed();
        regs.r0 = a0;
        regs.r1 = a1;
        regs.r2 = a2;
        regs.r3 = a3;
        regs.sp = sp;
        regs.lr = RETURN_SENTINEL;
        regs.pc = pc;
        let tid = self.tasks.len();
        self.tasks.push(GuestTask {
            regs,
            exec_state: CoreState::Running,
            stack_base,
            status: TaskStatus::Ready,
        });
        proof {
            assert(regs == spawn_regs(pc, args@, stack_base));
            assert forall|j: int| 0 <= j < self@.tasks.len()
                implies task_wf(#[trigger] self@.tasks[j], self@.core)
            by {
                if j < old(self)@.tasks.len() {
                    assert(self@.tasks[j] == old(self)@.tasks[j]);
                }
            };
        }
        Ok(tid)
    }

    /// The lowest-index ready task, if any.
    fn find_first_ready(&self) -> (r: Option<usize>)
        ensures
            match r {
                Some(i) => first_ready_from(self@.tasks, 0) == Some(i as int),
                None => first_ready_from(self@.tasks, 0) is None,
            },
    {
        let n = self.tasks.len();
        let mut i: usize = 0;
        while i < n
            invariant
                n == self.tasks@.len(),
                i <= n,
                first_ready_from(self@.tasks, 0) == first_ready_from(self@.tasks, i as int),
            decreases n - i,
        {
            if matches!(self.tasks[i].status, TaskStatus::Ready) {
                return Some(i);
            }
            i = i + 1;
        }
        None
    }

    /// The earliest wake deadline among sleeping tasks, if any.
    fn find_min_wake(&self) -> (r: Option<u64>)
        ensures
            r == min_wake_from(self@.tasks, 0),
    {
        let n = self.tasks.len();
        let mut i: usize = n;
        let mut acc: Option<u64> = None;
        while i > 0
            invariant
                n == self.tasks@.len(),
                i <= n,
                acc == min_wake_from(self@.tasks, i as int),
            decreases i,
        {
            i = i - 1;
            match self.tasks[i].status {
                TaskStatus::Sleeping { wake_at } => {
                    acc = match acc {
                        None => Some(wake_at),
                        Some(m) => Some(if wake_at <= m { wake_at } else { m }),
                    };
                },
                _ => {},
            }
        }
        acc
    }

    /// Wake every sleeping task whose deadline has arrived.
    fn wake_all_due(&mut self, now: u64)
        ensures
            final(self)@ == (SchedView {
                tasks: wake_due(old(self)@.tasks, now),
                ..old(self)@
            }),
    {
        let n = self.tasks.len();
        let mut i: usize = 0;
        while i < n
            invariant
                n == self.tasks@.len(),
                n == old(self)@.tasks.len(),
                self@.core == old(self)@.core,
                self@.now_ms == old(self)@.now_ms,
                i <= n,
                forall|j: int| 0 <= j < i
                    ==> #[trigger] self.tasks@[j] == wake_due(old(self)@.tasks, now)[j],
                forall|j: int| i <= j < n
                    ==> #[trigger] self.tasks@[j] == old(self)@.tasks[j],
            decreases n - i,
        {
            let t = self.tasks[i];
            proof {
                assert(wake_due(old(self)@.tasks, now)[i as int]
                    == wake_one(old(self)@.tasks[i as int], now));
            }
            match t.status {
                TaskStatus::Sleeping { wake_at } => {
                    if wake_at <= now {
                        self.tasks[i] = GuestTask { status: TaskStatus::Ready, ..t };
                    }
                },
                _ => {},
            }
            i = i + 1;
        }
        proof {
            assert(self@.tasks =~= wake_due(old(self)@.tasks, now));
            assert(self@ =~~= (SchedView {
                tasks: wake_due(old(self)@.tasks, now),
                ..old(self)@
            }));
        }
    }

    /// Run one core step of the ready task `i`: restore its snapshot into
    /// the live register file, step, save the snapshot back, and settle its
    /// status; completion or fault releases its stack.
    #[verifier::rlimit(100)]
    fn run_ready_task(&mut self, i: usize)
        requires
            sched_wf(old(self)@),
            first_ready_from(old(self)@.tasks, 0) == Some(i as int),
        ensures
            final(self)@ == sched_step(old(self)@),
    {
        proof {
            lemma_first_ready_in_range(self@.tasks, 0);
        }
        let t = self.tasks[i];
        self.core.regs = t.regs;
        self.core.state = t.exec_state;
        let ghost c0 = self.core@;
        proof {
            assert(c0 =~~= (CoreView {
                regs: t.regs,
                state: t.exec_state,
                ..old(self)@.core
            }));
        }
        let ev = self.core.step();
        let t1 = GuestTask {
            regs: self.core.regs,
            exec_state: self.core.state,
            ..t
        };
        match ev {
            StepEvent::Progress => {
                self.tasks[i] = t1;
            },
            StepEvent::SleepRequest { millis } => {
                let wake_at = sat_add_exec(self.now_ms, millis);
                self.tasks[i] = GuestTask {
                    status: TaskStatus::Sleeping { wake_at },
                    ..t1
                };
            },
            StepEvent::YieldRequest => {
                self.tasks[i] = GuestTask {
                    status: TaskStatus::Sleeping { wake_at: self.now_ms },
                    ..t1
                };
            },
            StepEvent::Halted => {
                proof {
                    lemma_core_step_frame(c0);
                }
                let result = self.core.regs.r0;
                let released = self.core.free(t.stack_base);
                match released {
                    Ok(()) => {},
                    Err(_) => {},
                }
                self.tasks[i] = GuestTask {
                    status: TaskStatus::Done { result },
                    ..t1
                };
            },
            StepEvent::Faulted { error } => {
                proof {
                    lemma_core_step_frame(c0);
                }
                let released = self.core.free(t.stack_base);
                match released {
                    Ok(()) => {},
                    Err(_) => {},
                }
                self.tasks[i] = GuestTask {
                    status: TaskStatus::Faulted { error },
                    ..t1
                };
            },
        }
        proof {
            let target = sched_step(old(self)@);
            assert(self@.tasks =~= target.tasks);
            assert(self@.core.mem =~= target.core.mem);
            assert(self@.core.heap =~~= target.core.heap);
            assert(self@.core.regs == target.core.regs);
            assert(self@.core.stubs =~~= target.core.stubs);
            assert(self@.core.journal =~= target.core.journal);
            assert(self@.core.state == target.core.state);
            assert(self@.core =~~= target.core);
            assert(self@ =~~= target);
        }
    }

    /// Take one scheduler step: exactly [`sched_step`] of the abstract
    /// state.
    pub fn step_once(&mut self)
        requires
            sched_wf(old(self)@),
        ensures
            sched_wf(final(self)@),
            final(self)@ == sched_step(old(self)@),
    {
        proof {
            lemma_sched_step_wf(old(self)@);
        }
        match self.find_first_ready() {
            Some(i) => {
                self.run_ready_task(i);
            },
            None => {
                match self.find_min_wake() {
                    Some(m) => {
                        let advanced = if m > self.now_ms { m } else { self.now_ms };
                        self.now_ms = advanced;
                        self.wake_all_due(advanced);
                        proof {
                            assert(self@ =~~= sched_step(old(self)@));
                        }
                    },
                    None => {
                        proof {
                            assert(self@ =~~= sched_step(old(self)@));
                        }
                    },
                }
            },
        }
    }

    /// Whether no task can run and none is waiting on the clock.
    pub fn is_idle(&self) -> (r: bool)
        ensures
            r == sched_idle(self@),
    {
        let ready = self.find_first_ready();
        let wake = self.find_min_wake();
        ready.is_none() && wake.is_none()
    }

    /// Run up to `max_steps` scheduler steps, stopping early once idle.
    pub fn run(&mut self, max_steps: u64)
        requires
            sched_wf(old(self)@),
        ensures
            sched_wf(final(self)@),
            final(self)@ == run_spec(old(self)@, max_steps as nat),
    {
        let mut k: u64 = 0;
        while k < max_steps
            invariant
                sched_wf(self@),
                k <= max_steps,
                run_spec(old(self)@, max_steps as nat)
                    == run_spec(self@, (max_steps - k) as nat),
            decreases max_steps - k,
        {
            if self.is_idle() {
                proof {
                    lemma_run_idle(self@, (max_steps - k) as nat);
                }
                return;
            }
            self.step_once();
            k = k + 1;
        }
    }

    /// Move the clock forward to `now` (an external clock reading) and
    /// wake what is due; the clock never moves backwards.
    pub fn advance_time(&mut self, now: u64)
        requires
            sched_wf(old(self)@),
        ensures
            sched_wf(final(self)@),
            final(self)@.now_ms == if now > old(self)@.now_ms { now } else { old(self)@.now_ms },
            final(self)@.core == old(self)@.core,
            final(self)@.tasks == wake_due(old(self)@.tasks, final(self)@.now_ms),
    {
        let advanced = if now > self.now_ms { now } else { self.now_ms };
        self.now_ms = advanced;
        self.wake_all_due(advanced);
        proof {
            assert forall|j: int| 0 <= j < self@.tasks.len()
                implies task_wf(#[trigger] self@.tasks[j], self@.core)
            by {
                assert(self@.tasks[j].exec_state == old(self)@.tasks[j].exec_state);
            };
        }
    }

    /// Invoke the guest function at `pc` with up to eight arguments,
    /// driving the machine until the new task completes (or the
    /// step budget runs out: `Ok(None)`).  The result is the designated
    /// result register's value; a fault in the task surfaces here.
    pub fn run_function(&mut self, pc: u32, args: &Vec<u32>, max_steps: u64)
        -> (r: Result<Option<u32>, EmuError>)
        requires
            sched_wf(old(self)@),
        ensures
            sched_wf(final(self)@),
            final(self)@ == run_function_spec(old(self)@, pc, args@, max_steps).0,
            r == run_function_spec(old(self)@, pc, args@, max_steps).1,
    {
        let tid = match self.spawn(pc, args) {
            Ok(tid) => tid,
            Err(e) => {
                return Err(e);
            },
        };
        let ghost spawned = self@;
        self.run(max_steps);
        proof {
            lemma_run_spec_wf(spawned, max_steps as nat);
        }
        let task = self.tasks[tid];
        match task.status {
            TaskStatus::Done { result } => Ok(Some(result)),
            TaskStatus::Faulted { error } => Err(error),
            _ => Ok(None),
        }
    }
}

/// Addition on the millisecond clock, saturating at the far end of time.
pub fn sat_add_exec(a: u64, b: u64) -> (r: u64)
    ensures
        r == sat_add(a, b),
{
    if b > u64::MAX - a {
        u64::MAX
    } else {
        a + b
    }
}

/// A run preserves the invariant and never drops or adds tasks.
pub proof fn lemma_run_spec_wf(v: SchedView, n: nat)
    requires
        sched_wf(v),
    ensures
        sched_wf(run_spec(v, n)),
        run_spec(v, n).tasks.len() == v.tasks.len(),
    decreases n,
{
    if !(n == 0 || sched_idle(v)) {
        lemma_sched_step_wf(v);
        lemma_run_spec_wf(sched_step(v), (n - 1) as nat);
    }
}

} // verus!
