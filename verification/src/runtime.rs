//! Decision logic of the platform runtime handed to the bundled Java-like
//! virtual machine: clock arithmetic and in-memory files.
//!
//! The asynchronous plumbing (awaiting the scheduler, real file systems)
//! stays with the host; these functions compute exactly what those
//! operations decide.

use vstd::prelude::*;
use crate::error::EmuError;
use crate::sched::{sat_add, sat_add_exec};

verus! {

/// The platform runtime bound to the virtual machine: the clock reading
/// and the identity of the current task.
#[derive(Clone, Copy, Debug, PartialEq, Eq, Structural)]
pub struct JvmRuntime {
    pub now_ms: u64,
    pub task_id: u64,
}

impl JvmRuntime {
    /// A runtime at clock `now_ms`, serving task `task_id`.
    pub fn new(now_ms: u64, task_id: u64) -> (r: JvmRuntime)
        ensures
            r == (JvmRuntime { now_ms, task_id }),
    {
        JvmRuntime { now_ms, task_id }
    }

    /// The platform clock, in milliseconds.
    pub fn now(&self) -> (r: u64)
        ensures
            r == self.now_ms,
    {
        self.now_ms
    }

    /// The identity of the task on whose behalf the runtime acts.
    pub fn current_task_id(&self) -> (r: u64)
        ensures
            r == self.task_id,
    {
        self.task_id
    }

    /// The deadline at which a sleep of `duration_ms` ends: now plus the
    /// duration, saturating at the far end of time.
    pub fn sleep_deadline(&self, duration_ms: u64) -> (r: u64)
        ensures
            r == sat_add(self.now_ms, duration_ms),
    {
        sat_add_exec(self.now_ms, duration_ms)
    }

    /// How many bytes a write to the platform's output sink reports as
    /// written: all of them.
    pub fn stdout_written(&self, buf: &[u8]) -> (r: usize)
        ensures
            r == buf@.len(),
    {
        buf.len()
    }
}

/// The abstract state of an in-memory file: its bytes and the read cursor.
#[verifier::ext_equal]
pub struct MemoryFileView {
    pub data: Seq<u8>,
    pub cursor: int,
}

/// A read-only in-memory file over bytes a collaborator loaded: the byte
/// store behind the platform's file interface.
pub struct MemoryFile {
    data: Vec<u8>,
    cursor: usize,
}

impl View for MemoryFile {
    type V = MemoryFileView;

    closed spec fn view(&self) -> MemoryFileView {
        MemoryFileView { data: self.data@, cursor: self.cursor as int }
    }
}

impl MemoryFile {
    /// Open a file over `data`, cursor at the start.
    pub fn open(data: Vec<u8>) -> (f: MemoryFile)
        ensures
            f@ == (MemoryFileView { data: data@, cursor: 0 }),
    {
        MemoryFile { data, cursor: 0 }
    }

    /// What the platform's open decides, given the filesystem's answer for
    /// a path: a file over a snapshot of the bytes, cursor at the start,
    /// exactly when the path is present; a missing path is a host failure.
    pub fn open_found(found: Option<Vec<u8>>) -> (r: Result<MemoryFile, EmuError>)
        ensures
            match (r, found) {
                (Ok(f), Some(data)) => f@ == (MemoryFileView { data: data@, cursor: 0 }),
                (Err(e), None) => e == EmuError::HostIoFailure,
                _ => false,
            },
    {
        match found {
            Some(data) => Ok(MemoryFile::open(data)),
            None => Err(EmuError::HostIoFailure),
        }
    }

    /// What the platform's stat decides, given the filesystem's answer for
    /// a path: the byte size exactly when the path is present; a missing
    /// path is a host failure.
    pub fn stat_found(found: &Option<Vec<u8>>) -> (r: Result<usize, EmuError>)
        ensures
            match (r, found) {
                (Ok(size), Some(data)) => size == data@.len(),
                (Err(e), None) => e == EmuError::HostIoFailure,
                _ => false,
            },
    {
        match found {
            Some(data) => Ok(data.len()),
            None => Err(EmuError::HostIoFailure),
        }
    }

    /// The file's size in bytes, as the platform's stat reports it.
    pub fn size(&self) -> (r: usize)
        ensures
            r == self@.data.len(),
    {
        self.data.len()
    }

    /// Move the read cursor.
    pub fn seek(&mut self, position: usize)
        ensures
            final(self)@ == (MemoryFileView { cursor: position as int, ..old(self)@ }),
    {
        self.cursor = position;
    }

    /// Read up to `max` bytes at the cursor: exactly the bytes between the
    /// cursor and the nearer of `cursor + max` and the end, advancing the
    /// cursor past them; at or beyond the end, nothing.
    pub fn read(&mut self, max: usize) -> (r: Vec<u8>)
        ensures
            ({
                let cur = old(self)@.cursor;
                let len = old(self)@.data.len();
                let taken = if cur >= len {
                    0
                } else if cur + max <= len {
                    max as int
                } else {
                    len - cur
                };
                &&& (cur >= len ==> r@ == Seq::<u8>::empty())
                &&& (cur < len ==> r@ == old(self)@.data.subrange(cur, cur + taken))
                &&& final(self)@ == (MemoryFileView { cursor: cur + taken, ..old(self)@ })
            }),
    {
        if self.cursor >= self.data.len() {
            let r: Vec<u8> = Vec::new();
            proof {
                assert(r@ =~= Seq::<u8>::empty());
            }
            return r;
        }
        let start = self.cursor;
        let remaining = self.data.len() - start;
        let taken = if max <= remaining { max } else { remaining };
        let mut r: Vec<u8> = Vec::new();
        let mut k: usize = 0;
        while k < taken
            invariant
                k <= taken,
                self@ == old(self)@,
                start == old(self)@.cursor,
                start + taken <= self@.data.len(),
                start + taken <= usize::MAX,
                r@ == self@.data.subrange(start as int, start + k),
            decreases taken - k,
        {
            r.push(self.data[start + k]);
            proof {
                assert(r@ =~= self@.data.subrange(start as int, start + k + 1));
            }
            k = k + 1;
        }
        self.cursor = start + taken;
        r
    }
}

} // verus!
