//! The heap allocator: address-ordered first-fit management of a region of
//! the guest address space.
//!
//! The allocator owns a list of records that partition its region
//! contiguously; allocations never overlap, and freeing an address that is
//! not a currently used allocation base is an error, never a silent no-op.
//! The strategy is deterministic so that runs are reproducible.

use vstd::prelude::*;
use crate::error::EmuError;

verus! {

/// One allocation record: a sub-region of the heap, used or free.
#[derive(Clone, Copy, Debug, PartialEq, Eq, Structural)]
pub struct HeapRecord {
    pub base: u32,
    pub size: u32,
    pub used: bool,
}

/// The abstract state of an allocator: its region and its records.
#[verifier::ext_equal]
pub struct AllocView {
    pub base: u32,
    pub limit: u32,
    pub records: Seq<HeapRecord>,
}

/// The records partition `[base, limit)` contiguously in address order,
/// every record non-empty.
pub open spec fn heap_wf(v: AllocView) -> bool {
    &&& v.base <= v.limit
    &&& (v.records.len() == 0 ==> v.base == v.limit)
    &&& (v.records.len() > 0 ==> v.records[0].base == v.base)
    &&& (v.records.len() > 0 ==> v.records.last().base + v.records.last().size == v.limit)
    &&& forall|i: int| 0 < i < v.records.len()
        ==> (#[trigger] v.records[i].base)
            == v.records[i - 1].base + v.records[i - 1].size
    &&& forall|i: int| 0 <= i < v.records.len() ==> (#[trigger] v.records[i].size) > 0
}

/// `r` can satisfy a request of `size` bytes.
pub open spec fn record_fits(r: HeapRecord, size: u32) -> bool {
    !r.used && r.size >= size
}

/// The first record that can satisfy a request of `size` bytes.
pub open spec fn find_fit(records: Seq<HeapRecord>, size: u32) -> Option<int>
    decreases records.len(),
{
    if records.len() == 0 {
        None
    } else if record_fits(records[0], size) {
        Some(0)
    } else {
        match find_fit(records.drop_first(), size) {
            None => None,
            Some(i) => Some(i + 1),
        }
    }
}

/// The first used record whose base is `address`.
pub open spec fn find_used(records: Seq<HeapRecord>, address: u32) -> Option<int>
    decreases records.len(),
{
    if records.len() == 0 {
        None
    } else if records[0].used && records[0].base == address {
        Some(0)
    } else {
        match find_used(records.drop_first(), address) {
            None => None,
            Some(i) => Some(i + 1),
        }
    }
}

/// The records after an allocation of `size` bytes, with the chosen base
/// address, or nothing when no fit exists.  First-fit: the chosen record is
/// the lowest-addressed free record large enough; a larger record is split.
pub open spec fn alloc_spec(records: Seq<HeapRecord>, size: u32) -> Option<(Seq<HeapRecord>, u32)> {
    if size == 0 {
        None
    } else {
        match find_fit(records, size) {
            None => None,
            Some(i) => {
                let r = records[i];
                if r.size == size {
                    Some((records.update(i, HeapRecord { base: r.base, size, used: true }), r.base))
                } else {
                    Some((
                        records
                            .update(i, HeapRecord { base: r.base, size, used: true })
                            .insert(i + 1, HeapRecord {
                                base: (r.base + size) as u32,
                                size: (r.size - size) as u32,
                                used: false,
                            }),
                        r.base,
                    ))
                }
            },
        }
    }
}

/// The records after freeing the used record based at `address`, or nothing
/// when there is none.
pub open spec fn free_spec(records: Seq<HeapRecord>, address: u32) -> Option<Seq<HeapRecord>> {
    match find_used(records, address) {
        None => None,
        Some(i) => Some(records.update(i, HeapRecord {
            base: records[i].base,
            size: records[i].size,
            used: false,
        })),
    }
}

/// Freeing marks a record free when it exists, and otherwise changes
/// nothing.
pub open spec fn free_try(records: Seq<HeapRecord>, address: u32) -> Seq<HeapRecord> {
    match free_spec(records, address) {
        None => records,
        Some(r) => r,
    }
}

/// In a well-formed heap, every earlier record ends at or before a later
/// record's base.
pub proof fn lemma_records_ordered(v: AllocView, i: int, j: int)
    requires
        heap_wf(v),
        0 <= i < j < v.records.len(),
    ensures
        v.records[i].base + v.records[i].size <= v.records[j].base,
    decreases j - i,
{
    if j == i + 1 {
    } else {
        lemma_records_ordered(v, i, j - 1);
    }
}

/// No two live allocations overlap: distinct used records occupy disjoint
/// address ranges.
pub proof fn lemma_live_allocations_disjoint(v: AllocView, i: int, j: int)
    requires
        heap_wf(v),
        0 <= i < v.records.len(),
        0 <= j < v.records.len(),
        i != j,
        v.records[i].used,
        v.records[j].used,
    ensures
        v.records[i].base + v.records[i].size <= v.records[j].base
            || v.records[j].base + v.records[j].size <= v.records[i].base,
{
    if i < j {
        lemma_records_ordered(v, i, j);
    } else {
        lemma_records_ordered(v, j, i);
    }
}

/// Every record lies within the allocator's region.
pub proof fn lemma_record_in_range(v: AllocView, i: int)
    requires
        heap_wf(v),
        0 <= i < v.records.len(),
    ensures
        v.base <= v.records[i].base,
        v.records[i].base + v.records[i].size <= v.limit,
    decreases v.records.len(),
{
    if i > 0 {
        lemma_records_ordered(v, 0, i);
    }
    if i < v.records.len() - 1 {
        lemma_records_ordered(v, i, v.records.len() - 1);
    }
}

proof fn lemma_find_fit_at(records: Seq<HeapRecord>, size: u32, i: int)
    requires
        0 <= i <= records.len(),
        forall|j: int| 0 <= j < i ==> !record_fits(#[trigger] records[j], size),
    ensures
        i == records.len() ==> find_fit(records, size) is None,
        i < records.len() && record_fits(records[i], size) ==> find_fit(records, size) == Some(i),
    decreases i,
{
    if i == 0 {
        if records.len() > 0 && record_fits(records[0], size) {
        }
    } else {
        assert(!record_fits(records[0], size));
        let rest = records.drop_first();
        assert(forall|j: int| 0 <= j < i - 1 ==> !record_fits(#[trigger] rest[j], size));
        lemma_find_fit_at(rest, size, i - 1);
        if i < records.len() && record_fits(records[i], size) {
            assert(record_fits(rest[i - 1], size));
        }
    }
}

proof fn lemma_find_used_at(records: Seq<HeapRecord>, address: u32, i: int)
    requires
        0 <= i <= records.len(),
        forall|j: int| 0 <= j < i
            ==> !((#[trigger] records[j]).used && records[j].base == address),
    ensures
        i == records.len() ==> find_used(records, address) is None,
        i < records.len() && records[i].used && records[i].base == address
            ==> find_used(records, address) == Some(i),
    decreases i,
{
    if i == 0 {
    } else {
        let rest = records.drop_first();
        assert(forall|j: int| 0 <= j < i - 1
            ==> !((#[trigger] rest[j]).used && rest[j].base == address));
        lemma_find_used_at(rest, address, i - 1);
        if i < records.len() && records[i].used && records[i].base == address {
            assert(rest[i - 1].used && rest[i - 1].base == address);
        }
    }
}

proof fn lemma_alloc_exact(pre: AllocView, i: int, size: u32)
    requires
        heap_wf(pre),
        0 <= i < pre.records.len(),
        record_fits(pre.records[i], size),
        size > 0,
        pre.records[i].size == size,
        forall|j: int| 0 <= j < i ==> !record_fits(#[trigger] pre.records[j], size),
    ensures
        ({
            let cur = pre.records.update(i, HeapRecord {
                base: pre.records[i].base,
                size,
                used: true,
            });
            &&& heap_wf(AllocView { base: pre.base, limit: pre.limit, records: cur })
            &&& alloc_spec(pre.records, size) == Some((cur, pre.records[i].base))
            &&& find_used(cur, pre.records[i].base) == Some(i)
        }),
{
    let base = pre.records[i].base;
    let cur = pre.records.update(i, HeapRecord { base, size, used: true });
    lemma_find_fit_at(pre.records, size, i);
    assert forall|j: int| 0 <= j < i
        implies !((#[trigger] cur[j]).used && cur[j].base == base)
    by {
        lemma_records_ordered(pre, j, i);
    };
    lemma_find_used_at(cur, base, i);
    assert(heap_wf(AllocView { base: pre.base, limit: pre.limit, records: cur }));
}

proof fn lemma_alloc_split(pre: AllocView, i: int, size: u32)
    requires
        heap_wf(pre),
        0 <= i < pre.records.len(),
        record_fits(pre.records[i], size),
        size > 0,
        pre.records[i].size != size,
        forall|j: int| 0 <= j < i ==> !record_fits(#[trigger] pre.records[j], size),
    ensures
        ({
            let base = pre.records[i].base;
            let mid = pre.records.update(i, HeapRecord { base, size, used: true });
            let fresh = HeapRecord {
                base: (base + size) as u32,
                size: (pre.records[i].size - size) as u32,
                used: false,
            };
            let cur = mid.insert(i + 1, fresh);
            &&& heap_wf(AllocView { base: pre.base, limit: pre.limit, records: cur })
            &&& alloc_spec(pre.records, size) == Some((cur, base))
            &&& find_used(cur, base) == Some(i)
            &&& cur[i] == (HeapRecord { base, size, used: true })
        }),
{
    let base = pre.records[i].base;
    let mid = pre.records.update(i, HeapRecord { base, size, used: true });
    let fresh = HeapRecord {
        base: (base + size) as u32,
        size: (pre.records[i].size - size) as u32,
        used: false,
    };
    let cur = mid.insert(i + 1, fresh);
    lemma_find_fit_at(pre.records, size, i);
    lemma_record_in_range(pre, i);
    mid.insert_ensures(i + 1, fresh);
    assert forall|k: int| 0 <= k < cur.len() implies (#[trigger] cur[k]).size > 0 by {
        if k <= i {
            assert(mid.insert(i + 1, fresh)[k] == mid[k]);
        } else if k == i + 1 {
            assert(mid.insert(i + 1, fresh)[k] == fresh);
        } else {
            assert(mid.insert(i + 1, fresh)[k] == mid[k - 1]);
        }
    };
    assert forall|k: int| 0 < k < cur.len()
        implies (#[trigger] cur[k]).base == cur[k - 1].base + cur[k - 1].size
    by {
        if k <= i {
            assert(mid.insert(i + 1, fresh)[k] == mid[k]);
            assert(mid.insert(i + 1, fresh)[k - 1] == mid[k - 1]);
        } else if k == i + 1 {
            assert(mid.insert(i + 1, fresh)[k] == fresh);
            assert(mid.insert(i + 1, fresh)[k - 1] == mid[k - 1]);
        } else if k == i + 2 {
            assert(mid.insert(i + 1, fresh)[k] == mid[k - 1]);
            assert(mid.insert(i + 1, fresh)[k - 1] == fresh);
            assert(mid[k - 1] == pre.records[k - 1]);
        } else {
            assert(mid.insert(i + 1, fresh)[k] == mid[k - 1]);
            assert(mid.insert(i + 1, fresh)[k - 1] == mid[k - 2]);
        }
    };
    assert(mid.insert(i + 1, fresh)[0] == mid[0]);
    if i + 1 == cur.len() - 1 {
        assert(cur.last() == fresh);
    } else {
        assert(mid.insert(i + 1, fresh)[cur.len() - 1] == mid[cur.len() - 2]);
    }
    assert(heap_wf(AllocView { base: pre.base, limit: pre.limit, records: cur }));
    assert forall|j: int| 0 <= j < i
        implies !((#[trigger] cur[j]).used && cur[j].base == base)
    by {
        assert(mid.insert(i + 1, fresh)[j] == mid[j]);
        lemma_records_ordered(pre, j, i);
    };
    assert(mid.insert(i + 1, fresh)[i] == mid[i]);
    lemma_find_used_at(cur, base, i);
}

/// What a successful fit search says: the found record fits, and no
/// earlier one does.
pub proof fn lemma_find_fit_inv(records: Seq<HeapRecord>, size: u32)
    ensures
        match find_fit(records, size) {
            Some(i) => 0 <= i < records.len() && record_fits(records[i], size)
                && forall|j: int| 0 <= j < i ==> !record_fits(#[trigger] records[j], size),
            None => forall|j: int| 0 <= j < records.len()
                ==> !record_fits(#[trigger] records[j], size),
        },
    decreases records.len(),
{
    if records.len() == 0 {
    } else if record_fits(records[0], size) {
    } else {
        let rest = records.drop_first();
        lemma_find_fit_inv(rest, size);
        match find_fit(rest, size) {
            Some(i) => {
                assert(records[i + 1] == rest[i]);
                assert forall|j: int| 0 <= j < i + 1
                    implies !record_fits(#[trigger] records[j], size)
                by {
                    if j > 0 {
                        assert(records[j] == rest[j - 1]);
                    }
                };
            },
            None => {
                assert forall|j: int| 0 <= j < records.len()
                    implies !record_fits(#[trigger] records[j], size)
                by {
                    if j > 0 {
                        assert(records[j] == rest[j - 1]);
                    }
                };
            },
        }
    }
}

/// What a successful search for a used base says: the found record is used
/// at that base, and no earlier one is.
pub proof fn lemma_find_used_inv(records: Seq<HeapRecord>, address: u32)
    ensures
        match find_used(records, address) {
            Some(i) => 0 <= i < records.len() && records[i].used
                && records[i].base == address
                && forall|j: int| 0 <= j < i
                    ==> !((#[trigger] records[j]).used && records[j].base == address),
            None => forall|j: int| 0 <= j < records.len()
                ==> !((#[trigger] records[j]).used && records[j].base == address),
        },
    decreases records.len(),
{
    if records.len() == 0 {
    } else if records[0].used && records[0].base == address {
    } else {
        let rest = records.drop_first();
        lemma_find_used_inv(rest, address);
        match find_used(rest, address) {
            Some(i) => {
                assert(records[i + 1] == rest[i]);
                assert forall|j: int| 0 <= j < i + 1
                    implies !((#[trigger] records[j]).used && records[j].base == address)
                by {
                    if j > 0 {
                        assert(records[j] == rest[j - 1]);
                    }
                };
            },
            None => {
                assert forall|j: int| 0 <= j < records.len()
                    implies !((#[trigger] records[j]).used && records[j].base == address)
                by {
                    if j > 0 {
                        assert(records[j] == rest[j - 1]);
                    }
                };
            },
        }
    }
}

/// An allocation keeps the heap well-formed, and its result is afterwards
/// a live allocation base.
pub proof fn lemma_alloc_spec_wf(v: AllocView, size: u32)
    requires
        heap_wf(v),
    ensures
        match alloc_spec(v.records, size) {
            Some((records, address)) => {
                &&& heap_wf(AllocView { base: v.base, limit: v.limit, records })
                &&& match find_used(records, address) {
                    Some(i) => records[i] == (HeapRecord { base: address, size, used: true }),
                    None => false,
                }
            },
            None => true,
        },
{
    if size > 0 {
        lemma_find_fit_inv(v.records, size);
        match find_fit(v.records, size) {
            Some(i) => {
                if v.records[i].size == size {
                    lemma_alloc_exact(v, i, size);
                } else {
                    lemma_record_in_range(v, i);
                    lemma_alloc_split(v, i, size);
                }
            },
            None => {},
        }
    }
}

/// A free keeps the heap well-formed.
pub proof fn lemma_free_spec_wf(v: AllocView, address: u32)
    requires
        heap_wf(v),
    ensures
        heap_wf(AllocView { base: v.base, limit: v.limit, records: free_try(v.records, address) }),
{
    lemma_find_used_inv(v.records, address);
}

/// The heap allocator.
pub struct Allocator {
    base: u32,
    limit: u32,
    records: Vec<HeapRecord>,
}

impl View for Allocator {
    type V = AllocView;

    closed spec fn view(&self) -> AllocView {
        AllocView { base: self.base, limit: self.limit, records: self.records@ }
    }
}

impl Allocator {
    /// An allocator over `[base, base + size)`, wholly free.
    pub fn new(base: u32, size: u32) -> (a: Allocator)
        requires
            base + size <= u32::MAX,
        ensures
            heap_wf(a@),
            a@.base == base,
            a@.limit == base + size,
            a@.records == if size == 0 {
                Seq::<HeapRecord>::empty()
            } else {
                seq![HeapRecord { base, size, used: false }]
            },
    {
        let mut records: Vec<HeapRecord> = Vec::new();
        if size > 0 {
            records.push(HeapRecord { base, size, used: false });
        }
        proof {
            if size == 0 {
                assert(records@ =~= Seq::<HeapRecord>::empty());
            } else {
                assert(records@ =~= seq![HeapRecord { base, size, used: false }]);
            }
        }
        Allocator { base, limit: base + size, records }
    }

    /// Find or create a used record of exactly `size` bytes and hand back
    /// its base address.  Fails with an allocation failure when no free
    /// record fits (or the request is empty), leaving the heap unchanged.
    #[verifier::rlimit(60)]
    pub fn allocate(&mut self, size: u32) -> (r: Result<u32, EmuError>)
        requires
            heap_wf(old(self)@),
        ensures
            heap_wf(final(self)@),
            final(self)@.base == old(self)@.base,
            final(self)@.limit == old(self)@.limit,
            match r {
                Ok(address) => {
                    &&& alloc_spec(old(self)@.records, size)
                        == Some((final(self)@.records, address))
                    &&& match find_used(final(self)@.records, address) {
                        Some(i) => final(self)@.records[i]
                            == (HeapRecord { base: address, size, used: true }),
                        None => false,
                    }
                },
                Err(e) => {
                    &&& alloc_spec(old(self)@.records, size) is None
                    &&& e == (EmuError::AllocationFailure { address: 0 })
                    &&& final(self)@ == old(self)@
                },
            },
    {
        if size == 0 {
            return Err(EmuError::AllocationFailure { address: 0 });
        }
        let n = self.records.len();
        let mut i: usize = 0;
        while i < n
            invariant
                size > 0,
                self@ == old(self)@,
                heap_wf(self@),
                n == self.records@.len(),
                i <= n,
                forall|j: int| 0 <= j < i
                    ==> !record_fits(#[trigger] self.records@[j], size),
            decreases n - i,
        {
            let rec = self.records[i];
            if !rec.used && rec.size >= size {
                let ghost pre = self@;
                let base = rec.base;
                if rec.size == size {
                    proof {
                        lemma_alloc_exact(pre, i as int, size);
                    }
                    self.records[i] = HeapRecord { base, size, used: true };
                    return Ok(base);
                } else {
                    proof {
                        lemma_record_in_range(pre, i as int);
                        lemma_alloc_split(pre, i as int, size);
                    }
                    self.records[i] = HeapRecord { base, size, used: true };
                    self.records.insert(i + 1, HeapRecord {
                        base: base + size,
                        size: rec.size - size,
                        used: false,
                    });
                    return Ok(base);
                }
            }
            i = i + 1;
        }
        proof {
            lemma_find_fit_at(self.records@, size, n as int);
        }
        Err(EmuError::AllocationFailure { address: 0 })
    }

    /// Free the used record based at `address`.  Fails with an allocation
    /// failure when `address` is not a currently used allocation base,
    /// leaving the heap unchanged.
    pub fn free(&mut self, address: u32) -> (r: Result<(), EmuError>)
        requires
            heap_wf(old(self)@),
        ensures
            heap_wf(final(self)@),
            final(self)@.base == old(self)@.base,
            final(self)@.limit == old(self)@.limit,
            final(self)@.records == free_try(old(self)@.records, address),
            match r {
                Ok(()) => free_spec(old(self)@.records, address)
                    == Some(final(self)@.records),
                Err(e) => {
                    &&& free_spec(old(self)@.records, address) is None
                    &&& e == (EmuError::AllocationFailure { address })
                    &&& final(self)@ == old(self)@
                },
            },
    {
        let n = self.records.len();
        let mut i: usize = 0;
        while i < n
            invariant
                self@ == old(self)@,
                heap_wf(self@),
                n == self.records@.len(),
                i <= n,
                forall|j: int| 0 <= j < i
                    ==> !((#[trigger] self.records@[j]).used
                        && self.records@[j].base == address),
            decreases n - i,
        {
            let rec = self.records[i];
            if rec.used && rec.base == address {
                proof {
                    lemma_find_used_at(self.records@, address, i as int);
                }
                self.records[i] = HeapRecord { base: rec.base, size: rec.size, used: false };
                proof {
                    assert(heap_wf(self@));
                }
                return Ok(());
            }
            i = i + 1;
        }
        proof {
            lemma_find_used_at(self.records@, address, n as int);
        }
        Err(EmuError::AllocationFailure { address })
    }
}

} // verus!
