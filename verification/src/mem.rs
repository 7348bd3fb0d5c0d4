//! The guest address space: a flat, fixed-capacity byte-addressable region
//! standing in for device RAM.
//!
//! Every access is bounds-checked; an out-of-range access is a fatal
//! emulation error, never silently clamped, and no operation partially
//! applies on failure.  Words are stored little-endian, matching the
//! emulated target's byte order.

use vstd::prelude::*;
use crate::error::EmuError;

verus! {

/// The little-endian word formed by four bytes.
pub open spec fn word_of_bytes(b0: u8, b1: u8, b2: u8, b3: u8) -> u32 {
    (b0 + b1 * 0x100 + b2 * 0x1_0000 + b3 * 0x100_0000) as u32
}

/// The little-endian word stored at `addr`.
pub open spec fn word_at(mem: Seq<u8>, addr: int) -> u32 {
    word_of_bytes(mem[addr], mem[addr + 1], mem[addr + 2], mem[addr + 3])
}

/// The four little-endian bytes of a word.
pub open spec fn bytes_of_word(v: u32) -> Seq<u8> {
    seq![
        (v & 0xff) as u8,
        ((v >> 8) & 0xff) as u8,
        ((v >> 16) & 0xff) as u8,
        ((v >> 24) & 0xff) as u8,
    ]
}

/// A word survives the round trip through its little-endian bytes.
pub proof fn lemma_word_bytes_round_trip(v: u32)
    ensures
        word_of_bytes(
            bytes_of_word(v)[0],
            bytes_of_word(v)[1],
            bytes_of_word(v)[2],
            bytes_of_word(v)[3],
        ) == v,
{
    assert(v & 0xff < 0x100 && (v >> 8) & 0xff < 0x100 && (v >> 16) & 0xff < 0x100
        && (v >> 24) & 0xff < 0x100) by (bit_vector);
    assert((v & 0xff) + ((v >> 8) & 0xff) * 0x100 + ((v >> 16) & 0xff) * 0x1_0000
        + ((v >> 24) & 0xff) * 0x100_0000 == v) by (bit_vector);
    assert(bytes_of_word(v)[0] == (v & 0xff) as u8);
    assert(bytes_of_word(v)[1] == ((v >> 8) & 0xff) as u8);
    assert(bytes_of_word(v)[2] == ((v >> 16) & 0xff) as u8);
    assert(bytes_of_word(v)[3] == ((v >> 24) & 0xff) as u8);
}

/// `n` zero bytes.
pub open spec fn zero_bytes(n: int) -> Seq<u8> {
    Seq::new(n as nat, |i: int| 0u8)
}

/// The memory contents after `data` is written at `address`.
pub open spec fn write_bytes_spec(mem: Seq<u8>, address: u32, data: Seq<u8>) -> Seq<u8> {
    Seq::new(mem.len(), |i: int|
        if address <= i < address + data.len() { data[i - address] } else { mem[i] }
    )
}

/// The guest address space.
pub struct GuestMemory {
    data: Vec<u8>,
}

impl View for GuestMemory {
    type V = Seq<u8>;

    closed spec fn view(&self) -> Seq<u8> {
        self.data@
    }
}

impl GuestMemory {
    /// The range `[address, address + size)` lies within the space.
    pub open spec fn in_bounds(self, address: u32, size: u32) -> bool {
        address + size <= self@.len()
    }

    /// A zero-filled address space of `capacity` bytes.
    pub fn new(capacity: usize) -> (m: GuestMemory)
        ensures
            m@ == zero_bytes(capacity as int),
    {
        let m = GuestMemory { data: vec![0u8; capacity] };
        proof {
            assert(m@ =~= zero_bytes(capacity as int));
        }
        m
    }

    /// The capacity of the space in bytes.
    pub fn capacity(&self) -> (r: usize)
        ensures
            r == self@.len(),
    {
        self.data.len()
    }

    /// Reserve and zero-fill `[address, address + size)`, used once at
    /// process setup for fixed structures.  Fails without touching memory
    /// when the range leaves the space.
    pub fn map(&mut self, address: u32, size: u32) -> (r: Result<(), EmuError>)
        ensures
            match r {
                Ok(()) => old(self).in_bounds(address, size)
                    && final(self)@ == write_bytes_spec(old(self)@, address, zero_bytes(size as int)),
                Err(e) => !old(self).in_bounds(address, size)
                    && e == (EmuError::OutOfBounds { address, size })
                    && final(self)@ == old(self)@,
            },
    {
        if (address as u64) + (size as u64) > self.data.len() as u64 {
            return Err(EmuError::OutOfBounds { address, size });
        }
        let mut i: u32 = 0;
        while i < size
            invariant
                i <= size,
                address + size <= self.data.len(),
                self.data.len() == old(self)@.len(),
                forall|j: int| address <= j < address + i ==> #[trigger] self.data@[j] == 0u8,
                forall|j: int| 0 <= j < self.data@.len() && !(address <= j < address + i)
                    ==> #[trigger] self.data@[j] == old(self)@[j],
            decreases size - i,
        {
            let idx: usize = (address as usize) + (i as usize);
            self.data[idx] = 0u8;
            i = i + 1;
        }
        proof {
            assert(self@ =~= write_bytes_spec(old(self)@, address, zero_bytes(size as int)));
        }
        Ok(())
    }

    /// Read `size` raw bytes at `address`.  Fails when the range leaves the
    /// space.
    pub fn read_raw(&self, address: u32, size: u32) -> (r: Result<Vec<u8>, EmuError>)
        ensures
            match r {
                Ok(d) => self.in_bounds(address, size)
                    && d@ == self@.subrange(address as int, address + size),
                Err(e) => !self.in_bounds(address, size)
                    && e == (EmuError::OutOfBounds { address, size }),
            },
    {
        if (address as u64) + (size as u64) > self.data.len() as u64 {
            return Err(EmuError::OutOfBounds { address, size });
        }
        let mut out: Vec<u8> = Vec::new();
        let mut i: u32 = 0;
        while i < size
            invariant
                i <= size,
                address + size <= self.data.len(),
                out@ == self@.subrange(address as int, address + i),
            decreases size - i,
        {
            let idx: usize = (address as usize) + (i as usize);
            out.push(self.data[idx]);
            proof {
                assert(out@ =~= self@.subrange(address as int, address + i + 1));
            }
            i = i + 1;
        }
        Ok(out)
    }

    /// Write `data` as raw bytes at `address`.  Fails without touching
    /// memory when the range leaves the space; never partially applies.
    pub fn write_raw(&mut self, address: u32, data: &[u8]) -> (r: Result<(), EmuError>)
        requires
            data@.len() <= u32::MAX,
        ensures
            match r {
                Ok(()) => old(self).in_bounds(address, data@.len() as u32)
                    && final(self)@ == write_bytes_spec(old(self)@, address, data@),
                Err(e) => !old(self).in_bounds(address, data@.len() as u32)
                    && e == (EmuError::OutOfBounds { address, size: data@.len() as u32 })
                    && final(self)@ == old(self)@,
            },
    {
        let size: u32 = data.len() as u32;
        if (address as u64) + (size as u64) > self.data.len() as u64 {
            return Err(EmuError::OutOfBounds { address, size });
        }
        let mut i: u32 = 0;
        while i < size
            invariant
                i <= size,
                size == data@.len(),
                address + size <= self.data.len(),
                self.data.len() == old(self)@.len(),
                forall|j: int| address <= j < address + i
                    ==> #[trigger] self.data@[j] == data@[j - address],
                forall|j: int| 0 <= j < self.data@.len() && !(address <= j < address + i)
                    ==> #[trigger] self.data@[j] == old(self)@[j],
            decreases size - i,
        {
            let idx: usize = (address as usize) + (i as usize);
            self.data[idx] = data[i as usize];
            i = i + 1;
        }
        proof {
            assert(self@ =~= write_bytes_spec(old(self)@, address, data@));
        }
        Ok(())
    }

    /// Read the little-endian word at `address`.
    pub fn read_u32(&self, address: u32) -> (r: Result<u32, EmuError>)
        ensures
            match r {
                Ok(v) => self.in_bounds(address, 4) && v == word_at(self@, address as int),
                Err(e) => !self.in_bounds(address, 4)
                    && e == (EmuError::OutOfBounds { address, size: 4 }),
            },
    {
        if (address as u64) + 4 > self.data.len() as u64 {
            return Err(EmuError::OutOfBounds { address, size: 4 });
        }
        let a = address as usize;
        let b0 = self.data[a] as u32;
        let b1 = self.data[a + 1] as u32;
        let b2 = self.data[a + 2] as u32;
        let b3 = self.data[a + 3] as u32;
        Ok(b0 + b1 * 0x100 + b2 * 0x1_0000 + b3 * 0x100_0000)
    }

    /// Write `value` as a little-endian word at `address`.
    pub fn write_u32(&mut self, address: u32, value: u32) -> (r: Result<(), EmuError>)
        ensures
            match r {
                Ok(()) => old(self).in_bounds(address, 4)
                    && final(self)@ == write_bytes_spec(old(self)@, address, bytes_of_word(value)),
                Err(e) => !old(self).in_bounds(address, 4)
                    && e == (EmuError::OutOfBounds { address, size: 4 })
                    && final(self)@ == old(self)@,
            },
    {
        if (address as u64) + 4 > self.data.len() as u64 {
            return Err(EmuError::OutOfBounds { address, size: 4 });
        }
        let a = address as usize;
        self.data[a] = (value & 0xff) as u8;
        self.data[a + 1] = ((value >> 8) & 0xff) as u8;
        self.data[a + 2] = ((value >> 16) & 0xff) as u8;
        self.data[a + 3] = ((value >> 24) & 0xff) as u8;
        proof {
            assert(self@ =~= write_bytes_spec(old(self)@, address, bytes_of_word(value)));
        }
        Ok(())
    }
}

/// Writing then reading the same range hands the written bytes back: the
/// read of `data.len()` bytes at `address` out of the written memory is
/// exactly `data`.
pub proof fn lemma_raw_round_trip(mem: Seq<u8>, address: u32, data: Seq<u8>)
    requires
        address + data.len() <= mem.len(),
    ensures
        write_bytes_spec(mem, address, data).subrange(address as int, address + data.len())
            == data,
{
    assert(write_bytes_spec(mem, address, data).subrange(address as int, address + data.len())
        =~= data);
}

/// A word written at `address` is the word read back at `address`.
pub proof fn lemma_word_round_trip(mem: Seq<u8>, address: u32, value: u32)
    requires
        address + 4 <= mem.len(),
    ensures
        word_at(write_bytes_spec(mem, address, bytes_of_word(value)), address as int) == value,
{
    lemma_word_bytes_round_trip(value);
}

} // verus!
