//! Fixed-layout records of the vendor ABI.
//!
//! The emulated binary expects these structures in guest memory with exact
//! field order and width: every field is one little-endian 32-bit word, and
//! several slots are opaque placeholders kept at their fixed width rather
//! than guessed at.  Records encode to and decode from word sequences, and
//! move through the guest address space byte-exactly.

use vstd::prelude::*;
use crate::error::EmuError;
use crate::mem::{GuestMemory, word_at, bytes_of_word, write_bytes_spec, lemma_word_round_trip};

verus! {

/// The `n` little-endian words stored at `addr`.
pub open spec fn words_at(mem: Seq<u8>, addr: int, n: nat) -> Seq<u32> {
    Seq::new(n, |k: int| word_at(mem, addr + 4 * k))
}

/// The memory contents after one word is stored little-endian at `address`.
pub open spec fn write_word_spec(mem: Seq<u8>, address: int, v: u32) -> Seq<u8> {
    Seq::new(mem.len(), |i: int|
        if address <= i < address + 4 { bytes_of_word(v)[i - address] } else { mem[i] }
    )
}

/// The memory contents after `ws` is stored as consecutive little-endian
/// words at `address`.
pub open spec fn write_words_spec(mem: Seq<u8>, address: int, ws: Seq<u32>) -> Seq<u8>
    decreases ws.len(),
{
    if ws.len() == 0 {
        mem
    } else {
        write_words_spec(write_word_spec(mem, address, ws[0]), address + 4, ws.drop_first())
    }
}

/// Write `words` as consecutive little-endian words at `address`.  Fails
/// without touching memory when the range leaves the space.
pub fn write_words(mem: &mut GuestMemory, address: u32, words: &Vec<u32>)
    -> (r: Result<(), EmuError>)
    requires
        4 * words@.len() <= u32::MAX,
        old(mem)@.len() <= u32::MAX,
    ensures
        final(mem)@.len() == old(mem)@.len(),
        match r {
            Ok(()) => address + 4 * words@.len() <= old(mem)@.len()
                && final(mem)@ == write_words_spec(old(mem)@, address as int, words@)
                && words_at(final(mem)@, address as int, words@.len()) == words@
                && forall|j: int| 0 <= j < old(mem)@.len()
                    && !(address <= j < address + 4 * words@.len())
                    ==> #[trigger] final(mem)@[j] == old(mem)@[j],
            Err(e) => !(address + 4 * words@.len() <= old(mem)@.len())
                && e == (EmuError::OutOfBounds { address, size: (4 * words@.len()) as u32 })
                && final(mem)@ == old(mem)@,
        },
{
    let n = words.len();
    let total: u32 = 4 * (n as u32);
    if (address as u64) + (total as u64) > mem.capacity() as u64 {
        return Err(EmuError::OutOfBounds { address, size: total });
    }
    proof {
        assert(words@.skip(0) =~= words@);
    }
    let mut i: usize = 0;
    while i < n
        invariant
            n == words@.len(),
            4 * n <= u32::MAX,
            i <= n,
            address + 4 * n <= mem@.len(),
            mem@.len() <= u32::MAX,
            mem@.len() == old(mem)@.len(),
            write_words_spec(old(mem)@, address as int, words@)
                == write_words_spec(mem@, address + 4 * i, words@.skip(i as int)),
            forall|k: int| 0 <= k < i
                ==> #[trigger] word_at(mem@, address + 4 * k) == words@[k],
            forall|j: int| 0 <= j < mem@.len() && !(address <= j < address + 4 * i)
                ==> #[trigger] mem@[j] == old(mem)@[j],
        decreases n - i,
    {
        let ghost pre = mem@;
        let a: u32 = address + 4 * (i as u32);
        let res = mem.write_u32(a, words[i]);
        proof {
            assert(a + 4 <= mem@.len());
            match res {
                Ok(()) => {},
                Err(_) => {},
            }
            lemma_word_round_trip(pre, a, words@[i as int]);
            assert(words@.skip(i as int)[0] == words@[i as int]);
            assert(mem@ =~= write_word_spec(pre, a as int, words@[i as int]));
            assert(words@.skip(i as int).drop_first() =~= words@.skip(i + 1));
            assert(write_words_spec(pre, address + 4 * i, words@.skip(i as int))
                == write_words_spec(mem@, address + 4 * (i + 1), words@.skip(i + 1)));
            assert forall|k: int| 0 <= k < i + 1
                implies #[trigger] word_at(mem@, address + 4 * k) == words@[k]
            by {
                if k < i {
                    assert(word_at(pre, address + 4 * k) == words@[k]);
                    assert(mem@[address + 4 * k] == pre[address + 4 * k]);
                    assert(mem@[address + 4 * k + 1] == pre[address + 4 * k + 1]);
                    assert(mem@[address + 4 * k + 2] == pre[address + 4 * k + 2]);
                    assert(mem@[address + 4 * k + 3] == pre[address + 4 * k + 3]);
                } else {
                    assert(word_at(mem@, a as int) == words@[i as int]);
                }
            };
        }
        i = i + 1;
    }
    proof {
        assert(words@.skip(n as int) =~= Seq::<u32>::empty());
        assert(words_at(mem@, address as int, words@.len()) =~= words@);
    }
    Ok(())
}

/// Read `count` consecutive little-endian words at `address`.  Fails when
/// the range leaves the space.
pub fn read_words(mem: &GuestMemory, address: u32, count: u32) -> (r: Result<Vec<u32>, EmuError>)
    requires
        4 * count <= u32::MAX,
        mem@.len() <= u32::MAX,
    ensures
        match r {
            Ok(ws) => address + 4 * count <= mem@.len()
                && ws@ == words_at(mem@, address as int, count as nat),
            Err(e) => !(address + 4 * count <= mem@.len())
                && e == (EmuError::OutOfBounds { address, size: (4 * count) as u32 }),
        },
{
    let total: u32 = 4 * count;
    if (address as u64) + (total as u64) > mem.capacity() as u64 {
        return Err(EmuError::OutOfBounds { address, size: total });
    }
    let mut out: Vec<u32> = Vec::new();
    let mut i: u32 = 0;
    while i < count
        invariant
            i <= count,
            4 * count <= u32::MAX,
            address + 4 * count <= mem@.len(),
            mem@.len() <= u32::MAX,
            out@.len() == i,
            forall|k: int| 0 <= k < i
                ==> #[trigger] out@[k] == word_at(mem@, address + 4 * k),
        decreases count - i,
    {
        let a: u32 = address + 4 * i;
        let w = match mem.read_u32(a) {
            Ok(w) => w,
            Err(_) => {
                proof {
                    assert(a + 4 <= mem@.len());
                }
                0
            },
        };
        out.push(w);
        i = i + 1;
    }
    proof {
        assert(out@ =~= words_at(mem@, address as int, count as nat));
    }
    Ok(out)
}

/// The first fixed parameter record handed to the vendor module's
/// initializer: a single opaque word.
#[derive(Clone, Copy, Debug, PartialEq, Eq, Structural)]
pub struct InitParam0 {
    pub unk: u32,
}

impl InitParam0 {
    /// The record's exact word layout.
    pub open spec fn words_spec(self) -> Seq<u32> {
        seq![self.unk]
    }

    /// Encode into the record's words.
    pub fn to_words(&self) -> (r: Vec<u32>)
        ensures
            r@ == self.words_spec(),
    {
        let mut r: Vec<u32> = Vec::new();
        r.push(self.unk);
        proof {
            assert(r@ =~= self.words_spec());
        }
        r
    }

    /// Write the record at `address`, byte-exactly.
    pub fn write_to(&self, mem: &mut GuestMemory, address: u32) -> (r: Result<(), EmuError>)
        requires
            old(mem)@.len() <= u32::MAX,
        ensures
            final(mem)@.len() == old(mem)@.len(),
            match r {
                Ok(()) => address + 4 <= old(mem)@.len()
                    && words_at(final(mem)@, address as int, 1) == self.words_spec()
                    && forall|j: int| 0 <= j < old(mem)@.len()
                        && !(address <= j < address + 4)
                        ==> #[trigger] final(mem)@[j] == old(mem)@[j],
                Err(e) => !(address + 4 <= old(mem)@.len())
                    && e == (EmuError::OutOfBounds { address, size: 4 })
                    && final(mem)@ == old(mem)@,
            },
    {
        let words = self.to_words();
        write_words(mem, address, &words)
    }

    /// Read the record stored at `address`.
    pub fn read_from(mem: &GuestMemory, address: u32) -> (r: Result<InitParam0, EmuError>)
        requires
            mem@.len() <= u32::MAX,
        ensures
            match r {
                Ok(p) => address + 4 <= mem@.len()
                    && p.words_spec() == words_at(mem@, address as int, 1),
                Err(e) => !(address + 4 <= mem@.len())
                    && e == (EmuError::OutOfBounds { address, size: 4 }),
            },
    {
        let ws = read_words(mem, address, 1)?;
        let p = InitParam0 { unk: ws[0] };
        proof {
            assert(p.words_spec() =~= words_at(mem@, address as int, 1));
        }
        Ok(p)
    }
}

/// The second parameter record: a pointer to an opaque block.
#[derive(Clone, Copy, Debug, PartialEq, Eq, Structural)]
pub struct InitParam1 {
    pub ptr_unk_struct: u32,
}

impl InitParam1 {
    /// The record's exact word layout.
    pub open spec fn words_spec(self) -> Seq<u32> {
        seq![self.ptr_unk_struct]
    }

    /// Encode into the record's words.
    pub fn to_words(&self) -> (r: Vec<u32>)
        ensures
            r@ == self.words_spec(),
    {
        let mut r: Vec<u32> = Vec::new();
        r.push(self.ptr_unk_struct);
        proof {
            assert(r@ =~= self.words_spec());
        }
        r
    }
}

/// The opaque block the second parameter record points at: thirty-two
/// placeholder words.
pub struct InitParam1Unk {
    pub unk: Vec<u32>,
}

impl InitParam1Unk {
    /// The block holds exactly its thirty-two fixed slots.
    pub open spec fn wf(self) -> bool {
        self.unk@.len() == 32
    }

    /// The record's exact word layout.
    pub open spec fn words_spec(self) -> Seq<u32> {
        self.unk@
    }

    /// A zero-filled block.
    pub fn zeroed() -> (r: InitParam1Unk)
        ensures
            r.wf(),
            r.words_spec() == Seq::new(32, |k: int| 0u32),
    {
        let r = InitParam1Unk { unk: vec![0u32; 32] };
        proof {
            assert(r.words_spec() =~= Seq::new(32, |k: int| 0u32));
        }
        r
    }
}

/// The third parameter record: three opaque words, then a table of
/// sixty-four vtable pointers.
pub struct InitParam2 {
    pub unk1: u32,
    pub unk2: u32,
    pub unk3: u32,
    pub ptr_vtables: Vec<u32>,
}

impl InitParam2 {
    /// The vtable table holds exactly its sixty-four fixed slots.
    pub open spec fn wf(self) -> bool {
        self.ptr_vtables@.len() == 64
    }

    /// The record's exact word layout.
    pub open spec fn words_spec(self) -> Seq<u32> {
        seq![self.unk1, self.unk2, self.unk3] + self.ptr_vtables@
    }

    /// A zero-filled record.
    pub fn zeroed() -> (r: InitParam2)
        ensures
            r.wf(),
            r.words_spec() == Seq::new(67, |k: int| 0u32),
    {
        let r = InitParam2 { unk1: 0, unk2: 0, unk3: 0, ptr_vtables: vec![0u32; 64] };
        proof {
            assert(r.words_spec() =~= Seq::new(67, |k: int| 0u32));
        }
        r
    }

    /// Encode into the record's words.
    pub fn to_words(&self) -> (r: Vec<u32>)
        requires
            self.wf(),
        ensures
            r@ == self.words_spec(),
    {
        let mut r: Vec<u32> = Vec::new();
        r.push(self.unk1);
        r.push(self.unk2);
        r.push(self.unk3);
        let mut i: usize = 0;
        while i < self.ptr_vtables.len()
            invariant
                r@.len() == 3 + i,
                i <= self.ptr_vtables@.len(),
                r@ == seq![self.unk1, self.unk2, self.unk3]
                    + self.ptr_vtables@.subrange(0, i as int),
            decreases self.ptr_vtables@.len() - i,
        {
            r.push(self.ptr_vtables[i]);
            proof {
                assert(r@ =~= seq![self.unk1, self.unk2, self.unk3]
                    + self.ptr_vtables@.subrange(0, i + 1));
            }
            i = i + 1;
        }
        proof {
            assert(self.ptr_vtables@.subrange(0, self.ptr_vtables@.len() as int)
                =~= self.ptr_vtables@);
        }
        r
    }
}

/// The fourth parameter record: the primitive-type tags for the guest
/// runtime's array allocation pools, after four opaque words.
#[derive(Clone, Copy, Debug, PartialEq, Eq, Structural)]
pub struct InitParam3 {
    pub unk1: u32,
    pub unk2: u32,
    pub unk3: u32,
    pub unk4: u32,
    pub tag_boolean: u32,
    pub tag_char: u32,
    pub tag_float: u32,
    pub tag_double: u32,
    pub tag_byte: u32,
    pub tag_short: u32,
    pub tag_int: u32,
    pub tag_long: u32,
}

impl InitParam3 {
    /// The record's exact word layout.
    pub open spec fn words_spec(self) -> Seq<u32> {
        seq![
            self.unk1, self.unk2, self.unk3, self.unk4,
            self.tag_boolean, self.tag_char, self.tag_float, self.tag_double,
            self.tag_byte, self.tag_short, self.tag_int, self.tag_long,
        ]
    }

    /// Encode into the record's words.
    pub fn to_words(&self) -> (r: Vec<u32>)
        ensures
            r@ == self.words_spec(),
    {
        let mut r: Vec<u32> = Vec::new();
        r.push(self.unk1);
        r.push(self.unk2);
        r.push(self.unk3);
        r.push(self.unk4);
        r.push(self.tag_boolean);
        r.push(self.tag_char);
        r.push(self.tag_float);
        r.push(self.tag_double);
        r.push(self.tag_byte);
        r.push(self.tag_short);
        r.push(self.tag_int);
        r.push(self.tag_long);
        proof {
            assert(r@ =~= self.words_spec());
        }
        r
    }
}

/// The fifth parameter record: the native entry points the vendor module
/// calls back into, with opaque slots between them.
#[derive(Clone, Copy, Debug, PartialEq, Eq, Structural)]
pub struct InitParam4 {
    pub fn_get_interface: u32,
    pub fn_java_throw: u32,
    pub unk1: u32,
    pub unk2: u32,
    pub unk3: u32,
    pub fn_java_new: u32,
    pub fn_java_array_new: u32,
    pub unk6: u32,
    pub fn_java_class_load: u32,
    pub unk7: u32,
    pub unk8: u32,
    pub fn_alloc: u32,
}

impl InitParam4 {
    /// The record's exact word layout.
    pub open spec fn words_spec(self) -> Seq<u32> {
        seq![
            self.fn_get_interface, self.fn_java_throw, self.unk1, self.unk2,
            self.unk3, self.fn_java_new, self.fn_java_array_new, self.unk6,
            self.fn_java_class_load, self.unk7, self.unk8, self.fn_alloc,
        ]
    }

    /// Encode into the record's words.
    pub fn to_words(&self) -> (r: Vec<u32>)
        ensures
            r@ == self.words_spec(),
    {
        let mut r: Vec<u32> = Vec::new();
        r.push(self.fn_get_interface);
        r.push(self.fn_java_throw);
        r.push(self.unk1);
        r.push(self.unk2);
        r.push(self.unk3);
        r.push(self.fn_java_new);
        r.push(self.fn_java_array_new);
        r.push(self.unk6);
        r.push(self.fn_java_class_load);
        r.push(self.unk7);
        r.push(self.unk8);
        r.push(self.fn_alloc);
        proof {
            assert(r@ =~= self.words_spec());
        }
        r
    }
}

/// The vendor executable's root record, read back from guest memory after
/// the module's entry returns its address.
#[derive(Clone, Copy, Debug, PartialEq, Eq, Structural)]
pub struct WipiExe {
    pub ptr_exe_interface: u32,
    pub ptr_name: u32,
    pub unk1: u32,
    pub unk2: u32,
    pub fn_unk1: u32,
    pub fn_init: u32,
    pub unk3: u32,
    pub unk4: u32,
    pub fn_unk3: u32,
    pub unk5: u32,
}

impl WipiExe {
    /// The record's exact word layout.
    pub open spec fn words_spec(self) -> Seq<u32> {
        seq![
            self.ptr_exe_interface, self.ptr_name, self.unk1, self.unk2,
            self.fn_unk1, self.fn_init, self.unk3, self.unk4,
            self.fn_unk3, self.unk5,
        ]
    }

    /// What reading the record at `address` yields: its fields from the
    /// words there, or an out-of-bounds error, the memory untouched.
    pub open spec fn read_spec(mem: Seq<u8>, address: u32) -> Result<WipiExe, EmuError> {
        if address + 40 <= mem.len() {
            Ok(WipiExe {
                ptr_exe_interface: word_at(mem, address as int),
                ptr_name: word_at(mem, address + 4),
                unk1: word_at(mem, address + 8),
                unk2: word_at(mem, address + 12),
                fn_unk1: word_at(mem, address + 16),
                fn_init: word_at(mem, address + 20),
                unk3: word_at(mem, address + 24),
                unk4: word_at(mem, address + 28),
                fn_unk3: word_at(mem, address + 32),
                unk5: word_at(mem, address + 36),
            })
        } else {
            Err(EmuError::OutOfBounds { address, size: 40 })
        }
    }

    /// Read the record stored at `address`.
    pub fn read_from(mem: &GuestMemory, address: u32) -> (r: Result<WipiExe, EmuError>)
        requires
            mem@.len() <= u32::MAX,
        ensures
            r == WipiExe::read_spec(mem@, address),
            match r {
                Ok(p) => address + 40 <= mem@.len()
                    && p.words_spec() == words_at(mem@, address as int, 10),
                Err(e) => !(address + 40 <= mem@.len())
                    && e == (EmuError::OutOfBounds { address, size: 40 }),
            },
    {
        let ws = read_words(mem, address, 10)?;
        let p = WipiExe {
            ptr_exe_interface: ws[0],
            ptr_name: ws[1],
            unk1: ws[2],
            unk2: ws[3],
            fn_unk1: ws[4],
            fn_init: ws[5],
            unk3: ws[6],
            unk4: ws[7],
            fn_unk3: ws[8],
            unk5: ws[9],
        };
        proof {
            assert(p.words_spec() =~= words_at(mem@, address as int, 10));
        }
        Ok(p)
    }
}

/// The executable's interface record, pointed at by the root record.
#[derive(Clone, Copy, Debug, PartialEq, Eq, Structural)]
pub struct ExeInterface {
    pub ptr_functions: u32,
    pub ptr_name: u32,
    pub unk1: u32,
    pub unk2: u32,
    pub unk3: u32,
    pub unk4: u32,
    pub unk5: u32,
    pub unk6: u32,
}

impl ExeInterface {
    /// The record's exact word layout.
    pub open spec fn words_spec(self) -> Seq<u32> {
        seq![
            self.ptr_functions, self.ptr_name, self.unk1, self.unk2,
            self.unk3, self.unk4, self.unk5, self.unk6,
        ]
    }

    /// What reading the record at `address` yields: its fields from the
    /// words there, or an out-of-bounds error, the memory untouched.
    pub open spec fn read_spec(mem: Seq<u8>, address: u32) -> Result<ExeInterface, EmuError> {
        if address + 32 <= mem.len() {
            Ok(ExeInterface {
                ptr_functions: word_at(mem, address as int),
                ptr_name: word_at(mem, address + 4),
                unk1: word_at(mem, address + 8),
                unk2: word_at(mem, address + 12),
                unk3: word_at(mem, address + 16),
                unk4: word_at(mem, address + 20),
                unk5: word_at(mem, address + 24),
                unk6: word_at(mem, address + 28),
            })
        } else {
            Err(EmuError::OutOfBounds { address, size: 32 })
        }
    }

    /// Read the record stored at `address`.
    pub fn read_from(mem: &GuestMemory, address: u32) -> (r: Result<ExeInterface, EmuError>)
        requires
            mem@.len() <= u32::MAX,
        ensures
            r == ExeInterface::read_spec(mem@, address),
            match r {
                Ok(p) => address + 32 <= mem@.len()
                    && p.words_spec() == words_at(mem@, address as int, 8),
                Err(e) => !(address + 32 <= mem@.len())
                    && e == (EmuError::OutOfBounds { address, size: 32 }),
            },
    {
        let ws = read_words(mem, address, 8)?;
        let p = ExeInterface {
            ptr_functions: ws[0],
            ptr_name: ws[1],
            unk1: ws[2],
            unk2: ws[3],
            unk3: ws[4],
            unk4: ws[5],
            unk5: ws[6],
            unk6: ws[7],
        };
        proof {
            assert(p.words_spec() =~= words_at(mem@, address as int, 8));
        }
        Ok(p)
    }
}

/// The interface's function table: the module's own entry points.
#[derive(Clone, Copy, Debug, PartialEq, Eq, Structural)]
pub struct ExeInterfaceFunctions {
    pub unk1: u32,
    pub unk2: u32,
    pub fn_init: u32,
    pub fn_get_default_dll: u32,
    pub fn_get_class: u32,
    pub fn_unk2: u32,
    pub fn_unk3: u32,
}

impl ExeInterfaceFunctions {
    /// The record's exact word layout.
    pub open spec fn words_spec(self) -> Seq<u32> {
        seq![
            self.unk1, self.unk2, self.fn_init, self.fn_get_default_dll,
            self.fn_get_class, self.fn_unk2, self.fn_unk3,
        ]
    }

    /// What reading the record at `address` yields: its fields from the
    /// words there, or an out-of-bounds error, the memory untouched.
    pub open spec fn read_spec(mem: Seq<u8>, address: u32)
        -> Result<ExeInterfaceFunctions, EmuError> {
        if address + 28 <= mem.len() {
            Ok(ExeInterfaceFunctions {
                unk1: word_at(mem, address as int),
                unk2: word_at(mem, address + 4),
                fn_init: word_at(mem, address + 8),
                fn_get_default_dll: word_at(mem, address + 12),
                fn_get_class: word_at(mem, address + 16),
                fn_unk2: word_at(mem, address + 20),
                fn_unk3: word_at(mem, address + 24),
            })
        } else {
            Err(EmuError::OutOfBounds { address, size: 28 })
        }
    }

    /// Read the record stored at `address`.
    pub fn read_from(mem: &GuestMemory, address: u32)
        -> (r: Result<ExeInterfaceFunctions, EmuError>)
        requires
            mem@.len() <= u32::MAX,
        ensures
            r == ExeInterfaceFunctions::read_spec(mem@, address),
            match r {
                Ok(p) => address + 28 <= mem@.len()
                    && p.words_spec() == words_at(mem@, address as int, 7),
                Err(e) => !(address + 28 <= mem@.len())
                    && e == (EmuError::OutOfBounds { address, size: 28 }),
            },
    {
        let ws = read_words(mem, address, 7)?;
        let p = ExeInterfaceFunctions {
            unk1: ws[0],
            unk2: ws[1],
            fn_init: ws[2],
            fn_get_default_dll: ws[3],
            fn_get_class: ws[4],
            fn_unk2: ws[5],
            fn_unk3: ws[6],
        };
        proof {
            assert(p.words_spec() =~= words_at(mem@, address as int, 7));
        }
        Ok(p)
    }
}

} // verus!
