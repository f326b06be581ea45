//! Linear memory: bytes in pages of 64 KiB, which grows by whole pages.

use vstd::prelude::*;
use vstd::slice::{slice_subrange, slice_to_vec};
use crate::binary::module::{MAX_PAGE_COUNT, MemType, PAGE_SIZE};
use crate::interpreter::trap::Trap;

verus! {

/// What `grow` returns where the memory cannot grow: 32 one bits, which is
/// -1 as a signed 32-bit number.
pub const GROW_FAILED: usize = 0xFFFF_FFFF;

/// A linear memory and the limits it was made with.
#[derive(Clone, Debug)]
pub struct Memory {
    _type: MemType,
    data: Vec<u8>,
}

/// `n` zero bytes.
pub open spec fn zeros(n: nat) -> Seq<u8> {
    Seq::new(n, |i: int| 0u8)
}

/// The most pages that a memory with the given limits may have: the
/// declared maximum, or `MAX_PAGE_COUNT` where none is declared.
pub open spec fn page_limit(limits: MemType) -> int {
    match limits.max {
        Some(max) => max as int,
        None => MAX_PAGE_COUNT as int,
    }
}

/// Whether `length` bytes from `offset` on lie within `total` bytes.
pub open spec fn in_bounds(total: nat, offset: nat, length: nat) -> bool {
    offset + length <= total
}

/// `mem` with `data` written over the bytes from `offset` on.
pub open spec fn written(mem: Seq<u8>, offset: nat, data: Seq<u8>) -> Seq<u8> {
    mem.subrange(0, offset as int) + data + mem.subrange((offset + data.len()) as int, mem.len() as int)
}

/// What is written can be read back: the bytes at the place of a write are
/// the bytes that were written, the bytes elsewhere are what they were, and
/// the memory is as long as before.
pub proof fn lemma_write_then_read(mem: Seq<u8>, offset: nat, data: Seq<u8>)
    requires
        in_bounds(mem.len(), offset, data.len()),
    ensures
        written(mem, offset, data).len() == mem.len(),
        written(mem, offset, data).subrange(offset as int, (offset + data.len()) as int) == data,
        forall|i: int|
            0 <= i < mem.len() && !(offset <= i < offset + data.len()) ==> written(
                mem,
                offset,
                data,
            )[i] == mem[i],
{
    assert(written(mem, offset, data).subrange(offset as int, (offset + data.len()) as int) =~= data);
}

impl Memory {
    /// The bytes of the memory.
    pub closed spec fn bytes(&self) -> Seq<u8> {
        self.data@
    }

    /// The limits that the memory was made with.
    pub closed spec fn limits(&self) -> MemType {
        self._type
    }

    /// The number of whole pages that the bytes fill.
    pub open spec fn pages(&self) -> nat {
        self.bytes().len() / (PAGE_SIZE as nat)
    }

    /// Whether the bytes fill whole pages. A memory is made so and stays so.
    pub open spec fn whole_pages(&self) -> bool {
        self.bytes().len() == self.pages() * PAGE_SIZE
    }

    /// A memory of `mt.min` pages of zero bytes.
    pub fn new(mt: MemType) -> (m: Memory)
        requires
            mt.min * PAGE_SIZE <= usize::MAX,
        ensures
            m.limits() == mt,
            m.bytes() == zeros((mt.min * PAGE_SIZE) as nat),
            m.pages() == mt.min,
            m.whole_pages(),
    {
        let mut v: Vec<u8> = Vec::new();
        v.resize(mt.min as usize * PAGE_SIZE, 0u8);
        assert(v@ =~= zeros((mt.min * PAGE_SIZE) as nat));
        Memory { _type: mt, data: v }
    }

    /// The number of pages.
    pub fn size(&self) -> (n: usize)
        ensures
            n == self.pages(),
    {
        self.data.len() / PAGE_SIZE
    }

    /// Grows the memory by `n` pages of zero bytes and returns the number of
    /// pages before. Where `n` is 0 nothing changes. Where the memory
    /// would have more pages than its limits allow, or more bytes than the
    /// machine can address, it stays as it is and `GROW_FAILED` is
    /// returned.
    pub fn grow(&mut self, n: usize) -> (r: usize)
        ensures
            final(self).limits() == old(self).limits(),
            old(self).whole_pages() ==> final(self).whole_pages(),
            if n == 0 {
                r == old(self).pages() && final(self).bytes() == old(self).bytes()
            } else if old(self).pages() + n > page_limit(old(self).limits()) || (old(self).pages()
                + n) * PAGE_SIZE > usize::MAX {
                r == GROW_FAILED && final(self).bytes() == old(self).bytes()
            } else {
                r == old(self).pages() && final(self).bytes() == old(self).bytes() + zeros(
                    ((old(self).pages() + n) * PAGE_SIZE - old(self).bytes().len()) as nat,
                )
            },
    {
        let old_size = self.size();
        if n == 0 {
            return old_size;
        }
        let max_page_count: usize = match self._type.max {
            Some(v) => v as usize,
            None => MAX_PAGE_COUNT,
        };
        let new_size = match old_size.checked_add(n) {
            Some(s) => s,
            None => {
                return GROW_FAILED;
            },
        };
        if new_size > max_page_count {
            return GROW_FAILED;
        }
        let new_len = match new_size.checked_mul(PAGE_SIZE) {
            Some(l) => l,
            None => {
                return GROW_FAILED;
            },
        };
        let ghost before = self.data@;
        self.data.resize(new_len, 0u8);
        assert(self.data@ =~= before + zeros((new_len - before.len()) as nat));
        old_size
    }

    /// Tells whether `length` bytes from `offset` on lie within the memory.
    pub fn check_offset(&self, offset: usize, length: usize) -> (r: bool)
        ensures
            r == in_bounds(self.bytes().len(), offset as nat, length as nat),
    {
        length <= self.data.len() && offset <= self.data.len() - length
    }

    /// Reads `length` bytes from `offset` on. Traps where they do not all
    /// lie within the memory.
    pub fn read(&self, offset: usize, length: usize) -> (r: Result<Vec<u8>, Trap>)
        ensures
            match r {
                Ok(v) => in_bounds(self.bytes().len(), offset as nat, length as nat) && v@
                    == self.bytes().subrange(offset as int, offset + length),
                Err(t) => !in_bounds(self.bytes().len(), offset as nat, length as nat) && t
                    == Trap::OutOfBoundsMemoryAccess,
            },
    {
        if !self.check_offset(offset, length) {
            return Err(Trap::OutOfBoundsMemoryAccess);
        }
        assert(offset + length <= self.data.len());
        Ok(slice_to_vec(slice_subrange(self.data.as_slice(), offset, offset + length)))
    }

    /// Writes `data` over the bytes from `offset` on. Traps, and leaves
    /// the memory as it is, where they do not all lie within the memory.
    pub fn write(&mut self, offset: usize, data: &[u8]) -> (r: Result<(), Trap>)
        ensures
            final(self).limits() == old(self).limits(),
            final(self).bytes().len() == old(self).bytes().len(),
            match r {
                Ok(_) => in_bounds(old(self).bytes().len(), offset as nat, data@.len())
                    && final(self).bytes() == written(old(self).bytes(), offset as nat, data@),
                Err(t) => !in_bounds(old(self).bytes().len(), offset as nat, data@.len()) && t
                    == Trap::OutOfBoundsMemoryAccess && final(self).bytes() == old(self).bytes(),
            },
    {
        if !self.check_offset(offset, data.len()) {
            return Err(Trap::OutOfBoundsMemoryAccess);
        }
        assert(offset + data.len() <= self.data.len());
        let ghost before = self.data@;
        let mut i: usize = 0;
        while i < data.len()
            invariant
                i <= data.len(),
                offset + data.len() <= before.len() <= usize::MAX,
                self._type == old(self)._type,
                self.data@.len() == before.len(),
                self.data@ == written(before, offset as nat, data@.subrange(0, i as int)),
            decreases data.len() - i,
        {
            self.data[offset + i] = data[i];
            i = i + 1;
            assert(self.data@ =~= written(before, offset as nat, data@.subrange(0, i as int)));
        }
        assert(data@.subrange(0, i as int) =~= data@);
        Ok(())
    }
}

} // verus!
