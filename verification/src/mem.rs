//! The byte-addressable, page-grown memory region behind the store.
//!
//! [`StableMemory`] keeps the region in a private field and is opaque to the
//! verifier; its current contents are named by the uninterpreted
//! [`mem_bytes`], and every operation is a trusted wrapper around the
//! `ic_stable_structures` handle whose contract states, over that name, what
//! the crate's source shows. The contents' length is always a whole number
//! of pages and never exceeds [`MAX_MEMORY_BYTES`]: the field is reachable
//! only through [`StableMemory::new`] (empty) and [`StableMemory::write`]
//! (page-granular, bounded growth).

use vstd::prelude::*;
use std::cell::RefCell;
use ic_stable_structures::Memory;
use ic_stable_structures::reader::Reader;
use ic_stable_structures::writer::Writer;
use crate::errors::OutOfBounds;
use crate::header::WASM_PAGE_SIZE;

verus! {

/// The largest byte size the region can grow to: the page count is capped
/// at `i64::MAX / WASM_PAGE_SIZE`, so the byte size is capped at that many
/// whole pages.
pub const MAX_MEMORY_BYTES: u64 = 0x7FFF_FFFF_FFFF_0000;

/// A growable memory region. Starts empty; grows in whole zero-filled
/// pages, and never shrinks.
#[verifier::external_body]
pub struct StableMemory {
    mem: RefCell<Vec<u8>>,
}

/// The current contents of a memory region, as one byte sequence of length
/// `pages * WASM_PAGE_SIZE`.
pub uninterp spec fn mem_bytes(m: StableMemory) -> Seq<u8>;

/// The next multiple of the page size at or above `n`.
pub open spec fn page_ceil(n: int) -> int
    recommends
        n >= 0,
{
    ((n + WASM_PAGE_SIZE - 1) / (WASM_PAGE_SIZE as int)) * (WASM_PAGE_SIZE as int)
}

/// The region's contents after `data` is written at `offset`: if the write
/// runs past the current end, the region first grows, zero-filled, to the
/// next page boundary that fits it; all other bytes keep their values.
pub open spec fn mem_after_write(m: Seq<u8>, offset: int, data: Seq<u8>) -> Seq<u8>
    recommends
        offset >= 0,
{
    let new_len = if offset + data.len() <= m.len() {
        m.len() as int
    } else {
        page_ceil(offset + data.len())
    };
    Seq::new(
        new_len as nat,
        |i: int|
            if offset <= i < offset + data.len() {
                data[i - offset]
            } else if i < m.len() {
                m[i]
            } else {
                0u8
            },
    )
}

impl StableMemory {
    /// A fresh, empty region of zero pages.
    /// Relies on `std::cell::RefCell::new` over an empty vector; the
    /// `Memory` impl for `RefCell<Vec<u8>>` in `ic_stable_structures` then
    /// reports zero pages for it.
    #[verifier::external_body]
    pub fn new() -> (m: StableMemory)
        ensures
            mem_bytes(m) == Seq::<u8>::empty(),
    {
        StableMemory { mem: RefCell::new(Vec::new()) }
    }

    /// Current size in pages.
    /// Relies on `ic_stable_structures`' `Memory::size` for
    /// `RefCell<Vec<u8>>`: the buffer's length divided by the page size.
    /// The buffer's length is a whole number of pages, at most
    /// `MAX_MEMORY_BYTES` (the grow path's cap) and at most `usize::MAX`
    /// (it is a `Vec` length).
    #[verifier::external_body]
    pub fn size(&self) -> (pages: u64)
        ensures
            pages * WASM_PAGE_SIZE == mem_bytes(*self).len(),
            pages * WASM_PAGE_SIZE <= MAX_MEMORY_BYTES,
            pages * WASM_PAGE_SIZE <= usize::MAX,
    {
        self.mem.size()
    }

    /// Writes `bytes` at `offset`, growing the region as needed.
    /// Relies on `ic_stable_structures`' `Writer::write` (via `safe_write`):
    /// it grows the region to the next page boundary covering the write
    /// (zero-filled, per the `Memory::grow` impl for `RefCell<Vec<u8>>`),
    /// then copies the bytes in place. Within `MAX_MEMORY_BYTES` the grow
    /// path cannot fail.
    #[verifier::external_body]
    pub fn write(&mut self, offset: u64, bytes: &[u8])
        requires
            offset + bytes@.len() <= MAX_MEMORY_BYTES,
        ensures
            mem_bytes(*final(self)) == mem_after_write(
                mem_bytes(*old(self)),
                offset as int,
                bytes@,
            ),
    {
        let mut writer = Writer::new(&mut self.mem, offset);
        writer.write(bytes).expect("bug: failed to grow memory");
    }

    /// Reads `len` bytes at `offset`. A read that starts at or past the end
    /// of the region fails with the available range; one that starts inside
    /// but runs past the end is truncated, and the count of bytes actually
    /// read is returned beside the `len`-sized buffer.
    /// Relies on `ic_stable_structures`' `Reader::read`: it errors when the
    /// start offset is not below the region's end (unless nothing is asked
    /// for), else reads `min(len, end - offset)` bytes.
    #[verifier::external_body]
    pub fn read(&self, offset: u64, len: u64) -> (r: Result<(Vec<u8>, u64), OutOfBounds>)
        requires
            len <= usize::MAX,
            offset + len <= u64::MAX,
        ensures
            ({
                let end = mem_bytes(*self).len() as int;
                match r {
                    Ok((buf, n)) => {
                        &&& (offset + len <= end ==> n == len)
                        &&& (offset + len > end ==> offset < end && n == end - offset)
                        &&& buf@.len() == len
                        &&& buf@.subrange(0, n as int) == mem_bytes(*self).subrange(
                            offset as int,
                            offset + n,
                        )
                    },
                    Err(e) => {
                        &&& offset + len > end
                        &&& offset >= end
                        &&& e.max_address == end
                        &&& e.attempted_read_address == offset
                    },
                }
            }),
    {
        let mut buf = vec![0u8; len as usize];
        let mut reader = Reader::new(&self.mem, offset);
        match reader.read(&mut buf) {
            Ok(n) => Ok((buf, n as u64)),
            Err(e) => Err(
                OutOfBounds {
                    max_address: e.max_address,
                    attempted_read_address: e.attempted_read_address,
                },
            ),
        }
    }
}

} // verus!
