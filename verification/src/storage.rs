//! The storage manager: owns the [`Header`] and the [`StableMemory`] handle,
//! and exposes construction, attachment, header flushing, record-count
//! accounting, salt access and persistent-state save/restore.
//!
//! The persistent state is framed as the 4-byte magic tag `"IIPS"`, an
//! 8-byte little-endian length, then that many bytes of encoded content,
//! written at the first address not yet allocated to a record. It bridges a
//! single restart: the next record registration overwrites it.

use vstd::prelude::*;
use vstd::bytes::*;
use vstd::pervasive::unreached;
use vstd::slice::slice_to_vec;
use crate::errors::{LayoutError, OutOfBounds, PersistentStateError, UserNumber};
use crate::header::{
    Header, Salt, HEADER_SIZE, WASM_PAGE_SIZE, empty_salt, header_bytes, header_matches_bytes,
    header_valid, header_with_salt, init_header, load_err,
};
use crate::mem::{MAX_MEMORY_BYTES, StableMemory, mem_after_write, mem_bytes, page_ceil};

verus! {

/// The magic tag `"IIPS"` that opens a persistent-state frame.
pub open spec fn ps_magic() -> Seq<u8> {
    seq![0x49u8, 0x49u8, 0x50u8, 0x53u8]
}

/// The full persistent-state frame for `data`: magic tag, 8-byte
/// little-endian length, content.
pub open spec fn ps_frame(data: Seq<u8>) -> Seq<u8>
    recommends
        data.len() <= u64::MAX,
{
    ps_magic() + spec_u64_to_le_bytes(data.len() as u64) + data
}

/// What reading the persistent-state region of `m` at address `a` yields.
pub enum PsReadSpec {
    /// No frame at `a`: the address lies past the allocated memory, the
    /// magic tag is cut short, or it does not match.
    NotFound,
    /// The memory ends mid-frame; the range that was available.
    Truncated { max_address: int, attempted_read_address: int },
    /// A complete frame; its content bytes.
    Found(Seq<u8>),
}

/// Reading the persistent-state region, step by step: check that `a` lies
/// within the memory, read and compare the 4-byte magic (any shortfall or
/// mismatch means "not found"), read the 8-byte length, read that many
/// content bytes; any read cut short by the end of memory reports the
/// available range (the reader errors outright when nothing at all is left
/// at its offset, and truncates otherwise).
pub open spec fn ps_read(m: Seq<u8>, a: int) -> PsReadSpec
    recommends
        0 <= a,
{
    let end = m.len() as int;
    if a > end {
        PsReadSpec::NotFound
    } else if a + 4 > end || m.subrange(a, a + 4) != ps_magic() {
        PsReadSpec::NotFound
    } else if a + 4 == end {
        PsReadSpec::Truncated { max_address: end, attempted_read_address: end }
    } else if a + 12 > end {
        PsReadSpec::Truncated { max_address: end, attempted_read_address: end + 1 }
    } else {
        let size = spec_u64_from_le_bytes(m.subrange(a + 4, a + 12)) as int;
        if a + 12 == end && size > 0 {
            PsReadSpec::Truncated { max_address: end, attempted_read_address: end }
        } else if a + 12 + size > end {
            PsReadSpec::Truncated { max_address: end, attempted_read_address: end + 1 }
        } else {
            PsReadSpec::Found(m.subrange(a + 12, a + 12 + size))
        }
    }
}

/// Manages the records' data in the backing memory region.
pub struct Storage {
    pub header: Header,
    pub memory: StableMemory,
}

impl Storage {
    /// Byte address of the slot of record number `record_number`:
    /// base address plus `record_number` times the slot size.
    pub open spec fn spec_record_address(self, record_number: u32) -> int {
        self.header.first_entry_offset + record_number * self.header.entry_size
    }

    /// Address of the first byte not yet allocated to a record.
    pub open spec fn spec_unused_memory_start(self) -> int {
        self.spec_record_address(self.header.num_users)
    }

    /// Creates a new empty storage that manages the data of records in the
    /// range `[ids.0, ids.1)`, paired with the given memory. Nothing is
    /// written yet; call `flush` to persist the header.
    pub fn new(ids: (UserNumber, UserNumber), memory: StableMemory) -> (r: Result<
        Storage,
        LayoutError,
    >)
        ensures
            ids.1 < ids.0 ==> r == Err::<Storage, LayoutError>(
                LayoutError::InvalidRange { id_range_lo: ids.0, id_range_hi: ids.1 },
            ),
            ids.0 <= ids.1 && ids.1 - ids.0 > crate::header::DEFAULT_RANGE_SIZE ==> r == Err::<
                Storage,
                LayoutError,
            >(LayoutError::RangeTooLarge { id_range_lo: ids.0, id_range_hi: ids.1 }),
            ids.0 <= ids.1 && ids.1 - ids.0 <= crate::header::DEFAULT_RANGE_SIZE ==> r is Ok
                && r->Ok_0.header == init_header(ids.0, ids.1) && mem_bytes(r->Ok_0.memory)
                == mem_bytes(memory),
    {
        match Header::init(ids.0, ids.1) {
            Ok(header) => Ok(Storage { header, memory }),
            Err(e) => Err(e),
        }
    }

    /// Initializes storage by reading the given memory. Returns `Ok(None)`
    /// if the memory is empty (no page allocated yet); fails fatally if the
    /// memory is not empty but its header window cannot be loaded.
    pub fn from_memory(memory: StableMemory) -> (r: Result<Option<Storage>, LayoutError>)
        ensures
            ({
                let m = mem_bytes(memory);
                &&& m.len() < WASM_PAGE_SIZE ==> r == Ok::<Option<Storage>, LayoutError>(None)
                &&& m.len() >= WASM_PAGE_SIZE ==> ({
                    let b = m.subrange(0, HEADER_SIZE as int);
                    match r {
                        Ok(Some(s)) => header_valid(b) && header_matches_bytes(s.header, b)
                            && mem_bytes(s.memory) == m,
                        Ok(None) => false,
                        Err(e) => !header_valid(b) && e == load_err(b),
                    }
                })
            }),
    {
        if memory.size() < 1 {
            return Ok(None);
        }
        match memory.read(0, HEADER_SIZE as u64) {
            Ok((buf, n)) => {
                proof {
                    assert(buf@.subrange(0, HEADER_SIZE as int) =~= buf@);
                }
                match Header::load(buf.as_slice()) {
                    Ok(header) => Ok(Some(Storage { header, memory })),
                    Err(e) => Err(e),
                }
            },
            Err(_) => unreached(),
        }
    }

    /// Serializes the current header and writes it to address 0, growing
    /// the memory by a page if it was empty.
    pub fn flush(&mut self)
        ensures
            final(self).header == old(self).header,
            mem_bytes(final(self).memory) == mem_after_write(
                mem_bytes(old(self).memory),
                0,
                header_bytes(old(self).header),
            ),
    {
        let bytes = self.header.serialize();
        self.memory.write(0, bytes.as_slice());
    }

    /// The stored salt, or `None` while it is still the all-zero sentinel.
    pub fn salt(&self) -> (r: Option<&Salt>)
        ensures
            match r {
                Some(s) => s@ == self.header.salt@ && self.header.salt@ != empty_salt(),
                None => self.header.salt@ == empty_salt(),
            },
    {
        let mut i: usize = 0;
        let mut all_zero = true;
        while i < 32
            invariant
                i <= 32,
                all_zero <==> (forall|j: int| 0 <= j < i ==> self.header.salt@[j] == 0u8),
            decreases 32 - i,
        {
            if self.header.salt[i] != 0 {
                all_zero = false;
            }
            i = i + 1;
        }
        if all_zero {
            proof {
                assert(self.header.salt@ =~= empty_salt());
            }
            None
        } else {
            proof {
                assert(self.header.salt@ != empty_salt());
            }
            Some(&self.header.salt)
        }
    }

    /// Stores a new salt in the header and flushes it to memory at once.
    pub fn update_salt(&mut self, salt: Salt)
        ensures
            final(self).header == header_with_salt(old(self).header, salt),
            mem_bytes(final(self).memory) == mem_after_write(
                mem_bytes(old(self).memory),
                0,
                header_bytes(final(self).header),
            ),
    {
        self.header.salt = salt;
        self.flush();
    }

    /// Number of records currently registered.
    pub fn user_count(&self) -> (r: usize)
        ensures
            r == self.header.num_users,
    {
        self.header.num_users as usize
    }

    /// Byte address of the slot of `record_number`. Pure address
    /// arithmetic; no check against the record count or range.
    pub fn record_address(&self, record_number: u32) -> (r: u64)
        requires
            self.spec_record_address(record_number) <= u64::MAX,
        ensures
            r == self.spec_record_address(record_number),
    {
        self.header.first_entry_offset + (record_number as u64) * (self.header.entry_size as u64)
    }

    /// A slot holds a 2-byte length prefix, then that many bytes of encoded
    /// record content; this is the content's length limit.
    pub fn candid_entry_size_limit(&self) -> (r: usize)
        requires
            self.header.entry_size >= 2,
        ensures
            r == self.header.entry_size - 2,
    {
        (self.header.entry_size - 2) as usize
    }

    /// Address of the first byte not yet allocated to a record. This
    /// address exists even at the maximum record count, thanks to the
    /// memory reserve past the last possible slot.
    pub fn unused_memory_start(&self) -> (r: u64)
        requires
            self.spec_unused_memory_start() <= u64::MAX,
        ensures
            r == self.spec_unused_memory_start(),
    {
        self.record_address(self.header.num_users)
    }

    /// Writes the already-encoded persistent state to memory at the first
    /// unused address: the magic tag, the 8-byte little-endian length, then
    /// the bytes. Growth is assumed to succeed under the region's size cap.
    pub fn write_persistent_state(&mut self, state: &[u8])
        requires
            old(self).spec_unused_memory_start() + 12 + state@.len() <= MAX_MEMORY_BYTES,
        ensures
            final(self).header == old(self).header,
            mem_bytes(final(self).memory) == mem_after_write(
                mem_bytes(old(self).memory),
                old(self).spec_unused_memory_start(),
                ps_frame(state@),
            ),
    {
        let address = self.unused_memory_start();
        let mut buf: Vec<u8> = Vec::new();
        buf.push(0x49u8);
        buf.push(0x49u8);
        buf.push(0x50u8);
        buf.push(0x53u8);
        let mut lb = u64_to_le_bytes(state.len() as u64);
        buf.append(&mut lb);
        let mut sv = slice_to_vec(state);
        buf.append(&mut sv);
        proof {
            assert(buf@ =~= ps_frame(state@));
        }
        self.memory.write(address, buf.as_slice());
    }

    /// Reads the persistent state back from the first unused address.
    /// Returns the frame's content bytes; `NotFound` when no frame is there
    /// (the expected case on most restarts), a `ReadError` carrying the
    /// available range when the memory ends mid-frame. Decoding the content
    /// is the caller's business, so `CandidError` is never produced here.
    pub fn read_persistent_state(&self) -> (r: Result<Vec<u8>, PersistentStateError>)
        requires
            self.spec_unused_memory_start() <= u64::MAX,
        ensures
            ({
                let ps = ps_read(mem_bytes(self.memory), self.spec_unused_memory_start());
                match r {
                    Ok(data) => ps == PsReadSpec::Found(data@),
                    Err(e) => match e {
                        PersistentStateError::NotFound => ps is NotFound,
                        PersistentStateError::ReadError(ob) => ps == (PsReadSpec::Truncated {
                            max_address: ob.max_address as int,
                            attempted_read_address: ob.attempted_read_address as int,
                        }),
                        PersistentStateError::CandidError(_) => false,
                    },
                }
            }),
    {
        let ghost m = mem_bytes(self.memory);
        let ghost a = self.spec_unused_memory_start();
        let address = self.unused_memory_start();
        let pages = self.memory.size();
        let size_bytes = pages * WASM_PAGE_SIZE;
        if address > size_bytes {
            return Err(PersistentStateError::NotFound);
        }
        let (magic_buf, n) = match self.memory.read(address, 4) {
            Ok(p) => p,
            Err(_) => {
                return Err(PersistentStateError::NotFound);
            },
        };
        if n != 4 {
            return Err(PersistentStateError::NotFound);
        }
        proof {
            assert(magic_buf@.subrange(0, 4) =~= magic_buf@);
        }
        if !(magic_buf[0] == 0x49u8 && magic_buf[1] == 0x49u8 && magic_buf[2] == 0x50u8
            && magic_buf[3] == 0x53u8) {
            proof {
                assert(m.subrange(a, a + 4) != ps_magic());
            }
            return Err(PersistentStateError::NotFound);
        }
        proof {
            assert(m.subrange(a, a + 4) =~= ps_magic());
        }
        let (size_buf, n2) = match self.memory.read(address + 4, 8) {
            Ok(p) => p,
            Err(e) => {
                return Err(PersistentStateError::ReadError(e));
            },
        };
        if n2 != 8 {
            let max_address = address + 4 + n2;
            return Err(
                PersistentStateError::ReadError(
                    OutOfBounds { max_address, attempted_read_address: max_address + 1 },
                ),
            );
        }
        proof {
            assert(size_buf@.subrange(0, 8) =~= size_buf@);
        }
        let size = u64_from_le_bytes(size_buf.as_slice());
        if address + 12 == size_bytes && size > 0 {
            return Err(
                PersistentStateError::ReadError(
                    OutOfBounds { max_address: size_bytes, attempted_read_address: size_bytes },
                ),
            );
        }
        if size > usize::MAX as u64 || size > u64::MAX - (address + 12) {
            return Err(
                PersistentStateError::ReadError(
                    OutOfBounds { max_address: size_bytes, attempted_read_address: size_bytes + 1 },
                ),
            );
        }
        let (data_buf, n3) = match self.memory.read(address + 12, size) {
            Ok(p) => p,
            Err(e) => {
                return Err(PersistentStateError::ReadError(e));
            },
        };
        if n3 != size {
            let max_address = address + 12 + n3;
            return Err(
                PersistentStateError::ReadError(
                    OutOfBounds { max_address, attempted_read_address: max_address + 1 },
                ),
            );
        }
        proof {
            assert(data_buf@.subrange(0, size as int) =~= data_buf@);
        }
        Ok(data_buf)
    }

    /// The stored layout version.
    pub fn version(&self) -> (r: u8)
        ensures
            r == self.header.version,
    {
        self.header.version
    }
}

/// Law: a persistent-state frame written at address `a` is read back whole
/// from the same address: the content bytes come out unchanged, whatever
/// the memory held before.
pub proof fn lemma_save_then_load(m: Seq<u8>, a: int, data: Seq<u8>)
    requires
        0 <= a,
        data.len() <= u64::MAX,
    ensures
        ps_read(mem_after_write(m, a, ps_frame(data)), a) == PsReadSpec::Found(data),
{
    lemma_auto_spec_u64_to_from_le_bytes();
    let frame = ps_frame(data);
    let m2 = mem_after_write(m, a, frame);
    assert(frame.len() == 12 + data.len());
    if a + frame.len() > m.len() {
        assert(page_ceil(a + frame.len()) >= a + frame.len()) by {
            let x = a + frame.len() as int;
            assert(((x + 65536 - 1) / 65536) * 65536 >= x) by (nonlinear_arith)
                requires
                    x >= 0,
            ;
        }
    }
    let end = m2.len() as int;
    assert(a + 12 + data.len() <= end);
    assert(m2.subrange(a, a + 4) =~= ps_magic());
    assert(m2.subrange(a + 4, a + 12) =~= spec_u64_to_le_bytes(data.len() as u64));
    assert(spec_u64_from_le_bytes(m2.subrange(a + 4, a + 12)) == data.len());
    assert(m2.subrange(a + 12, a + 12 + data.len()) =~= data);
}

/// Law: an address past the end of the allocated memory reads as "not
/// found", never as an error; nothing there is touched.
pub proof fn lemma_beyond_memory_not_found(m: Seq<u8>, a: int)
    requires
        a > m.len(),
    ensures
        ps_read(m, a) is NotFound,
{
}

/// Law: whenever the memory ends mid-frame, the reported range's upper
/// bound is exactly the end of the bytes actually available.
pub proof fn lemma_truncated_reports_available_end(m: Seq<u8>, a: int)
    requires
        0 <= a,
    ensures
        match ps_read(m, a) {
            PsReadSpec::Truncated { max_address, attempted_read_address } => max_address == m.len()
                && attempted_read_address >= max_address,
            _ => true,
        },
{
}

/// Law: a flushed header is what a later attachment loads. Writing a
/// header's bytes at address 0 leaves the memory's leading header window
/// holding exactly those bytes; that window is loadable exactly when the
/// version is supported, and the flushed header is the only one matching
/// it.
pub proof fn lemma_flush_then_attach(m: Seq<u8>, h: Header)
    ensures
        mem_after_write(m, 0, header_bytes(h)).len() >= HEADER_SIZE,
        mem_after_write(m, 0, header_bytes(h)).subrange(0, HEADER_SIZE as int) == header_bytes(h),
        header_valid(header_bytes(h)) <==> (crate::header::OLDEST_SUPPORTED_LAYOUT_VERSION
            <= h.version <= crate::header::NEWEST_SUPPORTED_LAYOUT_VERSION),
        header_matches_bytes(h, header_bytes(h)),
        forall|h2: Header| header_matches_bytes(h2, header_bytes(h)) ==> h2 == h,
{
    crate::header::lemma_serialize_then_load(h);
    let m2 = mem_after_write(m, 0, header_bytes(h));
    assert(m2.len() >= HEADER_SIZE);
    assert(m2.subrange(0, HEADER_SIZE as int) =~= header_bytes(h));
}

/// Law: saving a snapshot and immediately loading it back on the same
/// manager yields exactly the saved bytes. `pre` is the manager before the
/// save, `post` the manager after it, as `write_persistent_state`'s
/// contract describes it; `read_persistent_state` on `post` then sees a
/// complete frame holding `data`.
pub proof fn lemma_save_then_load_found(pre: Storage, post: Storage, data: Seq<u8>)
    requires
        post.header == pre.header,
        data.len() <= u64::MAX,
        mem_bytes(post.memory) == mem_after_write(
            mem_bytes(pre.memory),
            pre.spec_unused_memory_start(),
            ps_frame(data),
        ),
    ensures
        ps_read(mem_bytes(post.memory), post.spec_unused_memory_start()) == PsReadSpec::Found(
            data,
        ),
{
    assert(pre.header.num_users * pre.header.entry_size >= 0) by (nonlinear_arith);
    lemma_save_then_load(mem_bytes(pre.memory), pre.spec_unused_memory_start(), data);
}

/// Law: the slot address is strictly increasing in the record number, and
/// equals the base address of the slot region at record number zero.
pub proof fn lemma_record_address_increasing(s: Storage, n1: u32, n2: u32)
    requires
        s.header.entry_size >= 1,
        n1 < n2,
    ensures
        s.spec_record_address(n1) < s.spec_record_address(n2),
        s.spec_record_address(0) == s.header.first_entry_offset,
{
    let e = s.header.entry_size as int;
    assert(n1 * e < n2 * e) by (nonlinear_arith)
        requires
            n1 < n2,
            e >= 1,
    ;
}

} // verus!
