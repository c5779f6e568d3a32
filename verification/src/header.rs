//! The fixed-layout header at address 0 and its byte-exact codec.
//!
//! Byte layout (all integers little-endian):
//! magic `"IIC"` at offset 0 (3 bytes), layout version at 3 (1 byte),
//! record count at 4 (4 bytes), range lower bound at 8 (8 bytes), range
//! upper bound at 16 (8 bytes, exclusive), slot size at 24 (2 bytes), salt
//! at 26 (32 raw bytes), base address of the slot region at 58 (8 bytes).
//! Two legacy fields kept for layout-version compatibility follow: the
//! migration cursor at 66 (4 bytes) and the migration batch size at 70
//! (4 bytes), for 74 bytes in all.

use vstd::prelude::*;
use vstd::bytes::*;
use vstd::array::spec_array_fill_for_copy_type;
use vstd::slice::slice_subrange;
use crate::errors::LayoutError;

verus! {

/// Unit by which the backing memory grows.
pub const WASM_PAGE_SIZE: u64 = 65536;

/// Base address of the slot region: two pages reserved ahead of it.
pub const ENTRY_OFFSET: u64 = 2 * WASM_PAGE_SIZE;

/// Size in bytes of one record slot.
pub const DEFAULT_ENTRY_SIZE: u16 = 4096;

/// One gibibyte.
pub const GB: u64 = 1073741824;

/// Total size of the addressable region assumed by the capacity formula.
pub const STABLE_MEMORY_SIZE: u64 = 32 * GB;

/// Fixed tail reserve past the last possible slot, kept for later features.
pub const STABLE_MEMORY_RESERVE: u64 = 8 * GB / 10;

/// The largest record-number range a single store can manage:
/// (region size - slot base - tail reserve) / slot size.
pub const DEFAULT_RANGE_SIZE: u64 = (STABLE_MEMORY_SIZE - ENTRY_OFFSET - STABLE_MEMORY_RESERVE)
    / 4096;

/// Oldest layout version this build still understands.
pub const OLDEST_SUPPORTED_LAYOUT_VERSION: u8 = 3;

/// Newest layout version this build understands.
pub const NEWEST_SUPPORTED_LAYOUT_VERSION: u8 = 5;

/// Version written by a freshly initialized header.
pub const CURRENT_LAYOUT_VERSION: u8 = 5;

/// Serialized size of the header window in bytes.
pub const HEADER_SIZE: usize = 74;

/// The 32-byte salt; all-zero means "unset".
pub type Salt = [u8; 32];

/// The fixed-layout metadata record at address 0. The magic tag is implied:
/// it is written by `serialize` and checked by `load`, never stored.
#[derive(Clone, Copy, PartialEq, Eq, Debug)]
pub struct Header {
    pub version: u8,
    pub num_users: u32,
    pub id_range_lo: u64,
    pub id_range_hi: u64,
    pub entry_size: u16,
    pub salt: Salt,
    pub first_entry_offset: u64,
    /// Legacy: record number where an in-progress slot-encoding migration
    /// starts; not exercised by current behavior.
    pub new_layout_start: u32,
    /// Legacy: batch size of that migration; not exercised.
    pub migration_batch_size: u32,
}

/// The magic tag `"IIC"`.
pub open spec fn header_magic() -> Seq<u8> {
    seq![0x49u8, 0x49u8, 0x43u8]
}

/// The all-zero salt sentinel.
pub open spec fn empty_salt() -> Seq<u8> {
    Seq::new(32, |i: int| 0u8)
}

/// The exact 74-byte serialization of a header.
pub open spec fn header_bytes(h: Header) -> Seq<u8> {
    header_magic() + seq![h.version] + spec_u32_to_le_bytes(h.num_users) + spec_u64_to_le_bytes(
        h.id_range_lo,
    ) + spec_u64_to_le_bytes(h.id_range_hi) + spec_u16_to_le_bytes(h.entry_size) + h.salt@
        + spec_u64_to_le_bytes(h.first_entry_offset) + spec_u32_to_le_bytes(h.new_layout_start)
        + spec_u32_to_le_bytes(h.migration_batch_size)
}

/// A header byte window is loadable exactly when the magic tag matches and
/// the version byte falls in the supported range.
pub open spec fn header_valid(b: Seq<u8>) -> bool
    recommends
        b.len() == HEADER_SIZE,
{
    &&& b[0] == 0x49u8
    &&& b[1] == 0x49u8
    &&& b[2] == 0x43u8
    &&& OLDEST_SUPPORTED_LAYOUT_VERSION <= b[3] <= NEWEST_SUPPORTED_LAYOUT_VERSION
}

/// The fatal error a non-loadable header byte window produces: a magic
/// mismatch wins over any version byte; a version below the floor is told
/// apart from one above the ceiling.
pub open spec fn load_err(b: Seq<u8>) -> LayoutError
    recommends
        b.len() == HEADER_SIZE,
        !header_valid(b),
{
    if !(b[0] == 0x49u8 && b[1] == 0x49u8 && b[2] == 0x43u8) {
        LayoutError::MagicMismatch { b0: b[0], b1: b[1], b2: b[2] }
    } else if b[3] < OLDEST_SUPPORTED_LAYOUT_VERSION {
        LayoutError::VersionNoLongerSupported { version: b[3] }
    } else {
        LayoutError::UnsupportedVersion { version: b[3] }
    }
}

/// Field-by-field correspondence between a header value and a 74-byte
/// window; it pins every field, so at most one header matches a window.
pub open spec fn header_matches_bytes(h: Header, b: Seq<u8>) -> bool
    recommends
        b.len() == HEADER_SIZE,
{
    &&& h.version == b[3]
    &&& h.num_users == spec_u32_from_le_bytes(b.subrange(4, 8))
    &&& h.id_range_lo == spec_u64_from_le_bytes(b.subrange(8, 16))
    &&& h.id_range_hi == spec_u64_from_le_bytes(b.subrange(16, 24))
    &&& h.entry_size == spec_u16_from_le_bytes(b.subrange(24, 26))
    &&& h.salt@ == b.subrange(26, 58)
    &&& h.first_entry_offset == spec_u64_from_le_bytes(b.subrange(58, 66))
    &&& h.new_layout_start == spec_u32_from_le_bytes(b.subrange(66, 70))
    &&& h.migration_batch_size == spec_u32_from_le_bytes(b.subrange(70, 74))
}

/// The header a fresh store starts from: latest version, no records yet,
/// default slot size and base address, salt unset.
pub open spec fn init_header(id_range_lo: u64, id_range_hi: u64) -> Header {
    Header {
        version: CURRENT_LAYOUT_VERSION,
        num_users: 0,
        id_range_lo,
        id_range_hi,
        entry_size: DEFAULT_ENTRY_SIZE,
        salt: spec_array_fill_for_copy_type::<u8, 32>(0u8),
        first_entry_offset: ENTRY_OFFSET,
        new_layout_start: 0,
        migration_batch_size: 0,
    }
}

/// `h` with its salt field replaced by `salt`, all other fields kept.
pub open spec fn header_with_salt(h: Header, salt: Salt) -> Header {
    Header {
        version: h.version,
        num_users: h.num_users,
        id_range_lo: h.id_range_lo,
        id_range_hi: h.id_range_hi,
        entry_size: h.entry_size,
        salt,
        first_entry_offset: h.first_entry_offset,
        new_layout_start: h.new_layout_start,
        migration_batch_size: h.migration_batch_size,
    }
}

impl Header {
    /// Builds the header of a fresh store over the record-number range
    /// `[id_range_lo, id_range_hi)`, rejecting an inverted range and one
    /// larger than the region's capacity.
    pub fn init(id_range_lo: u64, id_range_hi: u64) -> (r: Result<Header, LayoutError>)
        ensures
            id_range_hi < id_range_lo ==> r == Err::<Header, LayoutError>(
                LayoutError::InvalidRange { id_range_lo, id_range_hi },
            ),
            id_range_lo <= id_range_hi && id_range_hi - id_range_lo > DEFAULT_RANGE_SIZE ==> r
                == Err::<Header, LayoutError>(
                LayoutError::RangeTooLarge { id_range_lo, id_range_hi },
            ),
            id_range_lo <= id_range_hi && id_range_hi - id_range_lo <= DEFAULT_RANGE_SIZE ==> r
                == Ok::<Header, LayoutError>(init_header(id_range_lo, id_range_hi)),
    {
        if id_range_hi < id_range_lo {
            return Err(LayoutError::InvalidRange { id_range_lo, id_range_hi });
        }
        if id_range_hi - id_range_lo > DEFAULT_RANGE_SIZE {
            return Err(LayoutError::RangeTooLarge { id_range_lo, id_range_hi });
        }
        Ok(
            Header {
                version: CURRENT_LAYOUT_VERSION,
                num_users: 0,
                id_range_lo,
                id_range_hi,
                entry_size: DEFAULT_ENTRY_SIZE,
                salt: [0u8; 32],
                first_entry_offset: ENTRY_OFFSET,
                new_layout_start: 0,
                migration_batch_size: 0,
            },
        )
    }

    /// Serializes the header into its exact 74-byte window.
    pub fn serialize(&self) -> (out: Vec<u8>)
        ensures
            out@ == header_bytes(*self),
            out@.len() == HEADER_SIZE,
    {
        proof {
            lemma_auto_spec_u16_to_from_le_bytes();
            lemma_auto_spec_u32_to_from_le_bytes();
            lemma_auto_spec_u64_to_from_le_bytes();
        }
        let mut out: Vec<u8> = Vec::new();
        out.push(0x49u8);
        out.push(0x49u8);
        out.push(0x43u8);
        out.push(self.version);
        let mut b = u32_to_le_bytes(self.num_users);
        out.append(&mut b);
        let mut b = u64_to_le_bytes(self.id_range_lo);
        out.append(&mut b);
        let mut b = u64_to_le_bytes(self.id_range_hi);
        out.append(&mut b);
        let mut b = u16_to_le_bytes(self.entry_size);
        out.append(&mut b);
        let mut b = vstd::slice::slice_to_vec(self.salt.as_slice());
        out.append(&mut b);
        let mut b = u64_to_le_bytes(self.first_entry_offset);
        out.append(&mut b);
        let mut b = u32_to_le_bytes(self.new_layout_start);
        out.append(&mut b);
        let mut b = u32_to_le_bytes(self.migration_batch_size);
        out.append(&mut b);
        assert(out@ =~= header_bytes(*self));
        out
    }

    /// Reinterprets the leading 74 bytes of `bytes` as a header. Fails
    /// fatally on a magic mismatch (whatever the version byte holds), on a
    /// version below the oldest supported one (distinct condition: no
    /// longer supported) and on one above the newest supported.
    pub fn load(bytes: &[u8]) -> (r: Result<Header, LayoutError>)
        requires
            bytes@.len() >= HEADER_SIZE,
        ensures
            ({
                let b = bytes@.subrange(0, HEADER_SIZE as int);
                &&& (r is Ok) <==> header_valid(b)
                &&& !(b[0] == 0x49u8 && b[1] == 0x49u8 && b[2] == 0x43u8) ==> r
                    == Err::<Header, LayoutError>(
                    LayoutError::MagicMismatch { b0: b[0], b1: b[1], b2: b[2] },
                )
                &&& (b[0] == 0x49u8 && b[1] == 0x49u8 && b[2] == 0x43u8 && b[3]
                    < OLDEST_SUPPORTED_LAYOUT_VERSION) ==> r == Err::<Header, LayoutError>(
                    LayoutError::VersionNoLongerSupported { version: b[3] },
                )
                &&& (b[0] == 0x49u8 && b[1] == 0x49u8 && b[2] == 0x43u8 && b[3]
                    > NEWEST_SUPPORTED_LAYOUT_VERSION) ==> r == Err::<Header, LayoutError>(
                    LayoutError::UnsupportedVersion { version: b[3] },
                )
                &&& !header_valid(b) ==> r == Err::<Header, LayoutError>(load_err(b))
                &&& (r is Ok) ==> header_matches_bytes(r->Ok_0, b)
            }),
    {
        let ghost b = bytes@.subrange(0, HEADER_SIZE as int);
        if !(bytes[0] == 0x49u8 && bytes[1] == 0x49u8 && bytes[2] == 0x43u8) {
            return Err(LayoutError::MagicMismatch { b0: bytes[0], b1: bytes[1], b2: bytes[2] });
        }
        let version = bytes[3];
        if version < OLDEST_SUPPORTED_LAYOUT_VERSION {
            return Err(LayoutError::VersionNoLongerSupported { version });
        }
        if version > NEWEST_SUPPORTED_LAYOUT_VERSION {
            return Err(LayoutError::UnsupportedVersion { version });
        }
        let num_users = u32_from_le_bytes(slice_subrange(bytes, 4, 8));
        let id_range_lo = u64_from_le_bytes(slice_subrange(bytes, 8, 16));
        let id_range_hi = u64_from_le_bytes(slice_subrange(bytes, 16, 24));
        let entry_size = u16_from_le_bytes(slice_subrange(bytes, 24, 26));
        let salt_slice = slice_subrange(bytes, 26, 58);
        let mut salt: Salt = [0u8; 32];
        let mut i: usize = 0;
        while i < 32
            invariant
                i <= 32,
                salt_slice@.len() == 32,
                salt@.len() == 32,
                forall|j: int| 0 <= j < i ==> salt@[j] == salt_slice@[j],
            decreases 32 - i,
        {
            salt[i] = salt_slice[i];
            i = i + 1;
        }
        let first_entry_offset = u64_from_le_bytes(slice_subrange(bytes, 58, 66));
        let new_layout_start = u32_from_le_bytes(slice_subrange(bytes, 66, 70));
        let migration_batch_size = u32_from_le_bytes(slice_subrange(bytes, 70, 74));
        let h = Header {
            version,
            num_users,
            id_range_lo,
            id_range_hi,
            entry_size,
            salt,
            first_entry_offset,
            new_layout_start,
            migration_batch_size,
        };
        proof {
            assert(salt_slice@ =~= b.subrange(26, 58));
            assert(h.salt@ =~= b.subrange(26, 58));
            assert(bytes@.subrange(4, 8) =~= b.subrange(4, 8));
            assert(bytes@.subrange(8, 16) =~= b.subrange(8, 16));
            assert(bytes@.subrange(16, 24) =~= b.subrange(16, 24));
            assert(bytes@.subrange(24, 26) =~= b.subrange(24, 26));
            assert(bytes@.subrange(58, 66) =~= b.subrange(58, 66));
            assert(bytes@.subrange(66, 70) =~= b.subrange(66, 70));
            assert(bytes@.subrange(70, 74) =~= b.subrange(70, 74));
        }
        Ok(h)
    }
}

/// Law: a serialized header window is loadable exactly when its version is
/// supported, it matches the header it came from, and it matches no other
/// header. Together with `load`'s contract this gives the round trip: `load`
/// on a `serialize` output recovers a header with identical field values.
pub proof fn lemma_serialize_then_load(h: Header)
    ensures
        header_bytes(h).len() == HEADER_SIZE,
        header_valid(header_bytes(h)) <==> (OLDEST_SUPPORTED_LAYOUT_VERSION <= h.version
            <= NEWEST_SUPPORTED_LAYOUT_VERSION),
        header_matches_bytes(h, header_bytes(h)),
        forall|h2: Header| header_matches_bytes(h2, header_bytes(h)) ==> h2 == h,
{
    lemma_auto_spec_u16_to_from_le_bytes();
    lemma_auto_spec_u32_to_from_le_bytes();
    lemma_auto_spec_u64_to_from_le_bytes();
    let b = header_bytes(h);
    assert(b.subrange(4, 8) =~= spec_u32_to_le_bytes(h.num_users));
    assert(b.subrange(8, 16) =~= spec_u64_to_le_bytes(h.id_range_lo));
    assert(b.subrange(16, 24) =~= spec_u64_to_le_bytes(h.id_range_hi));
    assert(b.subrange(24, 26) =~= spec_u16_to_le_bytes(h.entry_size));
    assert(b.subrange(26, 58) =~= h.salt@);
    assert(b.subrange(58, 66) =~= spec_u64_to_le_bytes(h.first_entry_offset));
    assert(b.subrange(66, 70) =~= spec_u32_to_le_bytes(h.new_layout_start));
    assert(b.subrange(70, 74) =~= spec_u32_to_le_bytes(h.migration_batch_size));
    assert forall|h2: Header| header_matches_bytes(h2, b) implies h2 == h by {
        assert(h2.salt =~= h.salt);
    }
}

/// Law: for every valid range (upper at least lower, size within capacity),
/// initializing a header, serializing it and loading the bytes back
/// reproduces the identical range, version and zero record count: the
/// initialized header's window is loadable and matched by that header alone.
pub proof fn lemma_init_serialize_load(id_range_lo: u64, id_range_hi: u64)
    requires
        id_range_lo <= id_range_hi,
        id_range_hi - id_range_lo <= DEFAULT_RANGE_SIZE,
    ensures
        ({
            let h = init_header(id_range_lo, id_range_hi);
            &&& header_valid(header_bytes(h))
            &&& header_matches_bytes(h, header_bytes(h))
            &&& forall|h2: Header|
                header_matches_bytes(h2, header_bytes(h)) ==> h2 == h && h2.id_range_lo
                    == id_range_lo && h2.id_range_hi == id_range_hi && h2.version
                    == CURRENT_LAYOUT_VERSION && h2.num_users == 0
        }),
{
    lemma_serialize_then_load(init_header(id_range_lo, id_range_hi));
}

} // verus!
