//! Error types of the store.
//!
//! Two disjoint taxonomies: [`LayoutError`] for unrecoverable header
//! construction/validation failures (the process is expected to halt on
//! these), and [`PersistentStateError`] for the structured, recoverable
//! outcomes of reading the persistent-state region.

use vstd::prelude::*;

verus! {

/// A record ("anchor") number.
pub type UserNumber = u64;

/// Declares candid's error type so that it can stand in error variants.
/// Values of it are only carried through; nothing in this crate reads them.
#[verifier::external_type_specification]
#[verifier::external_body]
pub struct ExCandidError(candid::error::Error);

/// Fatal failures of header construction or validation. Any of these means
/// the memory layout is not understood, and no further operation on it is
/// safe; callers are expected to halt rather than recover.
#[derive(Debug)]
pub enum LayoutError {
    /// The requested record-number range has its upper bound below its lower
    /// bound.
    InvalidRange { id_range_lo: u64, id_range_hi: u64 },
    /// The requested record-number range holds more numbers than the region
    /// has capacity for.
    RangeTooLarge { id_range_lo: u64, id_range_hi: u64 },
    /// The three leading bytes of the header window are not the format's
    /// magic tag; the bytes found are carried along.
    MagicMismatch { b0: u8, b1: u8, b2: u8 },
    /// The layout version is below the oldest supported one: the record
    /// encoding is no longer understood (reinstall, or migrate with an older
    /// build).
    VersionNoLongerSupported { version: u8 },
    /// The layout version is above the newest supported one: a
    /// not-yet-understood future format.
    UnsupportedVersion { version: u8 },
}

/// The address range that was actually available when a read ran past the
/// end of the allocated memory.
#[derive(Debug, PartialEq, Eq, Structural)]
pub struct OutOfBounds {
    pub max_address: u64,
    pub attempted_read_address: u64,
}

/// Outcome of a failed persistent-state read. `NotFound` is the expected,
/// non-exceptional case (no snapshot present); `ReadError` signals memory
/// that ends mid-structure; `CandidError` signals framed bytes whose content
/// did not decode (the decoding layer, not this crate, produces it).
#[derive(Debug)]
pub enum PersistentStateError {
    CandidError(candid::error::Error),
    NotFound,
    ReadError(OutOfBounds),
}

/// Operational failures of the per-record read/write paths that surround
/// this store; surfaced as structured values, never silently dropped.
#[derive(Debug)]
pub enum StorageError {
    UserNumberOutOfRange { user_number: UserNumber, range: (UserNumber, UserNumber) },
    BadUserNumber(u64),
    DeserializationError(candid::error::Error),
    SerializationError(candid::error::Error),
    EntrySizeLimitExceeded(usize),
}

} // verus!
