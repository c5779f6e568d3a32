//! Storage manager lifecycle: construction, attachment, flushing, salt
//! handling, record addressing.

use anchor_store::errors::{LayoutError, StorageError};
use anchor_store::header::Header;
use anchor_store::mem::StableMemory;
use anchor_store::storage::Storage;

#[test]
fn from_memory_on_empty_memory_is_none() {
    assert!(Storage::from_memory(StableMemory::new()).unwrap().is_none());
}

#[test]
fn new_writes_nothing_until_flush() {
    let storage = Storage::new((1, 2), StableMemory::new()).unwrap();
    assert_eq!(storage.memory.size(), 0);
    let memory = storage.memory;
    assert!(Storage::from_memory(memory).unwrap().is_none());
}

#[test]
fn flush_then_attach_recovers_the_header() {
    let mut storage = Storage::new((5, 9), StableMemory::new()).unwrap();
    storage.flush();
    let memory = storage.memory;
    let attached = Storage::from_memory(memory).unwrap().unwrap();
    assert_eq!(attached.header, storage.header);
    assert_eq!(attached.user_count(), 0);
    assert_eq!(attached.version(), 5);
}

#[test]
fn attach_rejects_corrupted_magic() {
    let mut memory = StableMemory::new();
    memory.write(0, &[0u8; 74]);
    assert!(matches!(
        Storage::from_memory(memory),
        Err(LayoutError::MagicMismatch { b0: 0, b1: 0, b2: 0 })
    ));
}

#[test]
fn attach_rejects_unsupported_versions() {
    let mut h = Header::init(0, 5).unwrap();
    h.version = 2;
    let mut memory = StableMemory::new();
    memory.write(0, &h.serialize());
    assert!(matches!(
        Storage::from_memory(memory),
        Err(LayoutError::VersionNoLongerSupported { version: 2 })
    ));

    h.version = 6;
    let mut memory = StableMemory::new();
    memory.write(0, &h.serialize());
    assert!(matches!(
        Storage::from_memory(memory),
        Err(LayoutError::UnsupportedVersion { version: 6 })
    ));
}

#[test]
fn new_rejects_bad_ranges() {
    assert!(matches!(
        Storage::new((5, 4), StableMemory::new()),
        Err(LayoutError::InvalidRange { id_range_lo: 5, id_range_hi: 4 })
    ));
    assert!(matches!(
        Storage::new((0, u64::MAX), StableMemory::new()),
        Err(LayoutError::RangeTooLarge { .. })
    ));
}

#[test]
fn salt_starts_unset_and_update_persists_it() {
    let mut storage = Storage::new((10, 20), StableMemory::new()).unwrap();
    assert!(storage.salt().is_none());

    storage.update_salt([7u8; 32]);
    assert_eq!(storage.salt(), Some(&[7u8; 32]));

    // update_salt flushed the header: a fresh attachment sees the salt
    let memory = storage.memory;
    let attached = Storage::from_memory(memory).unwrap().unwrap();
    assert_eq!(attached.salt(), Some(&[7u8; 32]));
}

#[test]
fn record_address_scenario() {
    // range (10, 20), slot size 4096, base 131072
    let storage = Storage::new((10, 20), StableMemory::new()).unwrap();
    assert_eq!(storage.record_address(0), 131072);
    assert_eq!(storage.record_address(5), 131072 + 5 * 4096);
    assert_eq!(storage.record_address(5), 151552);
    // strictly increasing in the record number
    assert!(storage.record_address(1) > storage.record_address(0));
    assert!(storage.record_address(6) > storage.record_address(5));
}

#[test]
fn unused_memory_start_follows_the_record_count() {
    let storage = Storage::new((10, 20), StableMemory::new()).unwrap();
    assert_eq!(storage.unused_memory_start(), 131072);

    let mut h = Header::init(10, 20).unwrap();
    h.num_users = 3;
    let mut memory = StableMemory::new();
    memory.write(0, &h.serialize());
    let attached = Storage::from_memory(memory).unwrap().unwrap();
    assert_eq!(attached.unused_memory_start(), 131072 + 3 * 4096);
}

#[test]
fn candid_entry_size_limit_leaves_room_for_the_length_prefix() {
    let storage = Storage::new((10, 20), StableMemory::new()).unwrap();
    assert_eq!(storage.candid_entry_size_limit(), 4096 - 2);
}

#[test]
fn storage_error_variants_carry_their_context() {
    let out_of_range = StorageError::UserNumberOutOfRange { user_number: 25, range: (10, 20) };
    assert!(matches!(
        out_of_range,
        StorageError::UserNumberOutOfRange { user_number: 25, range: (10, 20) }
    ));
    assert!(matches!(StorageError::BadUserNumber(9), StorageError::BadUserNumber(9)));
    assert!(matches!(
        StorageError::EntrySizeLimitExceeded(5000),
        StorageError::EntrySizeLimitExceeded(5000)
    ));
    let decode_err = candid::decode_one::<u64>(&[0u8]).unwrap_err();
    assert!(matches!(
        StorageError::DeserializationError(decode_err),
        StorageError::DeserializationError(_)
    ));
    let encode_err = candid::Error::msg("payload too large for its slot");
    assert!(matches!(
        StorageError::SerializationError(encode_err),
        StorageError::SerializationError(_)
    ));
}
