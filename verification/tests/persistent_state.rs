//! Persistent-state framing: save/load round trips, the not-found short
//! circuits and the truncation report.

use anchor_store::errors::PersistentStateError;
use anchor_store::header::Header;
use anchor_store::mem::StableMemory;
use anchor_store::storage::Storage;

#[test]
fn save_then_load_returns_snapshot() {
    let mut storage = Storage::new((10, 20), StableMemory::new()).unwrap();
    let snapshots: Vec<Vec<u8>> = vec![
        Vec::new(),
        b"hello".to_vec(),
        (0..8000u32).map(|i| (i % 251) as u8).collect(),
    ];
    for snapshot in snapshots {
        storage.write_persistent_state(&snapshot);
        let back = storage.read_persistent_state().unwrap();
        assert_eq!(back, snapshot);
    }
}

#[test]
fn save_then_load_through_candid() {
    let mut storage = Storage::new((10, 20), StableMemory::new()).unwrap();
    let value = String::from("state that must survive a restart");
    let encoded = candid::encode_one(&value).unwrap();
    storage.write_persistent_state(&encoded);
    let back = storage.read_persistent_state().unwrap();
    let decoded: String = candid::decode_one(&back).unwrap();
    assert_eq!(decoded, value);
}

#[test]
fn load_without_any_save_is_not_found() {
    let storage = Storage::new((10, 20), StableMemory::new()).unwrap();
    assert!(matches!(
        storage.read_persistent_state(),
        Err(PersistentStateError::NotFound)
    ));
}

#[test]
fn load_beyond_grown_memory_is_not_found() {
    // after a flush the memory holds one page (65536 bytes); the
    // persistent-state address (131072) still lies beyond it
    let mut storage = Storage::new((10, 20), StableMemory::new()).unwrap();
    storage.flush();
    assert_eq!(storage.memory.size(), 1);
    assert!(matches!(
        storage.read_persistent_state(),
        Err(PersistentStateError::NotFound)
    ));
}

#[test]
fn zero_filled_growth_reads_not_found() {
    // memory grown past the frame address but never saved to: the pages
    // are zero-filled, so the magic check fails and nothing is mistaken
    // for a snapshot
    let mut memory = StableMemory::new();
    memory.write(200000, b"x");
    let storage = Storage::new((10, 20), memory).unwrap();
    assert!(matches!(
        storage.read_persistent_state(),
        Err(PersistentStateError::NotFound)
    ));
}

#[test]
fn stale_bytes_without_magic_are_not_found() {
    let mut memory = StableMemory::new();
    // leftover record bytes where a snapshot would be looked for
    memory.write(131072, b"IIPX12345678");
    let storage = Storage::new((10, 20), memory).unwrap();
    assert!(matches!(
        storage.read_persistent_state(),
        Err(PersistentStateError::NotFound)
    ));
}

#[test]
fn truncated_frame_reports_available_range() {
    let mut memory = StableMemory::new();
    // a frame whose length field promises far more content than the
    // memory holds: the magic and length are present, the content is cut
    let mut frame = b"IIPS".to_vec();
    frame.extend_from_slice(&100000u64.to_le_bytes());
    memory.write(131072, &frame);
    // the write grew the memory to the page boundary at 196608
    assert_eq!(memory.size(), 3);
    let storage = Storage::new((10, 20), memory).unwrap();
    match storage.read_persistent_state() {
        Err(PersistentStateError::ReadError(ob)) => {
            assert_eq!(ob.max_address, 196608);
            assert_eq!(ob.attempted_read_address, 196609);
        }
        other => panic!("expected a read error, got {:?}", other),
    }
}

#[test]
fn save_at_record_count_three_lands_at_third_slot() {
    // attach to a memory whose header already counts 3 records
    let mut h = Header::init(10, 20).unwrap();
    h.num_users = 3;
    let mut memory = StableMemory::new();
    memory.write(0, &h.serialize());
    let mut storage = Storage::from_memory(memory).unwrap().unwrap();
    assert_eq!(storage.user_count(), 3);

    let snapshot: Vec<u8> = (0u8..10).collect();
    storage.write_persistent_state(&snapshot);

    // the frame sits at address_of(3) = 131072 + 3 * 4096
    let base = 131072 + 3 * 4096;
    let (tag, n) = storage.memory.read(base, 4).unwrap();
    assert_eq!((tag.as_slice(), n), (&b"IIPS"[..], 4));
    let (len_bytes, n) = storage.memory.read(base + 4, 8).unwrap();
    assert_eq!(n, 8);
    assert_eq!(u64::from_le_bytes(len_bytes.try_into().unwrap()), 10);
    let (content, n) = storage.memory.read(base + 12, 10).unwrap();
    assert_eq!(n, 10);
    assert_eq!(content, snapshot);
}

#[test]
fn candid_error_variant_carries_decode_failure() {
    // framed bytes that do not decode surface distinctly from truncation
    let garbage = vec![0xffu8, 0x00, 0x13];
    let err = candid::decode_one::<u64>(&garbage).unwrap_err();
    let wrapped = PersistentStateError::CandidError(err);
    assert!(matches!(wrapped, PersistentStateError::CandidError(_)));
}
