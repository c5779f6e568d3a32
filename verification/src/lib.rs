//! A fixed-slot record store laid out in a flat, page-grown memory region.
//!
//! The region starts with a fixed-offset [`header::Header`] describing the
//! layout version, the record-number range, the per-slot size, a salt and the
//! base address of the slot region. Records ("anchors") live in fixed-size
//! slots past that base address, and a transient, length-framed snapshot (the
//! "persistent state") can be written into the first unused slot address to
//! survive a restart.
//!
//! The [`storage::Storage`] manager owns the header together with the backing
//! [`mem::StableMemory`] handle and exposes construction, attachment, header
//! flushing, salt access and persistent-state save/restore.

pub mod errors;
pub mod header;
pub mod mem;
pub mod storage;
