//! Core of a planning tool for judge assignment schedules at gymnastics
//! competitions: a shared competition record with per-field locking, a
//! self-describing text encoding of that record, the orchestration of the
//! document export pipelines, and the update-download coordinator.

pub mod types;
pub mod encoding;
pub mod decoding;
pub mod roundtrip;
pub mod sync;
pub mod locks;
pub mod export;
pub mod update;
pub mod mail;
pub mod logfiles;
