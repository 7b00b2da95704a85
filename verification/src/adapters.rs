//! Adapters between this crate's I/O and storage traits and those of other ecosystems.
pub mod digest;
pub mod fmt;
pub mod futures_io;
pub mod tokio_io;
pub mod std_io;
pub mod unblock;
pub mod storage;
pub mod storage_async;
