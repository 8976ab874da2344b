//! Core of a pastebin service: identifier generation, the paste data model,
//! an atomic create/retrieve store, the ingestion pipeline that turns a
//! chunked request body into a persisted paste, a bounded connection pool,
//! and the retrieval path with its content negotiation.

pub mod assets;
pub mod id;
pub mod ingest;
pub mod layout;
pub mod paste;
pub mod pool;
pub mod retrieval;
pub mod store;

pub use id::PasteId;
pub use paste::Paste;
pub use store::{PasteStore, StorageError};
