//! Building and describing sorted string table (SST) files for an embedded
//! ordered key-value engine: compression negotiation, writer configuration,
//! an append-only sorted record stream, and read-side statistics counters.

pub mod bytes;
pub mod compression;
pub mod sst;
pub mod stats;
