//! Resilient retrieval pipeline for sequencing-run read files.
//!
//! The library classifies run accessions, plans metadata lookups and
//! downloads, verifies checksums, and models the retry and fallback
//! decisions of the retrieval pipeline as verified state machines.
//! All I/O (HTTP, subprocesses, the filesystem) lives outside the
//! library and feeds events into these machines.

pub mod accession;
pub mod batch;
pub mod checksum;
pub mod config;
pub mod download;
pub mod ena;
pub mod errors;
pub mod layout;
pub mod metadata;
pub mod record;
pub mod run;
pub mod sra;
pub mod text;

pub use layout::Layout;
