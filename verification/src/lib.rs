//! Verified core of a batch package-download pipeline.
//!
//! The pipeline fetches a set of packages and their full transitive
//! dependency sets from a remote depot, caches them on disk, fetches the
//! signing keys needed to trust them, and optionally verifies signatures.
//! The depot transport, the filesystem and the cryptographic verifier are
//! outside collaborators; this crate holds the decisions of the pipeline —
//! dependency-set expansion, deterministic cache paths, bounded retry,
//! key handling and the phased run state machine — with proofs.

pub mod dirs;
pub mod error;
pub mod expand;
pub mod fetch;
pub mod ident;
pub mod keys;
pub mod machine;
pub mod task;
