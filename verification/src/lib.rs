//! Resolution of a versioned language-server binary for the C3 language.
//!
//! The crate holds the decision core of the resolution: which platform token
//! to use, which release asset to pick, where the versioned install lives on
//! disk, whether a cached path may be reused, which stale installs to prune,
//! and how the host is to spawn the resolved binary. All I/O (the release
//! lookup, the download, the filesystem) is performed by the embedding host,
//! which drives the step functions of [`resolver::Resolver`] and executes
//! the requests they return.

pub mod error;
pub mod install;
pub mod launch;
pub mod platform;
pub mod release;
pub mod resolver;
pub mod selector;
