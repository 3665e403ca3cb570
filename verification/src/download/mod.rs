//! Generic HuggingFace download helper with byte-level progress.
//!
//! This module is backend-agnostic: any backend whose model weights live
//! on HuggingFace Hub can call [`download_files_with_progress`] to fetch
//! them into a caller-chosen directory while [`DownloadProgress`] updates
//! are reported as bytes arrive.
//!
//! Paired with [`is_repo_cached`], a probe that uses the same
//! `(repo_id, files)` pair to answer "are these already on disk?" without
//! touching the network, for consumers that need to decide between
//! rendering a "Download" affordance and a "Ready" state in a UI hot path.
//!
//! The functions here decide; the closures they take reach the file system
//! and the network. What a closure returned appears in the contracts as
//! `call_ensures`: the contracts hold whatever it returns. Which calls a
//! closure has to be ready for appears as `call_requires`: those that are due,
//! and no others.

pub mod batch;
pub mod cache;
pub mod laws;
pub mod progress;

pub use batch::download_files_with_progress;
pub use cache::{
    hf_hub_cache_root, is_repo_cached, snapshot_satisfies_files, snapshots_dir, CacheEnv, Snapshot,
};
pub use progress::{CallbackProgress, DownloadProgress};
