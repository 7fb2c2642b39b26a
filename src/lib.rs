//! Content-addressed storage for a package registry.
//!
//! Blobs are addressed by an algorithm-tagged digest of their own bytes and
//! logically scoped to a package identifier. A store commits a blob only
//! after checking that its bytes hash to the requested digest, and commits it
//! at most once: later stores of the same digest leave it untouched.

pub mod digest;
pub mod error;
pub mod laws;
pub mod local;
pub mod memory;
pub mod package;
pub mod store;

pub use digest::{Digest, DigestAlgorithm};
pub use error::{ContentStoreError, ErrorKind};
pub use package::PackageId;
pub use store::{check_upload, ContentStore};
pub use memory::MemoryContentStore;
pub use local::{commit_result, content_path, open_result, temp_path, OpenOutcome, RenameOutcome};
