//! Version resolution for package files: header validation, the version
//! tuple a header carries, and the queries that gate per-revision decoding.

pub mod archive;
pub mod error;
pub mod source;
pub mod version;

pub use archive::Archive;
pub use error::Error;
pub use source::{MemoryReader, SeekFrom};
pub use version::{ObjectVersion, ObjectVersionUE5};
