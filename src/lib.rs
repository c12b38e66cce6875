//! Cheap, deterministic fingerprints of file contents.
//!
//! A fingerprint hashes a bounded prefix of a file and, when the file is
//! longer than that prefix, a bounded suffix as well. The reads themselves
//! are left to the caller: this crate says which byte windows to read and
//! turns what was read into a comparable value.
pub mod digest;
pub mod sample;
pub mod imprint;
pub mod metadata;
pub mod laws;

pub use digest::Digest;
pub use imprint::Imprint;
pub use metadata::FileMetadataKey;
pub use sample::{head_window, probe, tail_window, ErrorKind, SampleWindow, SAMPLE_SIZE};
