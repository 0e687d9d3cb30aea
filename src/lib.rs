//! A content-addressed file cache: each key is stored at a path derived from
//! the SHA-256 digest of its text, sharded by the first four hex digits.

pub mod cache;
pub mod digest;
pub mod hex;

pub use cache::{FilePathError, SimpleFileCache};
pub use digest::DIGEST_LEN;
