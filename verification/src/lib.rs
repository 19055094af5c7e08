//! KeyTide: one local file becomes an authenticated AES-256-GCM container plus a separate
//! 44-byte key file, and both halves together give the file back.
//!
//! The byte formats, the container and key parsers, the encryption pipeline around the
//! cipher, the filename rules, the error texts and the desktop workflow's decisions are
//! verified here. Reading and writing files is left to the application around the
//! library.
pub mod bytes;
pub mod error;
pub mod format;
pub mod key;
pub mod names;
pub mod ops;
pub mod size;
pub mod text;
pub mod workflow;
mod outside;

pub use error::KeyTideError;
pub use outside::{aes256_gcm_open, aes256_gcm_seal, aes_gcm_input_max, aes_gcm_tag_len};
