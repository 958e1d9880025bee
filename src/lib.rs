//! Fingerprints of an in-memory image buffer: its average colour, a content
//! digest of the raw bytes, and a perceptual block hash.
pub mod buffer_hash;
pub mod format;
pub mod decode;
pub mod avg_colour;
pub mod phash;
