//! Best-effort decoding of byte buffers whose character encoding is unknown.
//!
//! A buffer goes through detection, alias correction, one decode under the
//! detected encoding and, if that decode is not clean, a fixed ladder of
//! common encodings. Every buffer yields a string; only the quality of the
//! decoding degrades.
//!
//! Beside the cascade stands the rule by which a directory tree is mirrored:
//! which failures of the file system end the copy and which do not.

pub mod cascade;
pub mod detector;
pub mod engine;
pub mod label;
pub mod ladder;
pub mod mirror;
pub mod signal;

pub use cascade::{decode_buffer, decode_with_signals, DecodeResult};
pub use engine::{decode, DecodeAttempt, DecodeError};
pub use label::resolve_alias;
pub use ladder::try_common_encodings;
pub use signal::DetectionSignal;
