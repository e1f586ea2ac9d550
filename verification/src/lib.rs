//! Inspection of raw partitions without mounting them: signature detection and
//! superblock decoding for five filesystem families, capability negotiation,
//! and the rules of the block bridge and of the ext4 access layer.

pub mod bridge;
pub mod browse;
pub mod bytes;
pub mod capability;
pub mod conformance;
pub mod device;
pub mod digest;
pub mod engine;
pub mod entry;
pub mod error;
pub mod geometry;
pub mod inspect;
pub mod list;
pub mod read;
pub mod recent;
pub mod signature;
pub mod text;
pub mod volume;
pub mod write;
