//! Types representing the metadata obtained from a node.

pub mod hash_cache;
pub mod metadata_type;
pub mod metadata_utils;
pub mod portable;
pub mod runtime_metadata;
pub mod shape;

pub use hash_cache::HashCache;
pub use metadata_type::{EventMetadata, InvalidMetadataError, Metadata, MetadataError};
