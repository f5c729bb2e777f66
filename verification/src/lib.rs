//! A client-side library for nodes that describe their runtime with versioned,
//! self-describing metadata: an indexed metadata model, a structural type-hash
//! engine with a per-item cache, and the decision logic of the RPC and client
//! layers.

pub mod client;
pub mod error;
pub mod events;
pub mod metadata;
pub mod rpc;

pub use client::{OfflineClient, OfflineClientT, OnlineClient};
pub use error::{Error, RpcError};
pub use metadata::{EventMetadata, HashCache, InvalidMetadataError, Metadata, MetadataError};
