//! The two tiers of client: one that works from what it was given, and one that
//! holds what was fetched from a node and can take a fresh fetch.

pub mod offline_client;
pub mod online_client;

pub use offline_client::{OfflineClient, OfflineClientT};
pub use online_client::OnlineClient;
