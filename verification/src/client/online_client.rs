//! What a client that talks to a node holds: the runtime version and the metadata
//! that were fetched together, replaced only together.

use crate::client::offline_client::OfflineClientT;
use crate::error::Error;
use crate::events::EventsClient;
use crate::metadata::Metadata;
use crate::rpc::{RpcRequest, RuntimeVersion};
use vstd::prelude::*;

verus! {

/// The state of a client that can be used to perform API calls: the runtime version
/// and the metadata of the node, which are only ever set as one. The connection
/// to the node is the caller's.
#[derive(Debug)]
pub struct OnlineClient {
    runtime_version: RuntimeVersion,
    metadata: Metadata,
}

impl OnlineClient {
    /// The two requests that must both be answered before a client exists: the
    /// runtime version at the latest block, and the metadata. They do not depend
    /// on each other.
    pub fn requests() -> (requests: (RpcRequest, RpcRequest))
        ensures
            requests.0@.method == "state_getRuntimeVersion"@,
            requests.0@.params == seq![crate::rpc::rpc::ParamView::Null],
            requests.0@.unsubscribe_method.is_none(),
            requests.1@.method == "state_getMetadata"@,
            requests.1@.params == Seq::<crate::rpc::rpc::ParamView>::empty(),
            requests.1@.unsubscribe_method.is_none(),
    {
        (RpcRequest::runtime_version(None), RpcRequest::metadata())
    }

    /// Construct a new [`OnlineClient`] from the outcomes of the two fetches. There
    /// is a client only if both succeeded; otherwise the error is that of the
    /// runtime version if it failed, and else that of the metadata.
    pub fn from_rpc_client(
        runtime_version: Result<RuntimeVersion, Error>,
        metadata: Result<Metadata, Error>,
    ) -> (out: Result<OnlineClient, Error>)
        ensures
            match (runtime_version, metadata) {
                (Ok(version), Ok(snapshot)) => out matches Ok(client) && client.version()
                    == version && client.snapshot() == snapshot,
                (Err(e), _) => out matches Err(err) && err == e,
                (Ok(_), Err(e)) => out matches Err(err) && err == e,
            },
    {
        let runtime_version = match runtime_version {
            Ok(version) => version,
            Err(e) => {
                return Err(e);
            },
        };
        let metadata = match metadata {
            Ok(snapshot) => snapshot,
            Err(e) => {
                return Err(e);
            },
        };
        Ok(OnlineClient { runtime_version, metadata })
    }

    /// The runtime version that the client holds.
    pub closed spec fn version(&self) -> RuntimeVersion {
        self.runtime_version
    }

    /// The metadata that the client holds.
    pub closed spec fn snapshot(&self) -> Metadata {
        self.metadata
    }

    /// Return the [`Metadata`] used in this client.
    pub fn metadata(&self) -> (metadata: Metadata)
        ensures
            metadata.runtime() == self.snapshot().runtime(),
            metadata.events() == self.snapshot().events(),
            metadata.cache() == self.snapshot().cache(),
    {
        self.metadata.clone()
    }

    /// The [`Metadata`] used in this client, to compute and cache hashes in.
    pub fn metadata_mut(&mut self) -> (metadata: &mut Metadata)
        ensures
            *metadata == old(self).snapshot(),
            final(self).snapshot() == *final(metadata),
            final(self).version() == old(self).version(),
    {
        &mut self.metadata
    }

    /// Return the runtime version.
    pub fn runtime_version(&self) -> (version: RuntimeVersion)
        ensures
            version@ == self.version()@,
    {
        self.runtime_version.clone()
    }

    /// Replace what the client holds by what a fresh fetch gave, for instance after
    /// a runtime upgrade. Both parts change at once: no reader meets the version
    /// of one fetch beside the metadata of another.
    pub fn set(&mut self, runtime_version: RuntimeVersion, metadata: Metadata)
        ensures
            final(self).version() == runtime_version,
            final(self).snapshot() == metadata,
    {
        *self = OnlineClient { runtime_version, metadata };
    }

    /// Work with events.
    pub fn events(&self) -> (events: EventsClient)
        ensures
            events.metadata().runtime() == self.snapshot().runtime(),
            events.metadata().events() == self.snapshot().events(),
            events.metadata().cache() == self.snapshot().cache(),
    {
        EventsClient::new(self.metadata())
    }
}

impl OfflineClientT for OnlineClient {
    open spec fn held_metadata(&self) -> Metadata {
        self.snapshot()
    }

    open spec fn held_version(&self) -> RuntimeVersion {
        self.version()
    }

    fn metadata(&self) -> (metadata: Metadata) {
        self.metadata()
    }

    fn runtime_version(&self) -> (version: RuntimeVersion) {
        self.runtime_version()
    }
}

} // verus!
