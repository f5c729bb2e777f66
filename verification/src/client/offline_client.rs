//! A client for what needs no node.

use crate::events::EventsClient;
use crate::metadata::Metadata;
use crate::rpc::RuntimeVersion;
use vstd::prelude::*;

verus! {

/// A trait representing a client that can perform
/// offline-only actions: it holds the metadata and the runtime version of a node,
/// and gives out copies of them.
pub trait OfflineClientT {
    /// The metadata that the client holds.
    spec fn held_metadata(&self) -> Metadata;

    /// The runtime version that the client holds.
    spec fn held_version(&self) -> RuntimeVersion;

    /// Return the provided [`Metadata`].
    fn metadata(&self) -> (metadata: Metadata)
        ensures
            metadata.runtime() == self.held_metadata().runtime(),
            metadata.events() == self.held_metadata().events(),
            metadata.cache() == self.held_metadata().cache(),
    ;

    /// Return the provided [`RuntimeVersion`].
    fn runtime_version(&self) -> (version: RuntimeVersion)
        ensures
            version@ == self.held_version()@,
    ;

    /// Work with events: a client for the events of blocks, which resolves them
    /// against the metadata that this client holds.
    fn events(&self) -> (events: EventsClient)
        ensures
            events.metadata().runtime() == self.held_metadata().runtime(),
            events.metadata().events() == self.held_metadata().events(),
            events.metadata().cache() == self.held_metadata().cache(),
    {
        EventsClient::new(self.metadata())
    }
}

/// A client that is capable of performing offline-only operations.
/// Can be constructed as long as you can populate the required fields.
#[derive(Debug)]
pub struct OfflineClient<H> {
    genesis_hash: H,
    runtime_version: RuntimeVersion,
    metadata: Metadata,
}

impl<H> OfflineClient<H> {
    /// Construct a new [`OfflineClient`], providing
    /// the necessary runtime and compile-time arguments.
    pub fn new(genesis_hash: H, runtime_version: RuntimeVersion, metadata: Metadata) -> (client:
        Self)
        ensures
            client.genesis() == genesis_hash,
            client.version() == runtime_version,
            client.snapshot() == metadata,
    {
        OfflineClient { genesis_hash, runtime_version, metadata }
    }

    /// The genesis hash that the client was given.
    pub closed spec fn genesis(&self) -> H {
        self.genesis_hash
    }

    /// The runtime version that the client was given.
    pub closed spec fn version(&self) -> RuntimeVersion {
        self.runtime_version
    }

    /// The metadata that the client holds.
    pub closed spec fn snapshot(&self) -> Metadata {
        self.metadata
    }

    /// Return the genesis hash.
    pub fn genesis_hash(&self) -> (hash: &H)
        ensures
            *hash == self.genesis(),
    {
        &self.genesis_hash
    }

    /// Return the runtime version.
    pub fn runtime_version(&self) -> (version: RuntimeVersion)
        ensures
            version@ == self.version()@,
    {
        self.runtime_version.clone()
    }

    /// Return the [`Metadata`] used in this client.
    pub fn metadata(&self) -> (metadata: Metadata)
        ensures
            metadata.runtime() == self.snapshot().runtime(),
            metadata.events() == self.snapshot().events(),
            metadata.cache() == self.snapshot().cache(),
    {
        self.metadata.clone()
    }

    /// The [`Metadata`] used in this client, to compute and cache hashes in. The
    /// runtime metadata and the event index stay what they are.
    pub fn metadata_mut(&mut self) -> (metadata: &mut Metadata)
        ensures
            *metadata == old(self).snapshot(),
            final(self).snapshot() == *final(metadata),
            final(self).genesis() == old(self).genesis(),
            final(self).version() == old(self).version(),
    {
        &mut self.metadata
    }

    /// Work with events.
    pub fn events(&self) -> (events: EventsClient)
        ensures
            events.metadata().runtime() == self.snapshot().runtime(),
            events.metadata().events() == self.snapshot().events(),
            events.metadata().cache() == self.snapshot().cache(),
    {
        EventsClient::new(self.metadata())
    }
}

impl<H> OfflineClientT for OfflineClient<H> {
    open spec fn held_metadata(&self) -> Metadata {
        self.snapshot()
    }

    open spec fn held_version(&self) -> RuntimeVersion {
        self.version()
    }

    fn metadata(&self) -> (metadata: Metadata) {
        self.metadata()
    }

    fn runtime_version(&self) -> (version: RuntimeVersion) {
        self.runtime_version()
    }
}

} // verus!
