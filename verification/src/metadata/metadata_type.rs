//! The indexed representation of the runtime metadata received from a node.

use crate::metadata::hash_cache::{cache_step, HashCache, Outcome};
use crate::metadata::metadata_utils::{
    get_storage_hash, storage_hash, storage_hash_defined, NotFound,
};
use crate::metadata::portable::{Field, TypeDef, Variant};
use crate::metadata::shape::metadata_closed;
use crate::metadata::runtime_metadata::{
    PalletMetadata, RuntimeMetadata, RuntimeMetadataPrefixed, RuntimeMetadataV14, META_RESERVED,
};
use std::collections::HashMap;
use std::sync::Arc;
use vstd::prelude::*;

verus! {

broadcast use vstd::std_specs::hash::group_hash_axioms;

/// Metadata error originated from inspecting the internal representation of the runtime metadata.
#[derive(Clone, Copy, Debug, PartialEq, Eq, Structural)]
pub enum MetadataError {
    /// Module is not in metadata.
    PalletNotFound,
    /// Call is not in metadata.
    CallNotFound,
    /// Event is not in metadata: the pallet index and the event index that were asked for.
    EventNotFound(u8, u8),
    /// Storage is not in metadata.
    StorageNotFound,
    /// Constant is not in metadata.
    ConstantNotFound,
}

/// Error originated from converting prefixed runtime metadata to the indexed
/// [`Metadata`] representation.
#[derive(Clone, Copy, Debug, PartialEq, Eq, Structural)]
pub enum InvalidMetadataError {
    /// Invalid prefix
    InvalidPrefix,
    /// Invalid version
    InvalidVersion,
    /// Type missing from type registry
    MissingType(u32),
    /// Type was not a variant/enum type
    TypeDefNotVariant(u32),
}

/// What an [`EventMetadata`] holds.
pub ghost struct EventMetadataView {
    pub pallet: String,
    pub event: String,
    pub fields: Seq<(Option<String>, u32)>,
    pub docs: Seq<String>,
}

/// Metadata for specific events.
#[derive(Clone, Debug)]
pub struct EventMetadata {
    // The pallet name is shared across every event, so put it
    // behind an Arc to avoid lots of needless clones of it existing.
    pallet: Arc<String>,
    event: String,
    fields: Vec<(Option<String>, u32)>,
    docs: Vec<String>,
}

impl View for EventMetadata {
    type V = EventMetadataView;

    closed spec fn view(&self) -> EventMetadataView {
        EventMetadataView {
            pallet: *self.pallet,
            event: self.event,
            fields: self.fields@,
            docs: self.docs@,
        }
    }
}

impl EventMetadata {
    /// Get the name of the pallet from which the event was emitted.
    pub fn pallet(&self) -> (name: &str)
        ensures
            name@ == self@.pallet@,
    {
        self.pallet.as_str()
    }

    /// Get the name of the pallet event which was emitted.
    pub fn event(&self) -> (name: &str)
        ensures
            name@ == self@.event@,
    {
        self.event.as_str()
    }

    /// The names and types of each field in the event.
    pub fn fields(&self) -> (fields: &[(Option<String>, u32)])
        ensures
            fields@ == self@.fields,
    {
        self.fields.as_slice()
    }

    /// Documentation for this event.
    pub fn docs(&self) -> (docs: &[String])
        ensures
            docs@ == self@.docs,
    {
        self.docs.as_slice()
    }
}


/// Makes one more handle to a shared value with `Arc::clone`: the new handle points
/// to the same value.
#[verifier::external_body]
fn share<T>(handle: &Arc<T>) -> (shared: Arc<T>)
    ensures
        *shared == **handle,
{
    Arc::clone(handle)
}

/// The metadata of the event that `variant` declares for `pallet`.
pub open spec fn event_of(pallet: PalletMetadata, variant: Variant) -> EventMetadataView {
    EventMetadataView {
        pallet: pallet.name,
        event: variant.name,
        fields: Seq::new(
            variant.fields@.len(),
            |i: int| (variant.fields@[i].name, variant.fields@[i].ty),
        ),
        docs: variant.docs@,
    }
}

/// `events` with the events that the variants from position `from` on declare for
/// `pallet`, each under the pallet's index and its own. A later variant with the
/// index of an earlier one replaces it.
pub open spec fn insert_events(
    events: Map<(u8, u8), EventMetadataView>,
    pallet: PalletMetadata,
    variants: Seq<Variant>,
    from: nat,
) -> Map<(u8, u8), EventMetadataView>
    decreases variants.len() - from,
{
    if from >= variants.len() {
        events
    } else {
        insert_events(
            events.insert(
                (pallet.index, variants[from as int].index),
                event_of(pallet, variants[from as int]),
            ),
            pallet,
            variants,
            from + 1,
        )
    }
}

/// `events` with the events of the pallets from position `from` on, or the error of
/// the first of those pallets whose event type is not in the registry or is not an
/// enum-like type.
pub open spec fn index_events(
    metadata: RuntimeMetadataV14,
    from: nat,
    events: Map<(u8, u8), EventMetadataView>,
) -> Result<Map<(u8, u8), EventMetadataView>, InvalidMetadataError>
    decreases metadata.pallets@.len() - from,
{
    if from >= metadata.pallets@.len() {
        Ok(events)
    } else {
        let pallet = metadata.pallets@[from as int];
        match pallet.event {
            None => index_events(metadata, from + 1, events),
            Some(event) => if !metadata.types.resolves(event.ty) {
                Err(InvalidMetadataError::MissingType(event.ty))
            } else {
                match metadata.types.types@[event.ty as int] {
                    TypeDef::Variant(variants) => index_events(
                        metadata,
                        from + 1,
                        insert_events(events, pallet, variants@, 0),
                    ),
                    _ => Err(InvalidMetadataError::TypeDefNotVariant(event.ty)),
                }
            },
        }
    }
}

/// The event index of prefixed metadata, or why the metadata is refused: a wrong
/// prefix first, then a version that is not supported, then the first pallet whose
/// events cannot be indexed.
pub open spec fn parse(prefixed: RuntimeMetadataPrefixed) -> Result<
    Map<(u8, u8), EventMetadataView>,
    InvalidMetadataError,
> {
    if prefixed.0 != META_RESERVED {
        Err(InvalidMetadataError::InvalidPrefix)
    } else {
        match prefixed.1 {
            RuntimeMetadata::V14(metadata) => index_events(metadata, 0, Map::empty()),
            RuntimeMetadata::Unsupported(_) => Err(InvalidMetadataError::InvalidVersion),
        }
    }
}

/// Whether the pallet at position `p` has no event type, or an enum-like one of the
/// registry.
pub open spec fn event_type_is_variant(metadata: RuntimeMetadataV14, p: int) -> bool {
    metadata.pallets@[p].event matches Some(event) ==> metadata.types.resolves(event.ty)
        && metadata.types.types@[event.ty as int] is Variant
}

/// The indices under which the variant at position `v` of the event type of the
/// pallet at position `p` is an event, if there is such a variant.
pub open spec fn declared_event(metadata: RuntimeMetadataV14, p: int, v: int) -> Option<(u8, u8)> {
    if 0 <= p < metadata.pallets@.len() {
        match metadata.pallets@[p].event {
            Some(event) => if metadata.types.resolves(event.ty) {
                match metadata.types.types@[event.ty as int] {
                    TypeDef::Variant(variants) => if 0 <= v < variants@.len() {
                        Some((metadata.pallets@[p].index, variants@[v].index))
                    } else {
                        None
                    },
                    _ => None,
                }
            } else {
                None
            },
            None => None,
        }
    } else {
        None
    }
}

/// Inserting the events of a pallet keeps what was indexed before and indexes every
/// variant from `from` on.
pub proof fn lemma_insert_events_keys(
    events: Map<(u8, u8), EventMetadataView>,
    pallet: PalletMetadata,
    variants: Seq<Variant>,
    from: nat,
)
    ensures
        forall|key: (u8, u8)| #[trigger]
            events.contains_key(key) ==> insert_events(events, pallet, variants, from).contains_key(
                key,
            ),
        forall|v: int|
            from <= v < variants.len() ==> insert_events(
                events,
                pallet,
                variants,
                from,
            ).contains_key((pallet.index, #[trigger] variants[v].index)),
    decreases variants.len() - from,
{
    if from < variants.len() {
        let first = (pallet.index, variants[from as int].index);
        let next = events.insert(first, event_of(pallet, variants[from as int]));
        let all = insert_events(events, pallet, variants, from);
        lemma_insert_events_keys(next, pallet, variants, from + 1);
        assert(all == insert_events(next, pallet, variants, from + 1));
        assert forall|key: (u8, u8)| #[trigger] events.contains_key(key) implies all.contains_key(
            key,
        ) by {
            assert(next.contains_key(key));
        }
        assert forall|v: int| from <= v < variants.len() implies all.contains_key(
            (pallet.index, #[trigger] variants[v].index),
        ) by {
            if v == from {
                assert(next.contains_key(first));
            }
        }
    }
}

/// Indexing the pallets from `from` on succeeds exactly when each of them that has an
/// event type has an enum-like one of the registry. The index then keeps what was
/// indexed before and holds every event that those pallets declare.
pub proof fn lemma_index_events(
    metadata: RuntimeMetadataV14,
    from: nat,
    events: Map<(u8, u8), EventMetadataView>,
)
    ensures
        index_events(metadata, from, events) is Ok <==> (forall|p: int|
            from <= p < metadata.pallets@.len() ==> #[trigger] event_type_is_variant(metadata, p)),
        index_events(metadata, from, events) matches Ok(indexed) ==> {
            &&& forall|key: (u8, u8)| #[trigger]
                events.contains_key(key) ==> indexed.contains_key(key)
            &&& forall|p: int, v: int|
                from <= p && (#[trigger] declared_event(metadata, p, v)) is Some
                    ==> indexed.contains_key(declared_event(metadata, p, v)->0)
        },
    decreases metadata.pallets@.len() - from,
{
    let all = index_events(metadata, from, events);
    if from < metadata.pallets@.len() {
        let pallet = metadata.pallets@[from as int];
        match pallet.event {
            None => {
                lemma_index_events(metadata, from + 1, events);
                assert(all == index_events(metadata, from + 1, events));
                assert(event_type_is_variant(metadata, from as int));
                assert forall|p: int, v: int|
                    from <= p && (#[trigger] declared_event(metadata, p, v)) is Some implies p
                    >= from + 1 by {}
            },
            Some(event) => {
                if metadata.types.resolves(event.ty) {
                    match metadata.types.types@[event.ty as int] {
                        TypeDef::Variant(variants) => {
                            let next = insert_events(events, pallet, variants@, 0);
                            lemma_insert_events_keys(events, pallet, variants@, 0);
                            lemma_index_events(metadata, from + 1, next);
                            assert(all == index_events(metadata, from + 1, next));
                            assert(event_type_is_variant(metadata, from as int));
                            if all is Ok {
                                let indexed = all->Ok_0;
                                assert forall|key: (u8, u8)| #[trigger]
                                    events.contains_key(key) implies indexed.contains_key(key) by {
                                    assert(next.contains_key(key));
                                }
                                assert forall|p: int, v: int|
                                    from <= p && (#[trigger] declared_event(metadata, p, v))
                                        is Some implies indexed.contains_key(
                                    declared_event(metadata, p, v)->0,
                                ) by {
                                    if p == from {
                                        assert(next.contains_key(
                                            (pallet.index, variants@[v].index),
                                        ));
                                    }
                                }
                            }
                        },
                        _ => {
                            assert(all is Err);
                            assert(!event_type_is_variant(metadata, from as int));
                        },
                    }
                } else {
                    assert(all is Err);
                    assert(!event_type_is_variant(metadata, from as int));
                }
            },
        }
    }
}

/// Prefixed metadata is accepted exactly when its prefix is the reserved one, its
/// version is the supported one, and the event type of every pallet that has one is
/// an enum-like type of the registry. Every event that a pallet of accepted
/// metadata declares is then in the index.
pub proof fn lemma_parse_indexes_declared_events(prefixed: RuntimeMetadataPrefixed)
    ensures
        parse(prefixed) is Ok <==> prefixed.0 == META_RESERVED && (
        prefixed.1 matches RuntimeMetadata::V14(metadata) && forall|p: int|
            0 <= p < metadata.pallets@.len() ==> #[trigger] event_type_is_variant(metadata, p)),
        parse(prefixed) matches Ok(indexed) ==> (prefixed.1 matches RuntimeMetadata::V14(metadata)
            && forall|p: int, v: int|
            (#[trigger] declared_event(metadata, p, v)) is Some ==> indexed.contains_key(
                declared_event(metadata, p, v)->0,
            )),
        prefixed.0 != META_RESERVED ==> parse(prefixed) == Err::<
            Map<(u8, u8), EventMetadataView>,
            InvalidMetadataError,
        >(InvalidMetadataError::InvalidPrefix),
        prefixed.0 == META_RESERVED && prefixed.1 is Unsupported ==> parse(prefixed) == Err::<
            Map<(u8, u8), EventMetadataView>,
            InvalidMetadataError,
        >(InvalidMetadataError::InvalidVersion),
{
    if prefixed.0 == META_RESERVED {
        match prefixed.1 {
            RuntimeMetadata::V14(metadata) => {
                lemma_index_events(metadata, 0, Map::empty());
            },
            RuntimeMetadata::Unsupported(_) => {},
        }
    }
}

/// What `storage_hash` stores and returns for the two names.
pub open spec fn storage_outcome(
    metadata: RuntimeMetadataV14,
    pallet: Seq<char>,
    storage: Seq<char>,
    outcome: Outcome,
) -> bool {
    match storage_hash(metadata, pallet, storage) {
        Ok(h) => outcome matches Ok(o) && o@ == h,
        Err(NotFound::Pallet) => outcome == Err::<[u8; 32], MetadataError>(
            MetadataError::PalletNotFound,
        ),
        Err(NotFound::Item) => outcome == Err::<[u8; 32], MetadataError>(
            MetadataError::StorageNotFound,
        ),
    }
}

/// The key of an event in the index: the pallet index in the high byte, the event
/// index in the low byte.
pub open spec fn event_key(pallet_index: u8, event_index: u8) -> u16 {
    (pallet_index * 256 + event_index) as u16
}

fn make_event_key(pallet_index: u8, event_index: u8) -> (key: u16)
    ensures
        key == event_key(pallet_index, event_index),
{
    let high: u16 = pallet_index as u16;
    let low: u16 = event_index as u16;
    high * 256 + low
}

/// The immutable part of a snapshot.
#[derive(Debug)]
struct MetadataInner {
    metadata: RuntimeMetadataV14,
    events: HashMap<u16, EventMetadata>,
}

/// A representation of the runtime metadata received from a node: the metadata of
/// the supported version, an index of its events, and a cache of storage hashes.
/// It is built only by [`Metadata::try_from`], from metadata that passed validation.
#[derive(Debug)]
pub struct Metadata {
    inner: Arc<MetadataInner>,
    cached_storage_hashes: HashCache,
}

impl Clone for Metadata {
    /// One more handle to the same snapshot, with a cache of its own that holds what
    /// the cache of this one holds.
    fn clone(&self) -> (copy: Metadata)
        ensures
            copy.runtime() == self.runtime(),
            copy.events() == self.events(),
            copy.cache() == self.cache(),
    {
        Metadata {
            inner: share(&self.inner),
            cached_storage_hashes: self.cached_storage_hashes.clone(),
        }
    }
}

impl Metadata {
    /// The runtime metadata of the snapshot.
    pub closed spec fn runtime(&self) -> RuntimeMetadataV14 {
        self.inner.metadata
    }

    /// The events of the snapshot by pallet index and event index.
    pub closed spec fn events(&self) -> Map<(u8, u8), EventMetadataView> {
        Map::new(
            |key: (u8, u8)| self.inner.events@.contains_key(event_key(key.0, key.1)),
            |key: (u8, u8)| self.inner.events@[event_key(key.0, key.1)]@,
        )
    }

    /// The storage hashes that are cached.
    pub closed spec fn cache(&self) -> Map<(Seq<char>, Seq<char>), Outcome> {
        self.cached_storage_hashes@
    }

    /// Whether every cached outcome is the one that the snapshot gives for its key.
    pub open spec fn coherent(&self) -> bool {
        forall|key: (Seq<char>, Seq<char>)| #[trigger]
            self.cache().contains_key(key) ==> storage_outcome(
                self.runtime(),
                key.0,
                key.1,
                self.cache()[key],
            )
    }

    /// Returns the metadata for the event at the given pallet and event indices.
    pub fn event(&self, pallet_index: u8, event_index: u8) -> (out: Result<
        &EventMetadata,
        MetadataError,
    >)
        ensures
            match out {
                Ok(event) => self.events().contains_key((pallet_index, event_index))
                    && event@ == self.events()[(pallet_index, event_index)],
                Err(e) => !self.events().contains_key((pallet_index, event_index)) && e
                    == MetadataError::EventNotFound(pallet_index, event_index),
            },
    {
        let key = make_event_key(pallet_index, event_index);
        match self.inner.events.get(&key) {
            Some(event) => Ok(event),
            None => Err(MetadataError::EventNotFound(pallet_index, event_index)),
        }
    }

    /// Return the runtime metadata.
    pub fn runtime_metadata(&self) -> (metadata: &RuntimeMetadataV14)
        ensures
            *metadata == self.runtime(),
    {
        &self.inner.metadata
    }
}


/// The names and type ids of the fields of a variant.
fn event_fields(fields: &Vec<Field>) -> (out: Vec<(Option<String>, u32)>)
    ensures
        out@ == Seq::new(fields@.len(), |i: int| (fields@[i].name, fields@[i].ty)),
{
    let mut out: Vec<(Option<String>, u32)> = Vec::new();
    let mut i: usize = 0;
    while i < fields.len()
        invariant
            i <= fields.len(),
            out@ == Seq::new(i as nat, |j: int| (fields@[j].name, fields@[j].ty)),
        decreases fields.len() - i,
    {
        let name = match &fields[i].name {
            Some(name) => Some(name.clone()),
            None => None,
        };
        out.push((name, fields[i].ty));
        i += 1;
        assert(out@ =~= Seq::new(i as nat, |j: int| (fields@[j].name, fields@[j].ty)));
    }
    out
}

/// A copy of the documentation lines.
fn copy_lines(lines: &Vec<String>) -> (out: Vec<String>)
    ensures
        out@ == lines@,
{
    let mut out: Vec<String> = Vec::new();
    let mut i: usize = 0;
    while i < lines.len()
        invariant
            i <= lines.len(),
            out@ == lines@.take(i as int),
        decreases lines.len() - i,
    {
        out.push(lines[i].clone());
        i += 1;
        assert(out@ =~= lines@.take(i as int));
    }
    assert(lines@.take(lines@.len() as int) =~= lines@);
    out
}

/// The index of a map of events by key, by pallet index and event index.
spec fn events_by_index(events: Map<u16, EventMetadata>) -> Map<(u8, u8), EventMetadataView> {
    Map::new(
        |key: (u8, u8)| events.contains_key(event_key(key.0, key.1)),
        |key: (u8, u8)| events[event_key(key.0, key.1)]@,
    )
}

/// Storing an event under the key of a pair of indices stores it under the pair.
proof fn lemma_events_by_index_insert(
    events: Map<u16, EventMetadata>,
    pallet_index: u8,
    event_index: u8,
    event: EventMetadata,
)
    ensures
        events_by_index(events.insert(event_key(pallet_index, event_index), event))
            == events_by_index(events).insert((pallet_index, event_index), event@),
{
    let after = events_by_index(events.insert(event_key(pallet_index, event_index), event));
    let expected = events_by_index(events).insert((pallet_index, event_index), event@);
    assert forall|key: (u8, u8)| key != (pallet_index, event_index) implies event_key(key.0, key.1)
        != event_key(pallet_index, event_index) by {}
    assert(after =~= expected);
}

impl Metadata {
    /// Obtain the unique hash for a specific storage entry. The outcome of the first
    /// call for a pair of names is cached, and returned by every later call for it.
    pub fn storage_hash(&mut self, pallet: &str, storage: &str) -> (out: Result<
        [u8; 32],
        MetadataError,
    >)
        requires
            !old(self).cache().contains_key((pallet@, storage@)) ==> storage_hash_defined(
                old(self).runtime(),
                pallet@,
                storage@,
            ),
        ensures
            final(self).runtime() == old(self).runtime(),
            final(self).events() == old(self).events(),
            cache_step(old(self).cache(), (pallet@, storage@), final(self).cache(), out),
            !old(self).cache().contains_key((pallet@, storage@)) ==> storage_outcome(
                old(self).runtime(),
                pallet@,
                storage@,
                out,
            ),
            old(self).coherent() ==> final(self).coherent() && storage_outcome(
                old(self).runtime(),
                pallet@,
                storage@,
                out,
            ),
    {
        let inner = &self.inner;
        let compute = || -> (outcome: Outcome)
            requires
                storage_hash_defined(inner.metadata, pallet@, storage@),
            ensures
                storage_outcome(inner.metadata, pallet@, storage@, outcome),
            {
                match get_storage_hash(&inner.metadata, pallet, storage) {
                    Ok(hash) => Ok(hash),
                    Err(NotFound::Pallet) => Err(MetadataError::PalletNotFound),
                    Err(NotFound::Item) => Err(MetadataError::StorageNotFound),
                }
            };
        let out = self.cached_storage_hashes.get_or_insert(pallet, storage, compute);
        proof {
            if old(self).coherent() {
                assert(old(self).cache().contains_key((pallet@, storage@)) ==> storage_outcome(
                    old(self).runtime(),
                    pallet@,
                    storage@,
                    out,
                ));
            }
        }
        out
    }

    /// Obtain the unique hash for a specific storage entry where it is known to be
    /// defined: the names are cached already, or the metadata is closed. Otherwise
    /// nothing is computed and nothing changes.
    pub fn try_storage_hash(&mut self, pallet: &str, storage: &str) -> (out: Option<
        Result<[u8; 32], MetadataError>,
    >)
        ensures
            out is None <==> !old(self).cache().contains_key((pallet@, storage@))
                && !metadata_closed(old(self).runtime()),
            out is None ==> *final(self) == *old(self),
            final(self).runtime() == old(self).runtime(),
            final(self).events() == old(self).events(),
            out matches Some(hash) ==> {
                &&& cache_step(old(self).cache(), (pallet@, storage@), final(self).cache(), hash)
                &&& !old(self).cache().contains_key((pallet@, storage@)) ==> storage_outcome(
                    old(self).runtime(),
                    pallet@,
                    storage@,
                    hash,
                )
                &&& old(self).coherent() ==> final(self).coherent() && storage_outcome(
                    old(self).runtime(),
                    pallet@,
                    storage@,
                    hash,
                )
            },
    {
        if self.cached_storage_hashes.get(pallet, storage).is_some()
            || self.inner.metadata.is_closed() {
            Some(self.storage_hash(pallet, storage))
        } else {
            None
        }
    }

    /// The cache of storage hashes. What is stored through this handle is what
    /// `storage_hash` returns from then on.
    pub fn cached_storage_hashes(&mut self) -> (cache: &mut HashCache)
        ensures
            cache@ == old(self).cache(),
            final(self).cache() == final(cache)@,
            final(self).runtime() == old(self).runtime(),
            final(self).events() == old(self).events(),
    {
        &mut self.cached_storage_hashes
    }
}


impl TryFrom<RuntimeMetadataPrefixed> for Metadata {
    type Error = InvalidMetadataError;

    /// Index prefixed runtime metadata. The metadata is refused unless its prefix is
    /// [`META_RESERVED`], its version is the supported one, and the event type of
    /// every pallet that has one is an enum-like type of the registry.
    fn try_from(metadata: RuntimeMetadataPrefixed) -> (out: Result<Self, Self::Error>)
        ensures
            match parse(metadata) {
                Ok(events) => out matches Ok(indexed) && metadata.1 == RuntimeMetadata::V14(
                    indexed.runtime(),
                ) && indexed.events() == events && indexed.cache() == Map::<
                    (Seq<char>, Seq<char>),
                    Outcome,
                >::empty() && indexed.coherent(),
                Err(e) => out matches Err(err) && err == e,
            },
            out matches Ok(indexed) ==> forall|p: int, v: int|
                (#[trigger] declared_event(indexed.runtime(), p, v)) is Some
                    ==> indexed.events().contains_key(declared_event(indexed.runtime(), p, v)->0),
    {
        proof {
            lemma_parse_indexes_declared_events(metadata);
        }
        if metadata.0 != META_RESERVED {
            return Err(InvalidMetadataError::InvalidPrefix);
        }
        let runtime = match metadata.1 {
            RuntimeMetadata::V14(runtime) => runtime,
            _ => {
                return Err(InvalidMetadataError::InvalidVersion);
            },
        };

        let mut events: HashMap<u16, EventMetadata> = HashMap::new();
        assert(events_by_index(events@) =~= Map::<(u8, u8), EventMetadataView>::empty());
        let mut p: usize = 0;
        while p < runtime.pallets.len()
            invariant
                p <= runtime.pallets.len(),
                parse(metadata) == index_events(runtime, 0, Map::empty()),
                index_events(runtime, p as nat, events_by_index(events@)) == index_events(
                    runtime,
                    0,
                    Map::empty(),
                ),
            decreases runtime.pallets.len() - p,
        {
            let pallet = &runtime.pallets[p];
            if let Some(event) = &pallet.event {
                let pallet_name: Arc<String> = Arc::new(pallet.name.clone());
                let event_type_id = event.ty;
                let variants = match runtime.types.resolve(event_type_id) {
                    None => {
                        return Err(InvalidMetadataError::MissingType(event_type_id));
                    },
                    Some(TypeDef::Variant(variants)) => variants,
                    Some(_) => {
                        return Err(InvalidMetadataError::TypeDefNotVariant(event_type_id));
                    },
                };
                let ghost before = events_by_index(events@);
                let mut v: usize = 0;
                while v < variants.len()
                    invariant
                        v <= variants.len(),
                        *pallet_name == pallet.name,
                        insert_events(events_by_index(events@), *pallet, variants@, v as nat)
                            == insert_events(before, *pallet, variants@, 0),
                    decreases variants.len() - v,
                {
                    let variant = &variants[v];
                    let event_metadata = EventMetadata {
                        pallet: share(&pallet_name),
                        event: variant.name.clone(),
                        fields: event_fields(&variant.fields),
                        docs: copy_lines(&variant.docs),
                    };
                    proof {
                        assert(event_metadata@ == event_of(*pallet, *variant));
                        lemma_events_by_index_insert(
                            events@,
                            pallet.index,
                            variant.index,
                            event_metadata,
                        );
                    }
                    events.insert(make_event_key(pallet.index, variant.index), event_metadata);
                    v += 1;
                }
            }
            p += 1;
        }

        let indexed = Metadata {
            inner: Arc::new(MetadataInner { metadata: runtime, events }),
            cached_storage_hashes: HashCache::new(),
        };
        assert(indexed.events() =~= events_by_index(events@));
        Ok(indexed)
    }
}

impl vstd::std_specs::convert::TryFromSpecImpl<RuntimeMetadataPrefixed> for Metadata {
    /// The result holds a map that is filled as the metadata is read: it is stated by
    /// the contract of `try_from`, over [`parse`].
    open spec fn obeys_try_from_spec() -> bool {
        false
    }

    open spec fn try_from_spec(metadata: RuntimeMetadataPrefixed) -> Result<
        Metadata,
        InvalidMetadataError,
    > {
        arbitrary()
    }
}

} // verus!
