//! The events of a block, resolved against the metadata one by one.

use crate::error::Error;
use crate::metadata::metadata_type::EventMetadataView;
use crate::metadata::{Metadata, MetadataError};
use crate::rpc::RpcRequest;
use vstd::prelude::*;

verus! {

/// One event as it comes out of a block: the indices that say which event it is,
/// and its fields, still encoded.
#[derive(Clone, Debug, PartialEq, Eq)]
pub struct RawEvent {
    pub pallet_index: u8,
    pub variant_index: u8,
    pub field_bytes: Vec<u8>,
}

/// An event of a block with what the metadata says of it: the names of its pallet
/// and variant, and the layout of its fields. The fields stay encoded until asked
/// for.
#[derive(Clone, Debug, PartialEq, Eq)]
pub struct EventDetails {
    index: usize,
    pallet_index: u8,
    variant_index: u8,
    pallet_name: String,
    variant_name: String,
    fields: Vec<(Option<String>, u32)>,
    field_bytes: Vec<u8>,
}

/// What an [`EventDetails`] holds.
pub ghost struct EventDetailsView {
    pub index: usize,
    pub pallet_index: u8,
    pub variant_index: u8,
    pub pallet_name: Seq<char>,
    pub variant_name: Seq<char>,
    pub fields: Seq<(Option<String>, u32)>,
    pub field_bytes: Seq<u8>,
}

impl View for EventDetails {
    type V = EventDetailsView;

    closed spec fn view(&self) -> EventDetailsView {
        EventDetailsView {
            index: self.index,
            pallet_index: self.pallet_index,
            variant_index: self.variant_index,
            pallet_name: self.pallet_name@,
            variant_name: self.variant_name@,
            fields: self.fields@,
            field_bytes: self.field_bytes@,
        }
    }
}

impl EventDetails {
    /// The position of the event in its block.
    pub fn index(&self) -> (index: usize)
        ensures
            index == self@.index,
    {
        self.index
    }

    /// The index of the pallet that the event originated from.
    pub fn pallet_index(&self) -> (index: u8)
        ensures
            index == self@.pallet_index,
    {
        self.pallet_index
    }

    /// The index of the event variant that the event originated from.
    pub fn variant_index(&self) -> (index: u8)
        ensures
            index == self@.variant_index,
    {
        self.variant_index
    }

    /// The name of the pallet from whence the event originated.
    pub fn pallet_name(&self) -> (name: &str)
        ensures
            name@ == self@.pallet_name,
    {
        self.pallet_name.as_str()
    }

    /// The name of the event (ie the name of the variant that it corresponds to).
    pub fn variant_name(&self) -> (name: &str)
        ensures
            name@ == self@.variant_name,
    {
        self.variant_name.as_str()
    }

    /// The names and types of the fields of the event, in order.
    pub fn fields(&self) -> (fields: &[(Option<String>, u32)])
        ensures
            fields@ == self@.fields,
    {
        self.fields.as_slice()
    }

    /// The encoded fields of the event.
    pub fn field_bytes(&self) -> (bytes: &[u8])
        ensures
            bytes@ == self@.field_bytes,
    {
        self.field_bytes.as_slice()
    }
}

/// What resolving the event `raw`, at position `index` of its block, against the
/// indexed `events` comes to: the details of the event where the index holds its
/// pair of indices, and otherwise the error that names the pair.
pub open spec fn resolves_to(
    events: Map<(u8, u8), EventMetadataView>,
    raw: RawEvent,
    index: usize,
    out: Result<EventDetails, Error>,
) -> bool {
    let key = (raw.pallet_index, raw.variant_index);
    if events.contains_key(key) {
        out matches Ok(details) && details@ == (EventDetailsView {
            index,
            pallet_index: raw.pallet_index,
            variant_index: raw.variant_index,
            pallet_name: events[key].pallet@,
            variant_name: events[key].event@,
            fields: events[key].fields,
            field_bytes: raw.field_bytes@,
        })
    } else {
        out == Err::<EventDetails, Error>(
            Error::Metadata(MetadataError::EventNotFound(raw.pallet_index, raw.variant_index)),
        )
    }
}

fn copy_fields(fields: &[(Option<String>, u32)]) -> (out: Vec<(Option<String>, u32)>)
    ensures
        out@ == fields@,
{
    let mut out: Vec<(Option<String>, u32)> = Vec::new();
    let mut i: usize = 0;
    while i < fields.len()
        invariant
            i <= fields.len(),
            out@ == fields@.take(i as int),
        decreases fields.len() - i,
    {
        let name = match &fields[i].0 {
            Some(name) => Some(name.clone()),
            None => None,
        };
        out.push((name, fields[i].1));
        i += 1;
        assert(out@ =~= fields@.take(i as int));
    }
    assert(fields@.take(fields@.len() as int) =~= fields@);
    out
}

fn copy_bytes(bytes: &Vec<u8>) -> (out: Vec<u8>)
    ensures
        out@ == bytes@,
{
    let mut out: Vec<u8> = Vec::new();
    let mut i: usize = 0;
    while i < bytes.len()
        invariant
            i <= bytes.len(),
            out@ == bytes@.take(i as int),
        decreases bytes.len() - i,
    {
        out.push(bytes[i]);
        i += 1;
        assert(out@ =~= bytes@.take(i as int));
    }
    assert(bytes@.take(bytes@.len() as int) =~= bytes@);
    out
}

/// The events of one block, bound to the metadata they are resolved against.
#[derive(Debug)]
pub struct Events<'a, H> {
    metadata: &'a Metadata,
    block_hash: H,
    records: Vec<RawEvent>,
}

impl<'a, H> Events<'a, H> {
    /// The events `records` of the block `block_hash`, to resolve against `metadata`.
    pub fn new(metadata: &'a Metadata, block_hash: H, records: Vec<RawEvent>) -> (events: Self)
        ensures
            events.metadata() == *metadata,
            events.hash() == block_hash,
            events.records() == records@,
    {
        Events { metadata, block_hash, records }
    }

    /// The metadata that the events are resolved against.
    pub closed spec fn metadata(&self) -> Metadata {
        *self.metadata
    }

    /// The hash of the block.
    pub closed spec fn hash(&self) -> H {
        self.block_hash
    }

    /// The events as they came out of the block.
    pub closed spec fn records(&self) -> Seq<RawEvent> {
        self.records@
    }

    /// The number of events.
    pub fn len(&self) -> (n: usize)
        ensures
            n == self.records().len(),
    {
        self.records.len()
    }

    /// Are there no events in this block?
    pub fn is_empty(&self) -> (none: bool)
        ensures
            none == (self.records().len() == 0),
    {
        self.records.len() == 0
    }

    /// Return the block hash that these events are from.
    pub fn block_hash(&self) -> (hash: &H)
        ensures
            *hash == self.hash(),
    {
        &self.block_hash
    }

    /// Resolve the event at position `index`. An event that the metadata does not
    /// know fails by itself: the events around it resolve as they would without it.
    pub fn get(&self, index: usize) -> (out: Result<EventDetails, Error>)
        requires
            index < self.records().len(),
        ensures
            resolves_to(self.metadata().events(), self.records()[index as int], index, out),
    {
        let raw = &self.records[index];
        match self.metadata.event(raw.pallet_index, raw.variant_index) {
            Ok(event) => Ok(
                EventDetails {
                    index,
                    pallet_index: raw.pallet_index,
                    variant_index: raw.variant_index,
                    pallet_name: event.pallet().to_owned(),
                    variant_name: event.event().to_owned(),
                    fields: copy_fields(event.fields()),
                    field_bytes: copy_bytes(&raw.field_bytes),
                },
            ),
            Err(e) => Err(Error::Metadata(e)),
        }
    }

    /// Resolve every event of the block, in order. The result has one item for each
    /// event, the details of the event or the error of that event alone.
    pub fn iter(&self) -> (out: Vec<Result<EventDetails, Error>>)
        ensures
            out@.len() == self.records().len(),
            forall|i: int|
                0 <= i < out@.len() ==> resolves_to(
                    self.metadata().events(),
                    self.records()[i],
                    i as usize,
                    #[trigger] out@[i],
                ),
    {
        let mut out: Vec<Result<EventDetails, Error>> = Vec::new();
        let mut i: usize = 0;
        while i < self.records.len()
            invariant
                i <= self.records.len(),
                out@.len() == i,
                forall|j: int|
                    0 <= j < i ==> resolves_to(
                        self.metadata().events(),
                        self.records()[j],
                        j as usize,
                        #[trigger] out@[j],
                    ),
            decreases self.records.len() - i,
        {
            let resolved = self.get(i);
            out.push(resolved);
            i += 1;
        }
        out
    }
}

/// A client for working with events, with the metadata of the client it was made
/// from.
#[derive(Debug)]
pub struct EventsClient {
    metadata: Metadata,
}

impl EventsClient {
    /// Create a new [`EventsClient`].
    pub fn new(metadata: Metadata) -> (client: Self)
        ensures
            client.metadata() == metadata,
    {
        EventsClient { metadata }
    }

    /// The metadata that events are resolved against.
    pub closed spec fn metadata(&self) -> Metadata {
        self.metadata
    }

    /// The subscription that delivers one item for each new block.
    pub fn subscribe(&self) -> (request: RpcRequest)
        ensures
            request@.method == "chain_subscribeNewHeads"@,
            request@.params == Seq::<crate::rpc::rpc::ParamView>::empty(),
            request@.unsubscribe_method == Some("chain_unsubscribeNewHeads"@),
    {
        RpcRequest::subscribe_blocks()
    }

    /// The events `records` of the block `block_hash`.
    pub fn at<H>(&self, block_hash: H, records: Vec<RawEvent>) -> (events: Events<'_, H>)
        ensures
            events.metadata() == self.metadata(),
            events.hash() == block_hash,
            events.records() == records@,
    {
        Events::new(&self.metadata, block_hash, records)
    }
}

} // verus!
