use chain_listener::events::{Events, EventsClient, RawEvent};
use chain_listener::metadata::portable::{
    Field, PortableRegistry, TypeDef, TypeDefPrimitive, Variant,
};
use chain_listener::metadata::runtime_metadata::{
    PalletEventMetadata, PalletMetadata, RuntimeMetadataPrefixed, RuntimeMetadataV14,
};
use chain_listener::{Error, Metadata, MetadataError};

fn metadata() -> Metadata {
    let types = vec![
        TypeDef::Variant(vec![Variant {
            name: "Transfer".to_owned(),
            fields: vec![Field { name: Some("amount".to_owned()), ty: 1 }],
            index: 3,
            docs: vec![],
        }]),
        TypeDef::Primitive(TypeDefPrimitive::U32),
    ];
    let pallets = vec![PalletMetadata {
        name: "Balances".to_owned(),
        storage: None,
        event: Some(PalletEventMetadata { ty: 0 }),
        index: 5,
    }];
    let runtime = RuntimeMetadataV14 { types: PortableRegistry { types }, pallets };
    Metadata::try_from(RuntimeMetadataPrefixed::from(runtime)).unwrap()
}

fn raw(pallet_index: u8, variant_index: u8, field_bytes: &[u8]) -> RawEvent {
    RawEvent { pallet_index, variant_index, field_bytes: field_bytes.to_vec() }
}

#[test]
fn an_unknown_event_fails_alone_and_the_block_goes_on() {
    let client = EventsClient::new(metadata());
    let first_block = client.at([1u8; 32], vec![]);
    assert!(first_block.is_empty());
    assert!(first_block.iter().is_empty());

    let second_block = client.at(
        [2u8; 32],
        vec![raw(5, 3, &[42, 0, 0, 0]), raw(9, 1, &[1]), raw(5, 3, &[7, 0, 0, 0])],
    );
    assert_eq!(second_block.len(), 3);
    assert_eq!(second_block.block_hash(), &[2u8; 32]);
    let resolved = second_block.iter();
    assert_eq!(resolved.len(), 3);

    let first = resolved[0].as_ref().unwrap();
    assert_eq!(first.pallet_name(), "Balances");
    assert_eq!(first.variant_name(), "Transfer");
    assert_eq!(first.index(), 0);
    assert_eq!(first.pallet_index(), 5);
    assert_eq!(first.variant_index(), 3);
    assert_eq!(first.fields(), &[(Some("amount".to_owned()), 1)]);
    assert_eq!(first.field_bytes(), &[42, 0, 0, 0]);

    assert_eq!(resolved[1], Err(Error::Metadata(MetadataError::EventNotFound(9, 1))));

    let third = resolved[2].as_ref().unwrap();
    assert_eq!(third.index(), 2);
    assert_eq!(third.field_bytes(), &[7, 0, 0, 0]);
}

#[test]
fn events_can_be_resolved_again_and_one_by_one() {
    let metadata = metadata();
    let block = Events::new(&metadata, 7u64, vec![raw(5, 3, &[]), raw(5, 4, &[])]);
    assert_eq!(block.iter(), block.iter());
    assert_eq!(block.get(0), block.iter()[0]);
    assert_eq!(block.get(1), Err(Error::Metadata(MetadataError::EventNotFound(5, 4))));
    assert_eq!(block.get(1), block.get(1));
}

#[test]
fn the_events_subscription_is_that_of_new_blocks() {
    let request = EventsClient::new(metadata()).subscribe();
    assert_eq!(request.method, "chain_subscribeNewHeads");
    assert!(request.params.is_empty());
    assert_eq!(request.unsubscribe_method, Some("chain_unsubscribeNewHeads".to_owned()));
}
