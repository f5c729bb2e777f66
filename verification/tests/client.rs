use chain_listener::events::RawEvent;
use chain_listener::metadata::portable::{PortableRegistry, TypeDef, Variant};
use chain_listener::metadata::runtime_metadata::{
    PalletEventMetadata, PalletMetadata, RuntimeMetadata, RuntimeMetadataPrefixed,
    RuntimeMetadataV14,
};
use chain_listener::rpc::rpc::metadata_from_response;
use chain_listener::rpc::{Param, RuntimeVersion};
use chain_listener::{
    Error, InvalidMetadataError, Metadata, MetadataError, OfflineClient, OfflineClientT,
    OnlineClient, RpcError,
};

fn version(spec_version: u32) -> RuntimeVersion {
    RuntimeVersion { spec_version, transaction_version: 1, other: vec![] }
}

fn prefixed() -> RuntimeMetadataPrefixed {
    RuntimeMetadataPrefixed::from(RuntimeMetadataV14 {
        types: PortableRegistry { types: vec![] },
        pallets: vec![],
    })
}

fn metadata() -> Metadata {
    Metadata::try_from(prefixed()).unwrap()
}

#[test]
fn no_client_when_the_metadata_fetch_fails() {
    let failed = metadata_from_response(Err(Error::Rpc(RpcError("connection reset".to_owned()))));
    let client = OnlineClient::from_rpc_client(Ok(version(1)), failed);
    assert_eq!(client.unwrap_err(), Error::Rpc(RpcError("connection reset".to_owned())));

    let undecodable = metadata_from_response(Err(Error::Codec("unexpected end".to_owned())));
    let client = OnlineClient::from_rpc_client(Ok(version(1)), undecodable);
    assert_eq!(client.unwrap_err(), Error::Codec("unexpected end".to_owned()));
}

#[test]
fn no_client_when_the_metadata_is_invalid() {
    let invalid = metadata_from_response(Ok(RuntimeMetadataPrefixed(
        1,
        RuntimeMetadata::Unsupported(14),
    )));
    let client = OnlineClient::from_rpc_client(Ok(version(1)), invalid);
    assert_eq!(
        client.unwrap_err(),
        Error::InvalidMetadata(InvalidMetadataError::InvalidPrefix)
    );
}

#[test]
fn no_client_when_the_runtime_version_fetch_fails() {
    let client = OnlineClient::from_rpc_client(
        Err(Error::Serialization("missing field `specVersion`".to_owned())),
        Ok(metadata()),
    );
    assert_eq!(
        client.unwrap_err(),
        Error::Serialization("missing field `specVersion`".to_owned())
    );
    // when both fail, the error of the runtime version is the one returned
    let client = OnlineClient::from_rpc_client(
        Err(Error::Other("first".to_owned())),
        Err(Error::Other("second".to_owned())),
    );
    assert_eq!(client.unwrap_err(), Error::Other("first".to_owned()));
}

#[test]
fn a_client_holds_what_both_fetches_gave() {
    let client =
        OnlineClient::from_rpc_client(Ok(version(9)), metadata_from_response(Ok(prefixed())));
    let mut client = client.unwrap();
    assert_eq!(client.runtime_version(), version(9));
    assert!(client.metadata().runtime_metadata().pallets.is_empty());
    assert_eq!(
        client.metadata_mut().storage_hash("System", "Account"),
        Err(MetadataError::PalletNotFound)
    );
    assert_eq!(client.events().subscribe().method, "chain_subscribeNewHeads");
}

#[test]
fn a_refresh_replaces_version_and_metadata_together() {
    let mut client = OnlineClient::from_rpc_client(Ok(version(1)), Ok(metadata())).unwrap();
    let mut cached = metadata();
    let _ = cached.storage_hash("A", "B");
    client.set(version(2), cached);
    assert_eq!(client.runtime_version().spec_version, 2);
    assert_eq!(
        client.metadata_mut().cached_storage_hashes().get("A", "B"),
        Some(Err(MetadataError::PalletNotFound))
    );
}

#[test]
fn the_first_requests_are_version_and_metadata() {
    let (version, metadata) = OnlineClient::requests();
    assert_eq!(version.method, "state_getRuntimeVersion");
    assert_eq!(version.params, vec![Param::Null]);
    assert_eq!(metadata.method, "state_getMetadata");
    assert!(metadata.params.is_empty());
}

#[test]
fn an_offline_client_gives_back_what_it_was_given() {
    let mut client = OfflineClient::new([3u8; 32], version(4), metadata());
    assert_eq!(client.genesis_hash(), &[3u8; 32]);
    assert_eq!(client.runtime_version(), version(4));
    assert!(client.metadata().runtime_metadata().pallets.is_empty());
    assert_eq!(OfflineClientT::runtime_version(&client), version(4));
    assert_eq!(OfflineClientT::events(&client).subscribe().method, "chain_subscribeNewHeads");
    assert!(OfflineClientT::metadata(&client).event(0, 0).is_err());
    assert_eq!(
        client.metadata_mut().storage_hash("System", "Account"),
        Err(MetadataError::PalletNotFound)
    );
    assert!(client.events().at(0u8, vec![]).is_empty());
}

#[test]
fn a_copy_of_the_metadata_holds_what_was_cached() {
    let mut client = OfflineClient::new(0u8, version(1), metadata());
    let first = client.metadata_mut().storage_hash("System", "Account");
    let mut copy = client.metadata();
    assert_eq!(copy.cached_storage_hashes().get("System", "Account"), Some(first));
    assert_eq!(copy.runtime_metadata(), client.metadata().runtime_metadata());
}

#[test]
fn errors_wrap_what_they_come_from() {
    assert_eq!(Error::from("text".to_owned()), Error::Other("text".to_owned()));
    assert_eq!(
        Error::from(RpcError("down".to_owned())),
        Error::Rpc(RpcError("down".to_owned()))
    );
    assert_eq!(
        Error::from(InvalidMetadataError::MissingType(3)),
        Error::InvalidMetadata(InvalidMetadataError::MissingType(3))
    );
    assert_eq!(
        Error::from(MetadataError::EventNotFound(1, 2)),
        Error::Metadata(MetadataError::EventNotFound(1, 2))
    );
}

fn events_of<C: OfflineClientT>(client: &C, records: Vec<RawEvent>) -> Vec<Result<String, Error>> {
    client
        .events()
        .at(0u8, records)
        .iter()
        .into_iter()
        .map(|event| event.map(|details| details.variant_name().to_owned()))
        .collect()
}

#[test]
fn the_events_of_any_client_resolve_against_its_metadata() {
    let runtime = RuntimeMetadataV14 {
        types: PortableRegistry {
            types: vec![TypeDef::Variant(vec![Variant {
                name: "Started".to_owned(),
                fields: vec![],
                index: 1,
                docs: vec![],
            }])],
        },
        pallets: vec![PalletMetadata {
            name: "Engine".to_owned(),
            storage: None,
            event: Some(PalletEventMetadata { ty: 0 }),
            index: 8,
        }],
    };
    let snapshot = Metadata::try_from(RuntimeMetadataPrefixed::from(runtime)).unwrap();
    let records = vec![
        RawEvent { pallet_index: 8, variant_index: 1, field_bytes: vec![] },
        RawEvent { pallet_index: 8, variant_index: 2, field_bytes: vec![] },
    ];
    let expected = vec![
        Ok("Started".to_owned()),
        Err(Error::Metadata(MetadataError::EventNotFound(8, 2))),
    ];
    let offline = OfflineClient::new(0u8, version(1), snapshot.clone());
    assert_eq!(events_of(&offline, records.clone()), expected);
    let online = OnlineClient::from_rpc_client(Ok(version(1)), Ok(snapshot)).unwrap();
    assert_eq!(events_of(&online, records), expected);
    // a client without that pallet knows neither event
    let bare = OfflineClient::new(0u8, version(1), metadata());
    let unknown = events_of(
        &bare,
        vec![RawEvent { pallet_index: 8, variant_index: 1, field_bytes: vec![] }],
    );
    assert_eq!(unknown, vec![Err(Error::Metadata(MetadataError::EventNotFound(8, 1)))]);
}
