use chain_listener::metadata::metadata_utils::{get_storage_hash, hash_hashes, xor, NotFound};
use chain_listener::metadata::portable::{
    Field, PortableRegistry, TypeDef, TypeDefPrimitive, Variant,
};
use chain_listener::metadata::runtime_metadata::{
    metadata_payload, PalletEventMetadata, PalletMetadata, PalletStorageMetadata, RuntimeMetadata,
    RuntimeMetadataPrefixed, RuntimeMetadataV14, StorageEntryMetadata, StorageEntryModifier,
    StorageEntryType, StorageHasher, META_RESERVED,
};
use chain_listener::{Error, InvalidMetadataError, Metadata, MetadataError};
use sp_crypto_hashing::twox_256;

fn account_entry() -> StorageEntryMetadata {
    StorageEntryMetadata {
        name: "Account".to_owned(),
        modifier: StorageEntryModifier::Optional,
        ty: StorageEntryType::Plain(2),
        default: vec![0],
        docs: vec![],
    }
}

fn runtime_metadata() -> RuntimeMetadataV14 {
    // 0: the calls of the pallet, 1: u128, 2: u32, 3: the unit type
    let types = vec![
        TypeDef::Variant(vec![Variant {
            name: "fill_block".to_owned(),
            fields: vec![Field { name: Some("param".to_owned()), ty: 1 }],
            index: 0,
            docs: vec![],
        }]),
        TypeDef::Primitive(TypeDefPrimitive::U128),
        TypeDef::Primitive(TypeDefPrimitive::U32),
        TypeDef::Tuple(vec![]),
    ];
    let storage = PalletStorageMetadata {
        prefix: "System".to_owned(),
        entries: vec![account_entry()],
    };
    let pallet = PalletMetadata {
        index: 0,
        name: "System".to_owned(),
        storage: Some(storage),
        event: None,
    };
    RuntimeMetadataV14 { types: PortableRegistry { types }, pallets: vec![pallet] }
}

fn load_metadata() -> Metadata {
    let prefixed = RuntimeMetadataPrefixed::from(runtime_metadata());

    Metadata::try_from(prefixed).expect("Cannot index the runtime metadata")
}

fn events_metadata() -> RuntimeMetadataV14 {
    // 0: the events of Balances, 1: u32, 2: the events of System
    let types = vec![
        TypeDef::Variant(vec![
            Variant {
                name: "Transfer".to_owned(),
                fields: vec![
                    Field { name: Some("from".to_owned()), ty: 1 },
                    Field { name: None, ty: 1 },
                ],
                index: 2,
                docs: vec!["A transfer.".to_owned(), "Second line.".to_owned()],
            },
            Variant { name: "Dust".to_owned(), fields: vec![], index: 5, docs: vec![] },
        ]),
        TypeDef::Primitive(TypeDefPrimitive::U32),
        TypeDef::Variant(vec![Variant {
            name: "NewAccount".to_owned(),
            fields: vec![],
            index: 0,
            docs: vec![],
        }]),
    ];
    let pallets = vec![
        PalletMetadata {
            name: "System".to_owned(),
            storage: None,
            event: Some(PalletEventMetadata { ty: 2 }),
            index: 0,
        },
        PalletMetadata { name: "Quiet".to_owned(), storage: None, event: None, index: 1 },
        PalletMetadata {
            name: "Balances".to_owned(),
            storage: None,
            event: Some(PalletEventMetadata { ty: 0 }),
            index: 4,
        },
    ];
    RuntimeMetadataV14 { types: PortableRegistry { types }, pallets }
}

#[test]
fn metadata_storage_inner_cache() {
    let mut metadata = load_metadata();
    let hash = metadata.storage_hash("System", "Account");

    let mut call_number = 0;
    let hash_cached = metadata.cached_storage_hashes().get_or_insert(
        "System",
        "Account",
        || -> Result<[u8; 32], MetadataError> {
            call_number += 1;
            Ok([0; 32])
        },
    );

    // Check function is never called (e.i, value fetched from cache).
    assert_eq!(call_number, 0);
    assert_eq!(hash.unwrap(), hash_cached.unwrap());
}

#[test]
fn storage_hash_is_stable_and_names_what_is_missing() {
    let mut metadata = load_metadata();
    let first = metadata.storage_hash("System", "Account").unwrap();
    let second = metadata.storage_hash("System", "Account").unwrap();
    assert_eq!(first, second);
    assert_eq!(first, load_metadata().storage_hash("System", "Account").unwrap());
    assert_eq!(
        metadata.storage_hash("NoSuchPallet", "Account"),
        Err(MetadataError::PalletNotFound)
    );
    assert_eq!(metadata.storage_hash("System", "NoSuchItem"), Err(MetadataError::StorageNotFound));
    // the failure is cached as well
    assert_eq!(
        metadata.cached_storage_hashes().get("NoSuchPallet", "Account"),
        Some(Err(MetadataError::PalletNotFound))
    );
}

#[test]
fn plain_storage_hash_has_the_expected_value() {
    let seed = xor(xor(twox_256(b"Account"), twox_256(&[0])), twox_256(&[0]));
    let expected = xor(seed, twox_256(&[5, 5]));
    assert_eq!(get_storage_hash(&runtime_metadata(), "System", "Account"), Ok(expected));
    assert_eq!(load_metadata().storage_hash("System", "Account"), Ok(expected));
}

#[test]
fn keyed_storage_hash_merges_the_hashers_then_key_and_value() {
    let mut metadata = runtime_metadata();
    metadata.pallets[0].storage.as_mut().unwrap().entries.push(StorageEntryMetadata {
        name: "Locks".to_owned(),
        modifier: StorageEntryModifier::Default,
        ty: StorageEntryType::Keyed {
            hashers: vec![StorageHasher::Blake2_128Concat, StorageHasher::Identity],
            key: 2,
            value: 1,
        },
        default: vec![1, 2, 3],
        docs: vec![],
    });
    let mut bytes = xor(xor(twox_256(b"Locks"), twox_256(&[1])), twox_256(&[1, 2, 3]));
    bytes = hash_hashes(bytes, [2u8; 32]);
    bytes = hash_hashes(bytes, [6u8; 32]);
    bytes = xor(bytes, twox_256(&[5, 5]));
    bytes = xor(bytes, twox_256(&[5, 7]));
    assert_eq!(get_storage_hash(&metadata, "System", "Locks"), Ok(bytes));
}

#[test]
fn key_and_value_of_one_type_meet_the_type_once() {
    let mut metadata = runtime_metadata();
    metadata.pallets[0].storage.as_mut().unwrap().entries.push(StorageEntryMetadata {
        name: "Same".to_owned(),
        modifier: StorageEntryModifier::Optional,
        ty: StorageEntryType::Keyed { hashers: vec![], key: 2, value: 2 },
        default: vec![],
        docs: vec![],
    });
    let mut bytes = xor(xor(twox_256(b"Same"), twox_256(&[0])), twox_256(&[]));
    bytes = xor(bytes, twox_256(&[5, 5]));
    bytes = xor(bytes, twox_256(&[123]));
    assert_eq!(get_storage_hash(&metadata, "System", "Same"), Ok(bytes));
}

#[test]
fn get_storage_hash_says_what_was_not_found() {
    let mut metadata = runtime_metadata();
    metadata.pallets.push(PalletMetadata {
        name: "Bare".to_owned(),
        storage: None,
        event: None,
        index: 1,
    });
    assert_eq!(get_storage_hash(&metadata, "Nope", "Account"), Err(NotFound::Pallet));
    assert_eq!(get_storage_hash(&metadata, "System", "Nope"), Err(NotFound::Item));
    assert_eq!(get_storage_hash(&metadata, "Bare", "Account"), Err(NotFound::Item));
}

#[test]
fn the_first_pallet_and_entry_of_a_name_are_the_ones_hashed() {
    let mut metadata = runtime_metadata();
    let mut twin = account_entry();
    twin.default = vec![9];
    metadata.pallets[0].storage.as_mut().unwrap().entries.push(twin);
    let expected = get_storage_hash(&runtime_metadata(), "System", "Account");
    assert_eq!(get_storage_hash(&metadata, "System", "Account"), expected);
}

#[test]
fn a_wrong_prefix_is_refused_first() {
    let prefixed = RuntimeMetadataPrefixed(0x6174_656e, RuntimeMetadata::V14(runtime_metadata()));
    assert_eq!(Metadata::try_from(prefixed).unwrap_err(), InvalidMetadataError::InvalidPrefix);
    let prefixed = RuntimeMetadataPrefixed(0, RuntimeMetadata::Unsupported(13));
    assert_eq!(Metadata::try_from(prefixed).unwrap_err(), InvalidMetadataError::InvalidPrefix);
}

#[test]
fn another_version_is_refused() {
    for version in [0u32, 13, 15, 16] {
        let prefixed = RuntimeMetadataPrefixed(META_RESERVED, RuntimeMetadata::Unsupported(version));
        assert_eq!(Metadata::try_from(prefixed).unwrap_err(), InvalidMetadataError::InvalidVersion);
    }
}

#[test]
fn the_prefix_spells_meta() {
    assert_eq!(META_RESERVED.to_le_bytes(), *b"meta");
    let prefixed = RuntimeMetadataPrefixed::from(runtime_metadata());
    assert_eq!(prefixed.0, META_RESERVED);
    assert_eq!(prefixed.1, RuntimeMetadata::V14(runtime_metadata()));
}

#[test]
fn an_event_type_that_is_missing_or_no_enum_is_refused() {
    let mut metadata = events_metadata();
    metadata.pallets[2].event = Some(PalletEventMetadata { ty: 3 });
    assert_eq!(
        Metadata::try_from(RuntimeMetadataPrefixed::from(metadata)).unwrap_err(),
        InvalidMetadataError::MissingType(3)
    );
    let mut metadata = events_metadata();
    metadata.pallets[0].event = Some(PalletEventMetadata { ty: 1 });
    metadata.pallets[2].event = Some(PalletEventMetadata { ty: 7 });
    assert_eq!(
        Metadata::try_from(RuntimeMetadataPrefixed::from(metadata)).unwrap_err(),
        InvalidMetadataError::TypeDefNotVariant(1)
    );
}

#[test]
fn every_declared_event_is_found_by_its_indices() {
    let metadata = Metadata::try_from(RuntimeMetadataPrefixed::from(events_metadata())).unwrap();
    let transfer = metadata.event(4, 2).unwrap();
    assert_eq!(transfer.pallet(), "Balances");
    assert_eq!(transfer.event(), "Transfer");
    assert_eq!(transfer.fields(), &[(Some("from".to_owned()), 1), (None, 1)]);
    assert_eq!(transfer.docs(), &["A transfer.".to_owned(), "Second line.".to_owned()]);
    let dust = metadata.event(4, 5).unwrap();
    assert_eq!(dust.event(), "Dust");
    assert!(dust.fields().is_empty());
    let new_account = metadata.event(0, 0).unwrap();
    assert_eq!(new_account.pallet(), "System");
    assert_eq!(new_account.event(), "NewAccount");
    assert_eq!(metadata.runtime_metadata(), &events_metadata());
}

#[test]
fn an_unknown_event_is_not_found() {
    let metadata = Metadata::try_from(RuntimeMetadataPrefixed::from(events_metadata())).unwrap();
    assert_eq!(metadata.event(4, 0).unwrap_err(), MetadataError::EventNotFound(4, 0));
    assert_eq!(metadata.event(1, 0).unwrap_err(), MetadataError::EventNotFound(1, 0));
    assert_eq!(metadata.event(2, 4).unwrap_err(), MetadataError::EventNotFound(2, 4));
    assert_eq!(metadata.event(255, 255).unwrap_err(), MetadataError::EventNotFound(255, 255));
}

#[test]
fn a_later_event_with_the_same_indices_replaces_the_earlier() {
    let mut runtime = events_metadata();
    runtime.pallets[0].index = 4;
    if let TypeDef::Variant(variants) = &mut runtime.types.types[2] {
        variants[0].index = 2;
    }
    let metadata = Metadata::try_from(RuntimeMetadataPrefixed::from(runtime)).unwrap();
    let event = metadata.event(4, 2).unwrap();
    assert_eq!(event.pallet(), "Balances");
    assert_eq!(event.event(), "Transfer");
}

#[test]
fn closed_metadata_is_told_apart() {
    assert!(runtime_metadata().is_closed());
    let mut metadata = runtime_metadata();
    metadata.pallets[0].storage.as_mut().unwrap().entries[0].ty = StorageEntryType::Plain(4);
    assert!(!metadata.is_closed());
    let mut metadata = runtime_metadata();
    metadata.types.types.push(TypeDef::Sequence(9));
    assert!(!metadata.is_closed());
}

#[test]
fn the_frame_of_a_blob_is_checked_prefix_first() {
    assert_eq!(metadata_payload(b"meta\x0epayload"), Ok(&b"payload"[..]));
    assert_eq!(metadata_payload(b"meta\x0e"), Ok(&b""[..]));
    for blob in [&b"metb\x0e"[..], &b"atem\x0epayload"[..], &b"\0\0\0\0"[..], &b"Meta\x0d"[..]] {
        assert_eq!(
            metadata_payload(blob),
            Err(Error::InvalidMetadata(InvalidMetadataError::InvalidPrefix))
        );
    }
    for version in [0u8, 13, 15, 16, 255] {
        let blob = [b'm', b'e', b't', b'a', version, 1, 2, 3];
        assert_eq!(
            metadata_payload(&blob),
            Err(Error::InvalidMetadata(InvalidMetadataError::InvalidVersion))
        );
    }
    for blob in [&b""[..], &b"met"[..], &b"meta"[..]] {
        assert_eq!(
            metadata_payload(blob),
            Err(Error::Codec("Not enough data to fill buffer".to_owned()))
        );
    }
}

#[test]
fn try_storage_hash_only_computes_what_is_defined() {
    let mut metadata = load_metadata();
    let hash = metadata.storage_hash("System", "Account");
    assert_eq!(metadata.try_storage_hash("System", "Account"), Some(hash));
    assert_eq!(
        metadata.try_storage_hash("Nope", "Account"),
        Some(Err(MetadataError::PalletNotFound))
    );
    let mut open = runtime_metadata();
    open.types.types.push(TypeDef::Sequence(9));
    let mut metadata = Metadata::try_from(RuntimeMetadataPrefixed::from(open)).unwrap();
    assert_eq!(metadata.try_storage_hash("System", "Account"), None);
    assert_eq!(metadata.cached_storage_hashes().get("System", "Account"), None);
    let hash = metadata.storage_hash("System", "Account");
    assert_eq!(metadata.try_storage_hash("System", "Account"), Some(hash));
}
