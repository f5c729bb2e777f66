//! The runtime metadata of a node as it arrives: a reserved prefix, a version, and
//! for the supported version the pallets and the type registry.

use crate::error::Error;
use crate::metadata::metadata_type::InvalidMetadataError;
use crate::metadata::portable::PortableRegistry;
use vstd::prelude::*;
use vstd::slice::slice_subrange;

verus! {

/// The prefix that every metadata blob starts with: "meta", read as a little-endian
/// number.
pub const META_RESERVED: u32 = 0x6174_656d;

/// The one version of the metadata that is read.
pub const SUPPORTED_VERSION: u8 = 14;

/// The number that the first four bytes hold, least significant byte first.
pub open spec fn le_u32(bytes: Seq<u8>) -> int {
    bytes[0] + bytes[1] * 0x100 + bytes[2] * 0x1_0000 + bytes[3] * 0x100_0000
}

/// Check the frame of a metadata blob and hand out the payload, which is left to
/// decode: what follows the four bytes of the prefix and the byte of the version.
/// The prefix is looked at first: a blob with another prefix is refused as
/// `InvalidPrefix` whatever follows. One with the prefix and another version is
/// refused as `InvalidVersion`, and one too short to hold prefix or version with a
/// codec error.
pub fn metadata_payload(bytes: &[u8]) -> (out: Result<&[u8], Error>)
    ensures
        bytes@.len() < 4 ==> (out matches Err(Error::Codec(m)) && m@
            == "Not enough data to fill buffer"@),
        bytes@.len() >= 4 && le_u32(bytes@) != META_RESERVED ==> (out matches Err(e) && e
            == Error::InvalidMetadata(InvalidMetadataError::InvalidPrefix)),
        bytes@.len() == 4 && le_u32(bytes@) == META_RESERVED ==> (out matches Err(
            Error::Codec(m),
        ) && m@ == "Not enough data to fill buffer"@),
        bytes@.len() >= 5 && le_u32(bytes@) == META_RESERVED && bytes@[4] != SUPPORTED_VERSION
            ==> (out matches Err(e) && e == Error::InvalidMetadata(
            InvalidMetadataError::InvalidVersion,
        )),
        bytes@.len() >= 5 && le_u32(bytes@) == META_RESERVED && bytes@[4] == SUPPORTED_VERSION
            ==> (out matches Ok(payload) && payload@ == bytes@.skip(5)),
{
    if bytes.len() < 4 {
        return Err(Error::Codec(String::from_str("Not enough data to fill buffer")));
    }
    let prefix: u32 = bytes[0] as u32 + bytes[1] as u32 * 0x100 + bytes[2] as u32 * 0x1_0000
        + bytes[3] as u32 * 0x100_0000;
    if prefix != META_RESERVED {
        return Err(Error::InvalidMetadata(InvalidMetadataError::InvalidPrefix));
    }
    if bytes.len() < 5 {
        return Err(Error::Codec(String::from_str("Not enough data to fill buffer")));
    }
    if bytes[4] != SUPPORTED_VERSION {
        return Err(Error::InvalidMetadata(InvalidMetadataError::InvalidVersion));
    }
    let payload = slice_subrange(bytes, 5, bytes.len());
    assert(payload@ =~= bytes@.skip(5));
    Ok(payload)
}

/// Whether a storage entry yields an optional value or falls back to a default.
#[derive(Clone, Copy, Debug, PartialEq, Eq)]
pub enum StorageEntryModifier {
    Optional,
    Default,
}

impl StorageEntryModifier {
    /// The position of the modifier in the declaration order.
    pub open spec fn spec_discriminant(self) -> u8 {
        match self {
            StorageEntryModifier::Optional => 0,
            StorageEntryModifier::Default => 1,
        }
    }

    /// The byte that stands for the modifier.
    pub fn discriminant(&self) -> (d: u8)
        ensures
            d == self.spec_discriminant(),
    {
        match self {
            StorageEntryModifier::Optional => 0,
            StorageEntryModifier::Default => 1,
        }
    }
}

/// The hasher applied to a key of a storage map.
#[derive(Clone, Copy, Debug, PartialEq, Eq)]
pub enum StorageHasher {
    Blake2_128,
    Blake2_256,
    Blake2_128Concat,
    Twox128,
    Twox256,
    Twox64Concat,
    Identity,
}

impl StorageHasher {
    /// The position of the hasher in the declaration order.
    pub open spec fn spec_discriminant(self) -> u8 {
        match self {
            StorageHasher::Blake2_128 => 0,
            StorageHasher::Blake2_256 => 1,
            StorageHasher::Blake2_128Concat => 2,
            StorageHasher::Twox128 => 3,
            StorageHasher::Twox256 => 4,
            StorageHasher::Twox64Concat => 5,
            StorageHasher::Identity => 6,
        }
    }

    /// The byte that stands for the hasher.
    pub fn discriminant(&self) -> (d: u8)
        ensures
            d == self.spec_discriminant(),
    {
        match self {
            StorageHasher::Blake2_128 => 0,
            StorageHasher::Blake2_256 => 1,
            StorageHasher::Blake2_128Concat => 2,
            StorageHasher::Twox128 => 3,
            StorageHasher::Twox256 => 4,
            StorageHasher::Twox64Concat => 5,
            StorageHasher::Identity => 6,
        }
    }
}

/// The shape of a storage entry: a plain value, or a map from hashed keys to values.
/// Every `u32` is a type id.
#[derive(Clone, Debug, PartialEq, Eq)]
pub enum StorageEntryType {
    Plain(u32),
    Keyed { hashers: Vec<StorageHasher>, key: u32, value: u32 },
}

/// One storage entry of a pallet.
#[derive(Clone, Debug, PartialEq, Eq)]
pub struct StorageEntryMetadata {
    pub name: String,
    pub modifier: StorageEntryModifier,
    pub ty: StorageEntryType,
    pub default: Vec<u8>,
    pub docs: Vec<String>,
}

/// The storage of a pallet.
#[derive(Clone, Debug, PartialEq, Eq)]
pub struct PalletStorageMetadata {
    pub prefix: String,
    pub entries: Vec<StorageEntryMetadata>,
}

/// The events of a pallet: the id of an enum-like type with one variant per event.
#[derive(Clone, Copy, Debug, PartialEq, Eq)]
pub struct PalletEventMetadata {
    pub ty: u32,
}

/// A named module of the runtime.
#[derive(Clone, Debug, PartialEq, Eq)]
pub struct PalletMetadata {
    pub name: String,
    pub storage: Option<PalletStorageMetadata>,
    pub event: Option<PalletEventMetadata>,
    pub index: u8,
}

/// The metadata of the one supported version.
#[derive(Clone, Debug, PartialEq, Eq)]
pub struct RuntimeMetadataV14 {
    pub types: PortableRegistry,
    pub pallets: Vec<PalletMetadata>,
}

/// The metadata by version.
#[derive(Clone, Debug, PartialEq, Eq)]
pub enum RuntimeMetadata {
    /// The supported version.
    V14(RuntimeMetadataV14),
    /// Any other version, by its number; its payload is not read.
    Unsupported(u32),
}

/// Metadata prefixed by a reserved number.
#[derive(Clone, Debug, PartialEq, Eq)]
pub struct RuntimeMetadataPrefixed(pub u32, pub RuntimeMetadata);

impl From<RuntimeMetadataV14> for RuntimeMetadataPrefixed {
    fn from(metadata: RuntimeMetadataV14) -> (prefixed: RuntimeMetadataPrefixed) {
        RuntimeMetadataPrefixed(META_RESERVED, RuntimeMetadata::V14(metadata))
    }
}

impl vstd::std_specs::convert::FromSpecImpl<RuntimeMetadataV14> for RuntimeMetadataPrefixed {
    open spec fn obeys_from_spec() -> bool {
        true
    }

    open spec fn from_spec(metadata: RuntimeMetadataV14) -> RuntimeMetadataPrefixed {
        RuntimeMetadataPrefixed(META_RESERVED, RuntimeMetadata::V14(metadata))
    }
}

} // verus!
