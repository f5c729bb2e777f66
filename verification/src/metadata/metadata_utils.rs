//! Structural hashing of the types of a registry and of storage entries.

use crate::metadata::portable::{Field, PortableRegistry, TypeDef, Variant};
use crate::metadata::runtime_metadata::{
    PalletMetadata, RuntimeMetadataV14, StorageEntryMetadata, StorageEntryType, StorageHasher,
};
use std::collections::HashSet;
use vstd::prelude::*;
use vstd::utf8::encode_utf8;

verus! {

broadcast use vstd::std_specs::hash::group_hash_axioms;

/// The bytes that tell the kinds of type definition apart in a hash.
pub const TAG_COMPOSITE: u8 = 0;

pub const TAG_VARIANT: u8 = 1;

pub const TAG_SEQUENCE: u8 = 2;

pub const TAG_ARRAY: u8 = 3;

pub const TAG_TUPLE: u8 = 4;

pub const TAG_PRIMITIVE: u8 = 5;

pub const TAG_COMPACT: u8 = 6;

pub const TAG_BIT_SEQUENCE: u8 = 7;

/// The byte whose hash stands for a type that is met again during one computation.
pub const TAG_REVISITED: u8 = 123;

/// The 256-bit xxHash digest of `data`, as `sp_crypto_hashing::twox_256` computes it:
/// four 64-bit xxHash digests with the seeds 0 to 3, each written little-endian.
pub uninterp spec fn twox_256(data: Seq<u8>) -> Seq<u8>;

/// Calls `sp_crypto_hashing::twox_256`. The digest depends on the bytes alone; the
/// contract only gives it its name.
#[verifier::external_body]
pub(crate) fn hash(bytes: &[u8]) -> (digest: [u8; 32])
    ensures
        digest@ == twox_256(bytes@),
{
    sp_crypto_hashing::twox_256(bytes)
}

/// The bytewise exclusive or of two byte strings, as long as the first.
pub open spec fn xor_bytes(a: Seq<u8>, b: Seq<u8>) -> Seq<u8> {
    Seq::new(a.len(), |i: int| a[i] ^ b[i])
}

/// XOR two hashes together. The result is only as unpredictable as the less
/// predictable operand, and two equal operands cancel: use it for single,
/// non-repeating combinations.
pub fn xor(a: [u8; 32], b: [u8; 32]) -> (out: [u8; 32])
    ensures
        out@ == xor_bytes(a@, b@),
{
    let mut out: [u8; 32] = [0u8; 32];
    let mut idx: usize = 0;
    while idx < 32
        invariant
            idx <= 32,
            forall|j: int| 0 <= j < idx ==> out@[j] == a@[j] ^ b@[j],
        decreases 32 - idx,
    {
        out[idx] = a[idx] ^ b[idx];
        idx += 1;
    }
    assert(out@ =~= xor_bytes(a@, b@));
    out
}

/// Combine two hashes into one by hashing their concatenation. Unlike `xor` the
/// result depends on the order of the operands and does not cancel on equal ones.
pub fn hash_hashes(a: [u8; 32], b: [u8; 32]) -> (out: [u8; 32])
    ensures
        out@ == twox_256(a@ + b@),
{
    let mut joined: [u8; 64] = [0u8; 64];
    let mut idx: usize = 0;
    while idx < 32
        invariant
            idx <= 32,
            forall|j: int| 0 <= j < idx ==> joined@[j] == a@[j],
            forall|j: int| 0 <= j < idx ==> joined@[32 + j] == b@[j],
        decreases 32 - idx,
    {
        joined[idx] = a[idx];
        joined[idx + 32] = b[idx];
        idx += 1;
    }
    assert(joined@ =~= a@ + b@);
    hash(joined.as_slice())
}

/// The four bytes of `n`, most significant first.
pub open spec fn be_bytes(n: u32) -> Seq<u8> {
    seq![
        (n / 0x100_0000) as u8,
        (n / 0x1_0000 % 0x100) as u8,
        (n / 0x100 % 0x100) as u8,
        (n % 0x100) as u8,
    ]
}

/// How many of the type ids below `n` are not in `visited`. Every step into a type
/// that was not met before lowers this number, which bounds the depth of a hash
/// computation whatever cycles the type graph has.
pub open spec fn unvisited(n: nat, visited: Set<u32>) -> nat
    decreases n,
{
    if n == 0 {
        0
    } else {
        unvisited((n - 1) as nat, visited) + if visited.contains((n - 1) as u32) {
            0nat
        } else {
            1nat
        }
    }
}

/// A larger visited set leaves no more ids unvisited.
pub proof fn lemma_unvisited_mono(n: nat, small: Set<u32>, large: Set<u32>)
    requires
        small.subset_of(large),
    ensures
        unvisited(n, large) <= unvisited(n, small),
    decreases n,
{
    if n > 0 {
        lemma_unvisited_mono((n - 1) as nat, small, large);
    }
}

/// Visiting a type of the table that was not visited before leaves fewer ids unvisited.
pub proof fn lemma_unvisited_insert(n: nat, visited: Set<u32>, id: u32)
    requires
        id < n,
        !visited.contains(id),
    ensures
        unvisited(n, visited.insert(id)) < unvisited(n, visited),
    decreases n,
{
    if n - 1 == id {
        lemma_unvisited_mono((n - 1) as nat, visited, visited.insert(id));
    } else {
        lemma_unvisited_insert((n - 1) as nat, visited, id);
    }
}

/// The hash of the type `id` of the table `types`, and the set of the ids visited
/// once it is computed, where `visited` holds the ids visited before. A type that was
/// visited before hashes to the hash of `TAG_REVISITED`, whatever its definition:
/// this is what ends the computation on a cyclic type graph. `None` where the
/// computation meets an id that the table does not have.
///
/// The visited set only grows. Where one part is hashed after another, the set
/// handed on is written as the union of the set before and the set after the
/// earlier part, which is the set after it: so the number of unvisited types is
/// seen not to rise from part to part.
pub open spec fn type_hash(types: Seq<TypeDef>, id: u32, visited: Set<u32>) -> Option<
    (Seq<u8>, Set<u32>),
>
    decreases unvisited(types.len(), visited), 0nat, 0nat,
{
    if visited.contains(id) {
        Some((twox_256(seq![TAG_REVISITED]), visited))
    } else if id >= types.len() {
        None
    } else {
        proof {
            lemma_unvisited_insert(types.len(), visited, id);
        }
        type_def_hash(types, types[id as int], visited.insert(id))
    }
}

/// The XOR of `seed` with the hash of the type `id`.
pub open spec fn xor_type_hash(types: Seq<TypeDef>, seed: Seq<u8>, id: u32, visited: Set<u32>) -> Option<
    (Seq<u8>, Set<u32>),
>
    decreases unvisited(types.len(), visited), 1nat, 0nat,
{
    match type_hash(types, id, visited) {
        Some((h, v)) => Some((xor_bytes(seed, h), v)),
        None => None,
    }
}

/// The hash of a type definition: the hash of the tag of its kind, merged with the
/// hashes of its parts. Parts whose position matters (fields, variants, tuple
/// members) are merged in order by `hash_hashes`; a single element type is merged
/// by XOR.
pub open spec fn type_def_hash(types: Seq<TypeDef>, def: TypeDef, visited: Set<u32>) -> Option<
    (Seq<u8>, Set<u32>),
>
    decreases unvisited(types.len(), visited), 6nat, 0nat,
{
    match def {
        TypeDef::Composite(fields) => fields_hash(
            types,
            fields@,
            0,
            twox_256(seq![TAG_COMPOSITE]),
            visited,
        ),
        TypeDef::Variant(variants) => variants_hash(
            types,
            variants@,
            0,
            twox_256(seq![TAG_VARIANT]),
            visited,
        ),
        TypeDef::Sequence(type_param) => xor_type_hash(
            types,
            twox_256(seq![TAG_SEQUENCE]),
            type_param,
            visited,
        ),
        TypeDef::Array { len, type_param } => xor_type_hash(
            types,
            twox_256(seq![TAG_ARRAY] + be_bytes(len)),
            type_param,
            visited,
        ),
        TypeDef::Tuple(members) => members_hash(
            types,
            members@,
            0,
            twox_256(seq![TAG_TUPLE]),
            visited,
        ),
        TypeDef::Primitive(primitive) => Some(
            (twox_256(seq![TAG_PRIMITIVE, primitive.spec_discriminant()]), visited),
        ),
        TypeDef::Compact(type_param) => xor_type_hash(
            types,
            twox_256(seq![TAG_COMPACT]),
            type_param,
            visited,
        ),
        TypeDef::BitSequence { bit_store_type, bit_order_type } => {
            match xor_type_hash(types, twox_256(seq![TAG_BIT_SEQUENCE]), bit_order_type, visited) {
                Some((h, v)) => {
                    proof {
                        lemma_unvisited_mono(types.len(), visited, visited.union(v));
                    }
                    xor_type_hash(types, h, bit_store_type, visited.union(v))
                },
                None => None,
            }
        },
    }
}

/// The hash of a field: the hash of its type, XORed with the hash of its name where
/// it has one.
pub open spec fn field_hash(types: Seq<TypeDef>, field: Field, visited: Set<u32>) -> Option<
    (Seq<u8>, Set<u32>),
>
    decreases unvisited(types.len(), visited), 1nat, 0nat,
{
    match type_hash(types, field.ty, visited) {
        Some((h, v)) => Some(
            (
                match field.name {
                    Some(name) => xor_bytes(h, twox_256(encode_utf8(name@))),
                    None => h,
                },
                v,
            ),
        ),
        None => None,
    }
}

/// `acc` merged in order with the hashes of the fields from position `from` on.
pub open spec fn fields_hash(
    types: Seq<TypeDef>,
    fields: Seq<Field>,
    from: nat,
    acc: Seq<u8>,
    visited: Set<u32>,
) -> Option<(Seq<u8>, Set<u32>)>
    decreases unvisited(types.len(), visited), 2nat, fields.len() - from,
{
    if from >= fields.len() {
        Some((acc, visited))
    } else {
        match field_hash(types, fields[from as int], visited) {
            Some((h, v)) => {
                proof {
                    lemma_unvisited_mono(types.len(), visited, visited.union(v));
                }
                fields_hash(types, fields, from + 1, twox_256(acc + h), visited.union(v))
            },
            None => None,
        }
    }
}

/// The hash of a variant: the hash of its name, merged in order with the hashes of
/// its fields.
pub open spec fn variant_hash(types: Seq<TypeDef>, variant: Variant, visited: Set<u32>) -> Option<
    (Seq<u8>, Set<u32>),
>
    decreases unvisited(types.len(), visited), 3nat, 0nat,
{
    fields_hash(types, variant.fields@, 0, twox_256(encode_utf8(variant.name@)), visited)
}

/// `acc` merged in order with the hashes of the variants from position `from` on.
pub open spec fn variants_hash(
    types: Seq<TypeDef>,
    variants: Seq<Variant>,
    from: nat,
    acc: Seq<u8>,
    visited: Set<u32>,
) -> Option<(Seq<u8>, Set<u32>)>
    decreases unvisited(types.len(), visited), 5nat, variants.len() - from,
{
    if from >= variants.len() {
        Some((acc, visited))
    } else {
        match variant_hash(types, variants[from as int], visited) {
            Some((h, v)) => {
                proof {
                    lemma_unvisited_mono(types.len(), visited, visited.union(v));
                }
                variants_hash(types, variants, from + 1, twox_256(acc + h), visited.union(v))
            },
            None => None,
        }
    }
}

/// `acc` merged in order with the hashes of the types from position `from` on.
pub open spec fn members_hash(
    types: Seq<TypeDef>,
    members: Seq<u32>,
    from: nat,
    acc: Seq<u8>,
    visited: Set<u32>,
) -> Option<(Seq<u8>, Set<u32>)>
    decreases unvisited(types.len(), visited), 2nat, members.len() - from,
{
    if from >= members.len() {
        Some((acc, visited))
    } else {
        match type_hash(types, members[from as int], visited) {
            Some((h, v)) => {
                proof {
                    lemma_unvisited_mono(types.len(), visited, visited.union(v));
                }
                members_hash(types, members, from + 1, twox_256(acc + h), visited.union(v))
            },
            None => None,
        }
    }
}


/// Obtain the hash of a field, visiting its type.
pub fn get_field_hash(registry: &PortableRegistry, field: &Field, visited_ids: &mut HashSet<u32>) -> (out:
    [u8; 32])
    requires
        field_hash(registry.types@, *field, old(visited_ids)@) is Some,
    ensures
        field_hash(registry.types@, *field, old(visited_ids)@) == Some(
            (out@, final(visited_ids)@),
        ),
        old(visited_ids)@.subset_of(final(visited_ids)@),
    decreases unvisited(registry.types@.len(), old(visited_ids)@), 1nat, 0nat,
{
    let bytes = get_type_hash(registry, field.ty, visited_ids);
    match &field.name {
        Some(name) => xor(bytes, hash(name.as_str().as_bytes())),
        None => bytes,
    }
}

/// Merge `seed` in order with the hashes of `fields`.
fn get_fields_hash(
    registry: &PortableRegistry,
    fields: &Vec<Field>,
    seed: [u8; 32],
    visited_ids: &mut HashSet<u32>,
) -> (out: [u8; 32])
    requires
        fields_hash(registry.types@, fields@, 0, seed@, old(visited_ids)@) is Some,
    ensures
        fields_hash(registry.types@, fields@, 0, seed@, old(visited_ids)@) == Some(
            (out@, final(visited_ids)@),
        ),
        old(visited_ids)@.subset_of(final(visited_ids)@),
    decreases unvisited(registry.types@.len(), old(visited_ids)@), 2nat, 0nat,
{
    let ghost start = visited_ids@;
    let mut bytes = seed;
    let mut i: usize = 0;
    while i < fields.len()
        invariant
            i <= fields.len(),
            start == old(visited_ids)@,
            start.subset_of(visited_ids@),
            fields_hash(registry.types@, fields@, i as nat, bytes@, visited_ids@) is Some,
            fields_hash(registry.types@, fields@, i as nat, bytes@, visited_ids@) == fields_hash(
                registry.types@,
                fields@,
                0,
                seed@,
                start,
            ),
        decreases fields.len() - i,
    {
        let ghost before = visited_ids@;
        proof {
            lemma_unvisited_mono(registry.types@.len(), start, before);
        }
        let field_bytes = get_field_hash(registry, &fields[i], visited_ids);
        assert(before.union(visited_ids@) =~= visited_ids@);
        bytes = hash_hashes(bytes, field_bytes);
        i += 1;
    }
    bytes
}

/// Obtain the hash of a variant, visiting the types of its fields.
pub fn get_variant_hash(
    registry: &PortableRegistry,
    var: &Variant,
    visited_ids: &mut HashSet<u32>,
) -> (out: [u8; 32])
    requires
        variant_hash(registry.types@, *var, old(visited_ids)@) is Some,
    ensures
        variant_hash(registry.types@, *var, old(visited_ids)@) == Some(
            (out@, final(visited_ids)@),
        ),
        old(visited_ids)@.subset_of(final(visited_ids)@),
    decreases unvisited(registry.types@.len(), old(visited_ids)@), 3nat, 0nat,
{
    let bytes = hash(var.name.as_str().as_bytes());
    get_fields_hash(registry, &var.fields, bytes, visited_ids)
}

/// XOR `seed` with the hash of the type `id`, visiting it.
fn xor_with_type_hash(
    registry: &PortableRegistry,
    seed: [u8; 32],
    id: u32,
    visited_ids: &mut HashSet<u32>,
) -> (out: [u8; 32])
    requires
        xor_type_hash(registry.types@, seed@, id, old(visited_ids)@) is Some,
    ensures
        xor_type_hash(registry.types@, seed@, id, old(visited_ids)@) == Some(
            (out@, final(visited_ids)@),
        ),
        old(visited_ids)@.subset_of(final(visited_ids)@),
    decreases unvisited(registry.types@.len(), old(visited_ids)@), 1nat, 0nat,
{
    let bytes = get_type_hash(registry, id, visited_ids);
    xor(seed, bytes)
}

/// Obtain the hash of a type definition, visiting the types it refers to.
pub fn get_type_def_hash(
    registry: &PortableRegistry,
    ty_def: &TypeDef,
    visited_ids: &mut HashSet<u32>,
) -> (out: [u8; 32])
    requires
        type_def_hash(registry.types@, *ty_def, old(visited_ids)@) is Some,
    ensures
        type_def_hash(registry.types@, *ty_def, old(visited_ids)@) == Some(
            (out@, final(visited_ids)@),
        ),
        old(visited_ids)@.subset_of(final(visited_ids)@),
    decreases unvisited(registry.types@.len(), old(visited_ids)@), 6nat, 0nat,
{
    let ghost start = visited_ids@;
    match ty_def {
        TypeDef::Composite(fields) => {
            let tag: [u8; 1] = [TAG_COMPOSITE];
            assert(tag@ =~= seq![TAG_COMPOSITE]);
            let bytes = hash(tag.as_slice());
            get_fields_hash(registry, fields, bytes, visited_ids)
        },
        TypeDef::Variant(variants) => {
            let tag: [u8; 1] = [TAG_VARIANT];
            assert(tag@ =~= seq![TAG_VARIANT]);
            let seed = hash(tag.as_slice());
            let mut bytes = seed;
            let mut i: usize = 0;
            while i < variants.len()
                invariant
                    i <= variants.len(),
                    start == old(visited_ids)@,
                    start.subset_of(visited_ids@),
                    variants_hash(registry.types@, variants@, i as nat, bytes@, visited_ids@)
                        is Some,
                    variants_hash(registry.types@, variants@, i as nat, bytes@, visited_ids@)
                        == variants_hash(registry.types@, variants@, 0, seed@, start),
                decreases variants.len() - i,
            {
                let ghost before = visited_ids@;
                proof {
                    lemma_unvisited_mono(registry.types@.len(), start, before);
                }
                let variant_bytes = get_variant_hash(registry, &variants[i], visited_ids);
                assert(before.union(visited_ids@) =~= visited_ids@);
                bytes = hash_hashes(bytes, variant_bytes);
                i += 1;
            }
            bytes
        },
        TypeDef::Sequence(type_param) => {
            let tag: [u8; 1] = [TAG_SEQUENCE];
            assert(tag@ =~= seq![TAG_SEQUENCE]);
            let bytes = hash(tag.as_slice());
            xor_with_type_hash(registry, bytes, *type_param, visited_ids)
        },
        TypeDef::Array { len, type_param } => {
            // Take length into account; different length must lead to different hash.
            let n: u32 = *len;
            let tag: [u8; 5] = [
                TAG_ARRAY,
                (n / 0x100_0000) as u8,
                (n / 0x1_0000 % 0x100) as u8,
                (n / 0x100 % 0x100) as u8,
                (n % 0x100) as u8,
            ];
            assert(tag@ =~= seq![TAG_ARRAY] + be_bytes(n));
            let bytes = hash(tag.as_slice());
            xor_with_type_hash(registry, bytes, *type_param, visited_ids)
        },
        TypeDef::Tuple(members) => {
            let tag: [u8; 1] = [TAG_TUPLE];
            assert(tag@ =~= seq![TAG_TUPLE]);
            let seed = hash(tag.as_slice());
            let mut bytes = seed;
            let mut i: usize = 0;
            while i < members.len()
                invariant
                    i <= members.len(),
                    start == old(visited_ids)@,
                    start.subset_of(visited_ids@),
                    members_hash(registry.types@, members@, i as nat, bytes@, visited_ids@)
                        is Some,
                    members_hash(registry.types@, members@, i as nat, bytes@, visited_ids@)
                        == members_hash(registry.types@, members@, 0, seed@, start),
                decreases members.len() - i,
            {
                let ghost before = visited_ids@;
                proof {
                    lemma_unvisited_mono(registry.types@.len(), start, before);
                }
                let member_bytes = get_type_hash(registry, members[i], visited_ids);
                assert(before.union(visited_ids@) =~= visited_ids@);
                bytes = hash_hashes(bytes, member_bytes);
                i += 1;
            }
            bytes
        },
        TypeDef::Primitive(primitive) => {
            let tag: [u8; 2] = [TAG_PRIMITIVE, primitive.discriminant()];
            assert(tag@ =~= seq![TAG_PRIMITIVE, primitive.spec_discriminant()]);
            hash(tag.as_slice())
        },
        TypeDef::Compact(type_param) => {
            let tag: [u8; 1] = [TAG_COMPACT];
            assert(tag@ =~= seq![TAG_COMPACT]);
            let bytes = hash(tag.as_slice());
            xor_with_type_hash(registry, bytes, *type_param, visited_ids)
        },
        TypeDef::BitSequence { bit_store_type, bit_order_type } => {
            let tag: [u8; 1] = [TAG_BIT_SEQUENCE];
            assert(tag@ =~= seq![TAG_BIT_SEQUENCE]);
            let bytes = hash(tag.as_slice());
            let bytes = xor_with_type_hash(registry, bytes, *bit_order_type, visited_ids);
            assert(start.union(visited_ids@) =~= visited_ids@);
            proof {
                lemma_unvisited_mono(registry.types@.len(), start, visited_ids@);
            }
            xor_with_type_hash(registry, bytes, *bit_store_type, visited_ids)
        },
    }
}

/// Obtain the hash of the type `id`. A type that was visited before during the
/// same computation is not entered again: it hashes to a fixed value. So the
/// computation ends on every registry, however its types refer to each other: each
/// type is entered once at most.
pub fn get_type_hash(registry: &PortableRegistry, id: u32, visited_ids: &mut HashSet<u32>) -> (out:
    [u8; 32])
    requires
        type_hash(registry.types@, id, old(visited_ids)@) is Some,
    ensures
        type_hash(registry.types@, id, old(visited_ids)@) == Some((out@, final(visited_ids)@)),
        old(visited_ids)@.subset_of(final(visited_ids)@),
    decreases unvisited(registry.types@.len(), old(visited_ids)@), 0nat, 0nat,
{
    // Guard against recursive types and return a fixed arbitrary hash
    if !visited_ids.insert(id) {
        let tag: [u8; 1] = [TAG_REVISITED];
        assert(tag@ =~= seq![TAG_REVISITED]);
        assert(visited_ids@ =~= old(visited_ids)@);
        return hash(tag.as_slice());
    }
    proof {
        lemma_unvisited_insert(registry.types@.len(), old(visited_ids)@, id);
    }
    let ty = registry.resolve(id).unwrap();
    get_type_def_hash(registry, ty, visited_ids)
}


impl PortableRegistry {
    /// The hash of the type `id`: 32 bytes that depend on the shape of the type and
    /// of the types it refers to, not on where the registry holds them.
    pub fn type_hash(&self, id: u32) -> (out: [u8; 32])
        requires
            type_hash(self.types@, id, Set::empty()) is Some,
        ensures
            out@ == (type_hash(self.types@, id, Set::empty())->0).0,
    {
        let mut visited_ids: HashSet<u32> = HashSet::new();
        get_type_hash(self, id, &mut visited_ids)
    }
}

/// Compares two string slices with `==` of `str`: they are equal exactly when they
/// hold the same characters.
#[verifier::external_body]
pub(crate) fn str_eq(a: &str, b: &str) -> (same: bool)
    ensures
        same == (a@ == b@),
{
    a == b
}

/// `acc` merged in order with one block of 32 equal bytes for each hasher from
/// position `from` on, the byte being the hasher's discriminant.
pub open spec fn hashers_hash(hashers: Seq<StorageHasher>, from: nat, acc: Seq<u8>) -> Seq<u8>
    decreases hashers.len() - from,
{
    if from >= hashers.len() {
        acc
    } else {
        hashers_hash(
            hashers,
            from + 1,
            twox_256(acc + Seq::new(32, |i: int| hashers[from as int].spec_discriminant())),
        )
    }
}

/// What a storage entry contributes to its hash before its types: the hashes of its
/// name, of its modifier and of its default value, XORed.
pub open spec fn storage_entry_seed(entry: StorageEntryMetadata) -> Seq<u8> {
    xor_bytes(
        xor_bytes(
            twox_256(encode_utf8(entry.name@)),
            twox_256(seq![entry.modifier.spec_discriminant()]),
        ),
        twox_256(entry.default@),
    )
}

/// The hash of a storage entry: its seed, for a keyed entry merged in order with its
/// hashers, then XORed with the hashes of its key and value types.
pub open spec fn storage_entry_hash(
    types: Seq<TypeDef>,
    entry: StorageEntryMetadata,
    visited: Set<u32>,
) -> Option<(Seq<u8>, Set<u32>)> {
    match entry.ty {
        StorageEntryType::Plain(ty) => xor_type_hash(types, storage_entry_seed(entry), ty, visited),
        StorageEntryType::Keyed { hashers, key, value } => {
            match xor_type_hash(
                types,
                hashers_hash(hashers@, 0, storage_entry_seed(entry)),
                key,
                visited,
            ) {
                Some((h, v)) => xor_type_hash(types, h, value, v),
                None => None,
            }
        },
    }
}

/// Get the hash corresponding to a single storage entry.
pub fn get_storage_entry_hash(
    registry: &PortableRegistry,
    entry: &StorageEntryMetadata,
    visited_ids: &mut HashSet<u32>,
) -> (out: [u8; 32])
    requires
        storage_entry_hash(registry.types@, *entry, old(visited_ids)@) is Some,
    ensures
        storage_entry_hash(registry.types@, *entry, old(visited_ids)@) == Some(
            (out@, final(visited_ids)@),
        ),
        old(visited_ids)@.subset_of(final(visited_ids)@),
{
    let mut bytes = hash(entry.name.as_str().as_bytes());
    let modifier: [u8; 1] = [entry.modifier.discriminant()];
    assert(modifier@ =~= seq![entry.modifier.spec_discriminant()]);
    bytes = xor(bytes, hash(modifier.as_slice()));
    bytes = xor(bytes, hash(entry.default.as_slice()));

    match &entry.ty {
        StorageEntryType::Plain(ty) => {
            bytes = xor_with_type_hash(registry, bytes, *ty, visited_ids);
        },
        StorageEntryType::Keyed { hashers, key, value } => {
            let ghost seed = bytes@;
            let mut i: usize = 0;
            while i < hashers.len()
                invariant
                    i <= hashers.len(),
                    hashers_hash(hashers@, i as nat, bytes@) == hashers_hash(hashers@, 0, seed),
                decreases hashers.len() - i,
            {
                let block: [u8; 32] = [hashers[i].discriminant();32];
                assert(block@ =~= Seq::new(32, |j: int| hashers@[i as int].spec_discriminant()));
                bytes = hash_hashes(bytes, block);
                i += 1;
            }
            bytes = xor_with_type_hash(registry, bytes, *key, visited_ids);
            bytes = xor_with_type_hash(registry, bytes, *value, visited_ids);
        },
    }
    bytes
}

/// An error returned if we attempt to get the hash for a specific call, constant
/// or storage item that doesn't exist.
#[derive(Clone, Copy, Debug, PartialEq, Eq, Structural)]
pub enum NotFound {
    Pallet,
    Item,
}

/// The first pallet from position `from` on that has the given name.
pub open spec fn find_pallet(pallets: Seq<PalletMetadata>, name: Seq<char>, from: nat) -> Option<
    PalletMetadata,
>
    decreases pallets.len() - from,
{
    if from >= pallets.len() {
        None
    } else if pallets[from as int].name@ == name {
        Some(pallets[from as int])
    } else {
        find_pallet(pallets, name, from + 1)
    }
}

/// The first storage entry from position `from` on that has the given name.
pub open spec fn find_entry(entries: Seq<StorageEntryMetadata>, name: Seq<char>, from: nat) -> Option<
    StorageEntryMetadata,
>
    decreases entries.len() - from,
{
    if from >= entries.len() {
        None
    } else if entries[from as int].name@ == name {
        Some(entries[from as int])
    } else {
        find_entry(entries, name, from + 1)
    }
}

/// The storage entry that the two names select: the first entry of that name in the
/// first pallet of that name. A pallet without storage has no entries.
pub open spec fn find_storage_entry(
    metadata: RuntimeMetadataV14,
    pallet_name: Seq<char>,
    storage_name: Seq<char>,
) -> Result<StorageEntryMetadata, NotFound> {
    match find_pallet(metadata.pallets@, pallet_name, 0) {
        None => Err(NotFound::Pallet),
        Some(pallet) => match pallet.storage {
            None => Err(NotFound::Item),
            Some(storage) => match find_entry(storage.entries@, storage_name, 0) {
                None => Err(NotFound::Item),
                Some(entry) => Ok(entry),
            },
        },
    }
}

/// Whether the hash of the storage entry that the names select, if there is one, can
/// be computed: every type id met on the way is in the registry.
pub open spec fn storage_hash_defined(
    metadata: RuntimeMetadataV14,
    pallet_name: Seq<char>,
    storage_name: Seq<char>,
) -> bool {
    find_storage_entry(metadata, pallet_name, storage_name) matches Ok(entry)
        ==> storage_entry_hash(metadata.types.types@, entry, Set::empty()) is Some
}

/// The hash of the storage entry that the names select, or what was not found.
pub open spec fn storage_hash(
    metadata: RuntimeMetadataV14,
    pallet_name: Seq<char>,
    storage_name: Seq<char>,
) -> Result<Seq<u8>, NotFound> {
    match find_storage_entry(metadata, pallet_name, storage_name) {
        Err(e) => Err(e),
        Ok(entry) => Ok((storage_entry_hash(metadata.types.types@, entry, Set::empty())->0).0),
    }
}

/// Obtain the hash for a specific storage item, or an error if it's not found.
pub fn get_storage_hash(metadata: &RuntimeMetadataV14, pallet_name: &str, storage_name: &str) -> (out:
    Result<[u8; 32], NotFound>)
    requires
        storage_hash_defined(*metadata, pallet_name@, storage_name@),
    ensures
        match storage_hash(*metadata, pallet_name@, storage_name@) {
            Ok(h) => out matches Ok(o) && o@ == h,
            Err(e) => out == Err::<[u8; 32], NotFound>(e),
        },
{
    let mut p: usize = 0;
    while p < metadata.pallets.len() && !str_eq(metadata.pallets[p].name.as_str(), pallet_name)
        invariant
            p <= metadata.pallets.len(),
            find_pallet(metadata.pallets@, pallet_name@, p as nat) == find_pallet(
                metadata.pallets@,
                pallet_name@,
                0,
            ),
        decreases metadata.pallets.len() - p,
    {
        p += 1;
    }
    if p >= metadata.pallets.len() {
        return Err(NotFound::Pallet);
    }
    let pallet = &metadata.pallets[p];

    let storage = match &pallet.storage {
        Some(storage) => storage,
        None => {
            return Err(NotFound::Item);
        },
    };

    let mut e: usize = 0;
    while e < storage.entries.len() && !str_eq(storage.entries[e].name.as_str(), storage_name)
        invariant
            e <= storage.entries.len(),
            find_entry(storage.entries@, storage_name@, e as nat) == find_entry(
                storage.entries@,
                storage_name@,
                0,
            ),
        decreases storage.entries.len() - e,
    {
        e += 1;
    }
    if e >= storage.entries.len() {
        return Err(NotFound::Item);
    }
    let entry = &storage.entries[e];

    let mut visited_ids: HashSet<u32> = HashSet::new();
    let hash = get_storage_entry_hash(&metadata.types, entry, &mut visited_ids);
    Ok(hash)
}

} // verus!
