//! When two registries describe the same types: closed registries, registries of
//! the same shape, and what both mean for type hashes.

use crate::metadata::metadata_utils::{
    be_bytes, field_hash, fields_hash, lemma_unvisited_insert, lemma_unvisited_mono,
    members_hash, twox_256, type_def_hash, type_hash, unvisited, variant_hash, variants_hash,
    xor_type_hash, TAG_ARRAY, TAG_BIT_SEQUENCE, TAG_COMPACT, TAG_COMPOSITE, TAG_SEQUENCE,
    TAG_TUPLE, TAG_VARIANT,
};
use crate::metadata::metadata_utils::{
    find_entry, find_pallet, find_storage_entry, storage_entry_hash, storage_hash_defined,
};
use crate::metadata::portable::{Field, PortableRegistry, TypeDef, Variant};
use crate::metadata::runtime_metadata::{
    PalletMetadata, RuntimeMetadataV14, StorageEntryMetadata, StorageEntryType,
};
use vstd::prelude::*;
use vstd::utf8::encode_utf8;

verus! {

/// Whether the type of every field is one of the first `n` types.
pub open spec fn fields_resolve(n: nat, fields: Seq<Field>) -> bool {
    forall|i: int| 0 <= i < fields.len() ==> (#[trigger] fields[i]).ty < n
}

/// Whether every type that the definition refers to is one of the first `n` types.
pub open spec fn def_resolves(n: nat, def: TypeDef) -> bool {
    match def {
        TypeDef::Composite(fields) => fields_resolve(n, fields@),
        TypeDef::Variant(variants) => forall|i: int|
            0 <= i < variants@.len() ==> fields_resolve(n, (#[trigger] variants@[i]).fields@),
        TypeDef::Sequence(type_param) => type_param < n,
        TypeDef::Array { len, type_param } => type_param < n,
        TypeDef::Tuple(members) => forall|i: int|
            0 <= i < members@.len() ==> (#[trigger] members@[i]) < n,
        TypeDef::Primitive(_) => true,
        TypeDef::Compact(type_param) => type_param < n,
        TypeDef::BitSequence { bit_store_type, bit_order_type } => bit_store_type < n
            && bit_order_type < n,
    }
}

/// Whether the table is closed: every type that one of its definitions refers to is
/// in the table.
pub open spec fn closed(types: Seq<TypeDef>) -> bool {
    forall|i: int| 0 <= i < types.len() ==> def_resolves(types.len(), #[trigger] types[i])
}

/// Whether two lists of fields have the same shape: as many fields, with the same
/// names in the same order, and types that `ids` maps onto each other.
pub open spec fn fields_alike(ids: spec_fn(u32) -> u32, left: Seq<Field>, right: Seq<Field>) -> bool {
    &&& left.len() == right.len()
    &&& forall|i: int|
        0 <= i < left.len() ==> {
            &&& (#[trigger] right[i]).ty == ids(left[i].ty)
            &&& match (left[i].name, right[i].name) {
                (Some(l), Some(r)) => l@ == r@,
                (None, None) => true,
                _ => false,
            }
        }
}

/// Whether two definitions have the same shape: the same kind, the same names, sizes
/// and order, and types that `ids` maps onto each other. The index and the
/// documentation of a variant are no part of the shape.
pub open spec fn defs_alike(ids: spec_fn(u32) -> u32, left: TypeDef, right: TypeDef) -> bool {
    match (left, right) {
        (TypeDef::Composite(l), TypeDef::Composite(r)) => fields_alike(ids, l@, r@),
        (TypeDef::Variant(l), TypeDef::Variant(r)) => {
            &&& l@.len() == r@.len()
            &&& forall|i: int|
                0 <= i < l@.len() ==> (#[trigger] r@[i]).name@ == l@[i].name@ && fields_alike(
                    ids,
                    l@[i].fields@,
                    r@[i].fields@,
                )
        },
        (TypeDef::Sequence(l), TypeDef::Sequence(r)) => r == ids(l),
        (
            TypeDef::Array { len: l_len, type_param: l },
            TypeDef::Array { len: r_len, type_param: r },
        ) => l_len == r_len && r == ids(l),
        (TypeDef::Tuple(l), TypeDef::Tuple(r)) => {
            &&& l@.len() == r@.len()
            &&& forall|i: int| 0 <= i < l@.len() ==> (#[trigger] r@[i]) == ids(l@[i])
        },
        (TypeDef::Primitive(l), TypeDef::Primitive(r)) => l == r,
        (TypeDef::Compact(l), TypeDef::Compact(r)) => r == ids(l),
        (
            TypeDef::BitSequence { bit_store_type: l_store, bit_order_type: l_order },
            TypeDef::BitSequence { bit_store_type: r_store, bit_order_type: r_order },
        ) => r_store == ids(l_store) && r_order == ids(l_order),
        _ => false,
    }
}

/// Whether `ids` carries the table `left` into the table `right` without changing
/// any shape: it sends different types of `left` to different types of `right`,
/// and each type to one of the same shape. Two tables that hold the same types in
/// another order are related so by the map from each id to its new place.
pub open spec fn same_shape(ids: spec_fn(u32) -> u32, left: Seq<TypeDef>, right: Seq<TypeDef>) -> bool {
    &&& forall|i: u32, j: u32|
        i < left.len() && j < left.len() && #[trigger] ids(i) == #[trigger] ids(j) ==> i == j
    &&& forall|i: u32|
        i < left.len() ==> (#[trigger] ids(i)) < right.len() && defs_alike(
            ids,
            left[i as int],
            right[ids(i) as int],
        )
}

/// Whether the two visited sets hold the same of the first `n` types, up to `ids`.
pub open spec fn visited_alike(
    ids: spec_fn(u32) -> u32,
    n: nat,
    left: Set<u32>,
    right: Set<u32>,
) -> bool {
    forall|i: u32| i < n ==> (left.contains(i) <==> right.contains(#[trigger] ids(i)))
}

/// Whether two hash computations both end, with the same hash, and with visited
/// sets that hold the same types up to `ids`.
pub open spec fn hashes_alike(
    ids: spec_fn(u32) -> u32,
    n: nat,
    left: Option<(Seq<u8>, Set<u32>)>,
    right: Option<(Seq<u8>, Set<u32>)>,
) -> bool {
    &&& left is Some
    &&& right is Some
    &&& (left->0).0 == (right->0).0
    &&& visited_alike(ids, n, (left->0).1, (right->0).1)
}

proof fn lemma_union_alike(
    ids: spec_fn(u32) -> u32,
    n: nat,
    left: Set<u32>,
    right: Set<u32>,
    more_left: Set<u32>,
    more_right: Set<u32>,
)
    requires
        visited_alike(ids, n, left, right),
        visited_alike(ids, n, more_left, more_right),
    ensures
        visited_alike(ids, n, left.union(more_left), right.union(more_right)),
{
}

proof fn lemma_type_hash_alike(
    ids: spec_fn(u32) -> u32,
    left: Seq<TypeDef>,
    right: Seq<TypeDef>,
    id: u32,
    visited_left: Set<u32>,
    visited_right: Set<u32>,
)
    requires
        same_shape(ids, left, right),
        closed(left),
        id < left.len(),
        visited_alike(ids, left.len(), visited_left, visited_right),
    ensures
        hashes_alike(
            ids,
            left.len(),
            type_hash(left, id, visited_left),
            type_hash(right, ids(id), visited_right),
        ),
    decreases unvisited(left.len(), visited_left), 0nat, 0nat,
{
    if !visited_left.contains(id) {
        let next_left = visited_left.insert(id);
        let next_right = visited_right.insert(ids(id));
        assert(visited_alike(ids, left.len(), next_left, next_right));
        lemma_unvisited_insert(left.len(), visited_left, id);
        lemma_type_def_hash_alike(
            ids,
            left,
            right,
            left[id as int],
            right[ids(id) as int],
            next_left,
            next_right,
        );
    }
}

proof fn lemma_xor_type_hash_alike(
    ids: spec_fn(u32) -> u32,
    left: Seq<TypeDef>,
    right: Seq<TypeDef>,
    seed: Seq<u8>,
    id: u32,
    visited_left: Set<u32>,
    visited_right: Set<u32>,
)
    requires
        same_shape(ids, left, right),
        closed(left),
        id < left.len(),
        visited_alike(ids, left.len(), visited_left, visited_right),
    ensures
        hashes_alike(
            ids,
            left.len(),
            xor_type_hash(left, seed, id, visited_left),
            xor_type_hash(right, seed, ids(id), visited_right),
        ),
    decreases unvisited(left.len(), visited_left), 1nat, 0nat,
{
    lemma_type_hash_alike(ids, left, right, id, visited_left, visited_right);
}

proof fn lemma_type_def_hash_alike(
    ids: spec_fn(u32) -> u32,
    left: Seq<TypeDef>,
    right: Seq<TypeDef>,
    def_left: TypeDef,
    def_right: TypeDef,
    visited_left: Set<u32>,
    visited_right: Set<u32>,
)
    requires
        same_shape(ids, left, right),
        closed(left),
        def_resolves(left.len(), def_left),
        defs_alike(ids, def_left, def_right),
        visited_alike(ids, left.len(), visited_left, visited_right),
    ensures
        hashes_alike(
            ids,
            left.len(),
            type_def_hash(left, def_left, visited_left),
            type_def_hash(right, def_right, visited_right),
        ),
    decreases unvisited(left.len(), visited_left), 6nat, 0nat,
{
    match (def_left, def_right) {
        (TypeDef::Composite(l), TypeDef::Composite(r)) => {
            lemma_fields_hash_alike(
                ids,
                left,
                right,
                l@,
                r@,
                0,
                twox_256(seq![TAG_COMPOSITE]),
                visited_left,
                visited_right,
            );
        },
        (TypeDef::Variant(l), TypeDef::Variant(r)) => {
            lemma_variants_hash_alike(
                ids,
                left,
                right,
                l@,
                r@,
                0,
                twox_256(seq![TAG_VARIANT]),
                visited_left,
                visited_right,
            );
        },
        (TypeDef::Sequence(l), TypeDef::Sequence(r)) => {
            lemma_xor_type_hash_alike(
                ids,
                left,
                right,
                twox_256(seq![TAG_SEQUENCE]),
                l,
                visited_left,
                visited_right,
            );
        },
        (
            TypeDef::Array { len: l_len, type_param: l },
            TypeDef::Array { len: r_len, type_param: r },
        ) => {
            lemma_xor_type_hash_alike(
                ids,
                left,
                right,
                twox_256(seq![TAG_ARRAY] + be_bytes(l_len)),
                l,
                visited_left,
                visited_right,
            );
        },
        (TypeDef::Tuple(l), TypeDef::Tuple(r)) => {
            lemma_members_hash_alike(
                ids,
                left,
                right,
                l@,
                r@,
                0,
                twox_256(seq![TAG_TUPLE]),
                visited_left,
                visited_right,
            );
        },
        (TypeDef::Primitive(l), TypeDef::Primitive(r)) => {},
        (TypeDef::Compact(l), TypeDef::Compact(r)) => {
            lemma_xor_type_hash_alike(
                ids,
                left,
                right,
                twox_256(seq![TAG_COMPACT]),
                l,
                visited_left,
                visited_right,
            );
        },
        (
            TypeDef::BitSequence { bit_store_type: l_store, bit_order_type: l_order },
            TypeDef::BitSequence { bit_store_type: r_store, bit_order_type: r_order },
        ) => {
            let seed = twox_256(seq![TAG_BIT_SEQUENCE]);
            lemma_xor_type_hash_alike(ids, left, right, seed, l_order, visited_left, visited_right);
            let first_left = xor_type_hash(left, seed, l_order, visited_left)->0;
            let first_right = xor_type_hash(right, seed, r_order, visited_right)->0;
            lemma_union_alike(
                ids,
                left.len(),
                visited_left,
                visited_right,
                first_left.1,
                first_right.1,
            );
            lemma_unvisited_mono(left.len(), visited_left, visited_left.union(first_left.1));
            lemma_xor_type_hash_alike(
                ids,
                left,
                right,
                first_left.0,
                l_store,
                visited_left.union(first_left.1),
                visited_right.union(first_right.1),
            );
        },
        _ => {},
    }
}

proof fn lemma_field_hash_alike(
    ids: spec_fn(u32) -> u32,
    left: Seq<TypeDef>,
    right: Seq<TypeDef>,
    field_left: Field,
    field_right: Field,
    visited_left: Set<u32>,
    visited_right: Set<u32>,
)
    requires
        same_shape(ids, left, right),
        closed(left),
        field_left.ty < left.len(),
        field_right.ty == ids(field_left.ty),
        match (field_left.name, field_right.name) {
            (Some(l), Some(r)) => l@ == r@,
            (None, None) => true,
            _ => false,
        },
        visited_alike(ids, left.len(), visited_left, visited_right),
    ensures
        hashes_alike(
            ids,
            left.len(),
            field_hash(left, field_left, visited_left),
            field_hash(right, field_right, visited_right),
        ),
    decreases unvisited(left.len(), visited_left), 1nat, 0nat,
{
    lemma_type_hash_alike(ids, left, right, field_left.ty, visited_left, visited_right);
}

proof fn lemma_fields_hash_alike(
    ids: spec_fn(u32) -> u32,
    left: Seq<TypeDef>,
    right: Seq<TypeDef>,
    fields_left: Seq<Field>,
    fields_right: Seq<Field>,
    from: nat,
    acc: Seq<u8>,
    visited_left: Set<u32>,
    visited_right: Set<u32>,
)
    requires
        same_shape(ids, left, right),
        closed(left),
        fields_resolve(left.len(), fields_left),
        fields_alike(ids, fields_left, fields_right),
        visited_alike(ids, left.len(), visited_left, visited_right),
    ensures
        hashes_alike(
            ids,
            left.len(),
            fields_hash(left, fields_left, from, acc, visited_left),
            fields_hash(right, fields_right, from, acc, visited_right),
        ),
    decreases unvisited(left.len(), visited_left), 2nat, fields_left.len() - from,
{
    if from < fields_left.len() {
        let l = fields_left[from as int];
        let r = fields_right[from as int];
        lemma_field_hash_alike(ids, left, right, l, r, visited_left, visited_right);
        let first_left = field_hash(left, l, visited_left)->0;
        let first_right = field_hash(right, r, visited_right)->0;
        lemma_union_alike(
            ids,
            left.len(),
            visited_left,
            visited_right,
            first_left.1,
            first_right.1,
        );
        lemma_unvisited_mono(left.len(), visited_left, visited_left.union(first_left.1));
        lemma_fields_hash_alike(
            ids,
            left,
            right,
            fields_left,
            fields_right,
            from + 1,
            twox_256(acc + first_left.0),
            visited_left.union(first_left.1),
            visited_right.union(first_right.1),
        );
    }
}

proof fn lemma_variant_hash_alike(
    ids: spec_fn(u32) -> u32,
    left: Seq<TypeDef>,
    right: Seq<TypeDef>,
    variant_left: Variant,
    variant_right: Variant,
    visited_left: Set<u32>,
    visited_right: Set<u32>,
)
    requires
        same_shape(ids, left, right),
        closed(left),
        fields_resolve(left.len(), variant_left.fields@),
        variant_left.name@ == variant_right.name@,
        fields_alike(ids, variant_left.fields@, variant_right.fields@),
        visited_alike(ids, left.len(), visited_left, visited_right),
    ensures
        hashes_alike(
            ids,
            left.len(),
            variant_hash(left, variant_left, visited_left),
            variant_hash(right, variant_right, visited_right),
        ),
    decreases unvisited(left.len(), visited_left), 3nat, 0nat,
{
    lemma_fields_hash_alike(
        ids,
        left,
        right,
        variant_left.fields@,
        variant_right.fields@,
        0,
        twox_256(encode_utf8(variant_left.name@)),
        visited_left,
        visited_right,
    );
}

proof fn lemma_variants_hash_alike(
    ids: spec_fn(u32) -> u32,
    left: Seq<TypeDef>,
    right: Seq<TypeDef>,
    variants_left: Seq<Variant>,
    variants_right: Seq<Variant>,
    from: nat,
    acc: Seq<u8>,
    visited_left: Set<u32>,
    visited_right: Set<u32>,
)
    requires
        same_shape(ids, left, right),
        closed(left),
        forall|i: int|
            0 <= i < variants_left.len() ==> fields_resolve(
                left.len(),
                (#[trigger] variants_left[i]).fields@,
            ),
        variants_left.len() == variants_right.len(),
        forall|i: int|
            0 <= i < variants_left.len() ==> (#[trigger] variants_right[i]).name@
                == variants_left[i].name@ && fields_alike(
                ids,
                variants_left[i].fields@,
                variants_right[i].fields@,
            ),
        visited_alike(ids, left.len(), visited_left, visited_right),
    ensures
        hashes_alike(
            ids,
            left.len(),
            variants_hash(left, variants_left, from, acc, visited_left),
            variants_hash(right, variants_right, from, acc, visited_right),
        ),
    decreases unvisited(left.len(), visited_left), 5nat, variants_left.len() - from,
{
    if from < variants_left.len() {
        let l = variants_left[from as int];
        let r = variants_right[from as int];
        lemma_variant_hash_alike(ids, left, right, l, r, visited_left, visited_right);
        let first_left = variant_hash(left, l, visited_left)->0;
        let first_right = variant_hash(right, r, visited_right)->0;
        lemma_union_alike(
            ids,
            left.len(),
            visited_left,
            visited_right,
            first_left.1,
            first_right.1,
        );
        lemma_unvisited_mono(left.len(), visited_left, visited_left.union(first_left.1));
        lemma_variants_hash_alike(
            ids,
            left,
            right,
            variants_left,
            variants_right,
            from + 1,
            twox_256(acc + first_left.0),
            visited_left.union(first_left.1),
            visited_right.union(first_right.1),
        );
    }
}

proof fn lemma_members_hash_alike(
    ids: spec_fn(u32) -> u32,
    left: Seq<TypeDef>,
    right: Seq<TypeDef>,
    members_left: Seq<u32>,
    members_right: Seq<u32>,
    from: nat,
    acc: Seq<u8>,
    visited_left: Set<u32>,
    visited_right: Set<u32>,
)
    requires
        same_shape(ids, left, right),
        closed(left),
        forall|i: int| 0 <= i < members_left.len() ==> (#[trigger] members_left[i]) < left.len(),
        members_left.len() == members_right.len(),
        forall|i: int|
            0 <= i < members_left.len() ==> (#[trigger] members_right[i]) == ids(members_left[i]),
        visited_alike(ids, left.len(), visited_left, visited_right),
    ensures
        hashes_alike(
            ids,
            left.len(),
            members_hash(left, members_left, from, acc, visited_left),
            members_hash(right, members_right, from, acc, visited_right),
        ),
    decreases unvisited(left.len(), visited_left), 2nat, members_left.len() - from,
{
    if from < members_left.len() {
        let l = members_left[from as int];
        let r = members_right[from as int];
        lemma_type_hash_alike(ids, left, right, l, visited_left, visited_right);
        let first_left = type_hash(left, l, visited_left)->0;
        let first_right = type_hash(right, r, visited_right)->0;
        lemma_union_alike(
            ids,
            left.len(),
            visited_left,
            visited_right,
            first_left.1,
            first_right.1,
        );
        lemma_unvisited_mono(left.len(), visited_left, visited_left.union(first_left.1));
        lemma_members_hash_alike(
            ids,
            left,
            right,
            members_left,
            members_right,
            from + 1,
            twox_256(acc + first_left.0),
            visited_left.union(first_left.1),
            visited_right.union(first_right.1),
        );
    }
}

/// Type hashes do not depend on where a registry holds its types. If `ids` carries
/// the closed table `left` into the table `right` without changing any shape, the
/// hash of each type of `left` is the hash of the type of `right` that `ids` sends
/// it to.
pub proof fn lemma_same_shape_same_hash(
    ids: spec_fn(u32) -> u32,
    left: Seq<TypeDef>,
    right: Seq<TypeDef>,
    id: u32,
)
    requires
        same_shape(ids, left, right),
        closed(left),
        id < left.len(),
    ensures
        type_hash(left, id, Set::empty()) is Some,
        type_hash(right, ids(id), Set::empty()) is Some,
        (type_hash(left, id, Set::empty())->0).0 == (type_hash(right, ids(id), Set::empty())->0).0,
{
    lemma_type_hash_alike(ids, left, right, id, Set::empty(), Set::empty());
}


proof fn lemma_defs_alike_reflexive(def: TypeDef)
    ensures
        defs_alike(|i: u32| i, def, def),
{
    let ids = |i: u32| i;
    match def {
        TypeDef::Composite(fields) => {
            assert(fields_alike(ids, fields@, fields@));
        },
        TypeDef::Variant(variants) => {
            assert forall|i: int| 0 <= i < variants@.len() implies fields_alike(
                ids,
                variants@[i].fields@,
                (#[trigger] variants@[i]).fields@,
            ) by {}
        },
        _ => {},
    }
}

/// In a closed table the hash of every type of the table is defined, whatever was
/// visited before.
pub proof fn lemma_closed_type_hash(types: Seq<TypeDef>, id: u32, visited: Set<u32>)
    requires
        closed(types),
        id < types.len(),
    ensures
        type_hash(types, id, visited) is Some,
{
    let ids = |i: u32| i;
    assert forall|i: u32| i < types.len() implies (#[trigger] ids(i)) < types.len() && defs_alike(
        ids,
        types[i as int],
        types[ids(i) as int],
    ) by {
        lemma_defs_alike_reflexive(types[i as int]);
    }
    lemma_type_hash_alike(ids, types, types, id, visited, visited);
}

/// Whether the types of a storage entry are among the first `n` types.
pub open spec fn entry_resolves(n: nat, entry: StorageEntryMetadata) -> bool {
    match entry.ty {
        StorageEntryType::Plain(ty) => ty < n,
        StorageEntryType::Keyed { hashers, key, value } => key < n && value < n,
    }
}

/// Whether the types of every storage entry of the pallet are among the first `n`
/// types.
pub open spec fn pallet_resolves(n: nat, pallet: PalletMetadata) -> bool {
    pallet.storage matches Some(storage) ==> forall|e: int|
        0 <= e < storage.entries@.len() ==> entry_resolves(n, #[trigger] storage.entries@[e])
}

/// Whether the metadata is closed: its registry is, and the types of every storage
/// entry are in the registry.
pub open spec fn metadata_closed(metadata: RuntimeMetadataV14) -> bool {
    &&& closed(metadata.types.types@)
    &&& forall|p: int|
        0 <= p < metadata.pallets@.len() ==> pallet_resolves(
            metadata.types.types@.len(),
            #[trigger] metadata.pallets@[p],
        )
}

proof fn lemma_find_pallet_is_member(pallets: Seq<PalletMetadata>, name: Seq<char>, from: nat)
    ensures
        find_pallet(pallets, name, from) matches Some(pallet) ==> exists|p: int|
            0 <= p < pallets.len() && #[trigger] pallets[p] == pallet,
    decreases pallets.len() - from,
{
    if from < pallets.len() && pallets[from as int].name@ != name {
        lemma_find_pallet_is_member(pallets, name, from + 1);
    }
}

proof fn lemma_find_entry_is_member(entries: Seq<StorageEntryMetadata>, name: Seq<char>, from: nat)
    ensures
        find_entry(entries, name, from) matches Some(entry) ==> exists|e: int|
            0 <= e < entries.len() && #[trigger] entries[e] == entry,
    decreases entries.len() - from,
{
    if from < entries.len() && entries[from as int].name@ != name {
        lemma_find_entry_is_member(entries, name, from + 1);
    }
}

/// In closed metadata the hash of every storage entry is defined.
pub proof fn lemma_closed_storage_hash(
    metadata: RuntimeMetadataV14,
    pallet_name: Seq<char>,
    storage_name: Seq<char>,
)
    requires
        metadata_closed(metadata),
    ensures
        storage_hash_defined(metadata, pallet_name, storage_name),
{
    let types = metadata.types.types@;
    if find_storage_entry(metadata, pallet_name, storage_name) is Ok {
        let entry = find_storage_entry(metadata, pallet_name, storage_name)->Ok_0;
        lemma_find_pallet_is_member(metadata.pallets@, pallet_name, 0);
        let pallet = find_pallet(metadata.pallets@, pallet_name, 0)->0;
        let storage = pallet.storage->0;
        lemma_find_entry_is_member(storage.entries@, storage_name, 0);
        assert(pallet_resolves(types.len(), pallet));
        assert(entry_resolves(types.len(), entry));
        match entry.ty {
            StorageEntryType::Plain(ty) => {
                lemma_closed_type_hash(types, ty, Set::empty());
            },
            StorageEntryType::Keyed { hashers, key, value } => {
                lemma_closed_type_hash(types, key, Set::empty());
                let after_key = (type_hash(types, key, Set::empty())->0).1;
                lemma_closed_type_hash(types, value, after_key);
            },
        }
    }
}

fn fields_in_range(fields: &Vec<Field>, n: usize) -> (all: bool)
    ensures
        all == fields_resolve(n as nat, fields@),
{
    let mut i: usize = 0;
    while i < fields.len()
        invariant
            i <= fields.len(),
            forall|j: int| 0 <= j < i ==> (#[trigger] fields@[j]).ty < n,
        decreases fields.len() - i,
    {
        if fields[i].ty as usize >= n {
            return false;
        }
        i += 1;
    }
    true
}

#[verifier::loop_isolation(false)]
fn def_in_range(def: &TypeDef, n: usize) -> (all: bool)
    ensures
        all == def_resolves(n as nat, *def),
{
    match def {
        TypeDef::Composite(fields) => fields_in_range(fields, n),
        TypeDef::Variant(variants) => {
            let mut i: usize = 0;
            while i < variants.len()
                invariant
                    i <= variants.len(),
                    forall|j: int|
                        0 <= j < i ==> fields_resolve(n as nat, (#[trigger] variants@[j]).fields@),
                decreases variants.len() - i,
            {
                if !fields_in_range(&variants[i].fields, n) {
                    assert(!fields_resolve(n as nat, variants@[i as int].fields@));
                    return false;
                }
                i += 1;
            }
            true
        },
        TypeDef::Sequence(type_param) => (*type_param as usize) < n,
        TypeDef::Array { len, type_param } => (*type_param as usize) < n,
        TypeDef::Tuple(members) => {
            let mut i: usize = 0;
            while i < members.len()
                invariant
                    i <= members.len(),
                    forall|j: int| 0 <= j < i ==> (#[trigger] members@[j]) < n,
                decreases members.len() - i,
            {
                if members[i] as usize >= n {
                    assert(!(members@[i as int] < n));
                    return false;
                }
                i += 1;
            }
            true
        },
        TypeDef::Primitive(_) => true,
        TypeDef::Compact(type_param) => (*type_param as usize) < n,
        TypeDef::BitSequence { bit_store_type, bit_order_type } => (*bit_store_type as usize) < n
            && (*bit_order_type as usize) < n,
    }
}

impl PortableRegistry {
    /// Whether the registry is closed: every type that one of its definitions refers
    /// to is in the registry.
    pub fn is_closed(&self) -> (all: bool)
        ensures
            all == closed(self.types@),
            all ==> forall|id: u32, visited: Set<u32>|
                id < self.types@.len() ==> (#[trigger] type_hash(self.types@, id, visited)) is Some,
    {
        let n = self.types.len();
        let mut i: usize = 0;
        while i < n
            invariant
                n == self.types@.len(),
                i <= n,
                forall|j: int| 0 <= j < i ==> def_resolves(n as nat, #[trigger] self.types@[j]),
            decreases n - i,
        {
            if !def_in_range(&self.types[i], n) {
                return false;
            }
            i += 1;
        }
        proof {
            assert forall|id: u32, visited: Set<u32>| id < self.types@.len() implies (
            #[trigger] type_hash(self.types@, id, visited)) is Some by {
                lemma_closed_type_hash(self.types@, id, visited);
            }
        }
        true
    }

    /// The hash of the type `id` where it is known to be defined: in a closed
    /// registry, for a type of the registry.
    pub fn try_type_hash(&self, id: u32) -> (out: Option<[u8; 32]>)
        ensures
            out is Some <==> closed(self.types@) && self.resolves(id),
            out matches Some(hash) ==> type_hash(self.types@, id, Set::empty()) is Some && hash@
                == (type_hash(self.types@, id, Set::empty())->0).0,
    {
        if (id as usize) < self.types.len() && self.is_closed() {
            Some(self.type_hash(id))
        } else {
            None
        }
    }
}

#[verifier::loop_isolation(false)]
fn pallet_in_range(pallet: &PalletMetadata, n: usize) -> (all: bool)
    ensures
        all == pallet_resolves(n as nat, *pallet),
{
    match &pallet.storage {
        None => true,
        Some(storage) => {
            let mut e: usize = 0;
            while e < storage.entries.len()
                invariant
                    e <= storage.entries.len(),
                    forall|j: int|
                        0 <= j < e ==> entry_resolves(n as nat, #[trigger] storage.entries@[j]),
                decreases storage.entries.len() - e,
            {
                let inside = match &storage.entries[e].ty {
                    StorageEntryType::Plain(ty) => (*ty as usize) < n,
                    StorageEntryType::Keyed { hashers, key, value } => (*key as usize) < n && (
                    *value as usize) < n,
                };
                if !inside {
                    assert(!entry_resolves(n as nat, storage.entries@[e as int]));
                    return false;
                }
                e += 1;
            }
            true
        },
    }
}

impl RuntimeMetadataV14 {
    /// Whether the metadata is closed: every type that a definition of the registry
    /// or a storage entry refers to is in the registry. The hash of every storage
    /// entry of closed metadata is defined.
    pub fn is_closed(&self) -> (all: bool)
        ensures
            all == metadata_closed(*self),
            all ==> forall|pallet: Seq<char>, storage: Seq<char>| #[trigger]
                storage_hash_defined(*self, pallet, storage),
    {
        if !self.types.is_closed() {
            return false;
        }
        let n = self.types.types.len();
        let mut p: usize = 0;
        while p < self.pallets.len()
            invariant
                n == self.types.types@.len(),
                p <= self.pallets.len(),
                forall|j: int| 0 <= j < p ==> pallet_resolves(n as nat, #[trigger] self.pallets@[j]),
            decreases self.pallets.len() - p,
        {
            if !pallet_in_range(&self.pallets[p], n) {
                return false;
            }
            p += 1;
        }
        proof {
            assert forall|pallet: Seq<char>, storage: Seq<char>| #[trigger]
                storage_hash_defined(*self, pallet, storage) by {
                lemma_closed_storage_hash(*self, pallet, storage);
            }
        }
        true
    }
}

} // verus!
