use chain_listener::metadata::metadata_utils::{
    get_type_hash, hash_hashes, xor,
};
use chain_listener::metadata::portable::{
    Field, PortableRegistry, TypeDef, TypeDefPrimitive, Variant,
};
use sp_crypto_hashing::twox_256;
use std::collections::HashSet;

fn field(name: Option<&str>, ty: u32) -> Field {
    Field { name: name.map(|n| n.to_owned()), ty }
}

fn registry(types: Vec<TypeDef>) -> PortableRegistry {
    PortableRegistry { types }
}

fn u32_hash() -> [u8; 32] {
    twox_256(&[5, 5])
}

fn bool_hash() -> [u8; 32] {
    twox_256(&[5, 0])
}

#[test]
fn xor_is_bytewise() {
    let mut a = [0u8; 32];
    let mut b = [0u8; 32];
    a[0] = 0b1100;
    b[0] = 0b1010;
    a[31] = 0xff;
    let out = xor(a, b);
    assert_eq!(out[0], 0b0110);
    assert_eq!(out[31], 0xff);
    assert_eq!(out[1], 0);
}

#[test]
fn xor_of_equal_hashes_cancels() {
    let a = twox_256(b"same");
    assert_eq!(xor(a, a), [0u8; 32]);
}

#[test]
fn hash_hashes_is_the_hash_of_the_concatenation() {
    let a = [1u8; 32];
    let b = [2u8; 32];
    let mut joined = [1u8; 64];
    for byte in joined.iter_mut().skip(32) {
        *byte = 2;
    }
    assert_eq!(hash_hashes(a, b), twox_256(&joined));
    assert_ne!(hash_hashes(a, b), hash_hashes(b, a));
    assert_ne!(hash_hashes(a, a), [0u8; 32]);
}

#[test]
fn primitive_hash_is_tag_and_discriminant() {
    let reg = registry(vec![
        TypeDef::Primitive(TypeDefPrimitive::U32),
        TypeDef::Primitive(TypeDefPrimitive::Bool),
        TypeDef::Primitive(TypeDefPrimitive::I256),
    ]);
    assert_eq!(reg.type_hash(0), twox_256(&[5, 5]));
    assert_eq!(reg.type_hash(1), twox_256(&[5, 0]));
    assert_eq!(reg.type_hash(2), twox_256(&[5, 14]));
}

#[test]
fn primitive_discriminants_follow_declaration_order() {
    let all = [
        TypeDefPrimitive::Bool,
        TypeDefPrimitive::Char,
        TypeDefPrimitive::Str,
        TypeDefPrimitive::U8,
        TypeDefPrimitive::U16,
        TypeDefPrimitive::U32,
        TypeDefPrimitive::U64,
        TypeDefPrimitive::U128,
        TypeDefPrimitive::U256,
        TypeDefPrimitive::I8,
        TypeDefPrimitive::I16,
        TypeDefPrimitive::I32,
        TypeDefPrimitive::I64,
        TypeDefPrimitive::I128,
        TypeDefPrimitive::I256,
    ];
    for (position, primitive) in all.iter().enumerate() {
        assert_eq!(primitive.discriminant() as usize, position);
    }
}

#[test]
fn sequence_and_compact_xor_the_element_hash() {
    let reg = registry(vec![
        TypeDef::Primitive(TypeDefPrimitive::U32),
        TypeDef::Sequence(0),
        TypeDef::Compact(0),
    ]);
    assert_eq!(reg.type_hash(1), xor(twox_256(&[2]), u32_hash()));
    assert_eq!(reg.type_hash(2), xor(twox_256(&[6]), u32_hash()));
}

#[test]
fn array_hash_takes_the_length_in() {
    let reg = registry(vec![
        TypeDef::Primitive(TypeDefPrimitive::U32),
        TypeDef::Array { len: 0x0102_0304, type_param: 0 },
        TypeDef::Array { len: 4, type_param: 0 },
        TypeDef::Array { len: 5, type_param: 0 },
    ]);
    assert_eq!(reg.type_hash(1), xor(twox_256(&[3, 1, 2, 3, 4]), u32_hash()));
    assert_eq!(reg.type_hash(2), xor(twox_256(&[3, 0, 0, 0, 4]), u32_hash()));
    assert_ne!(reg.type_hash(2), reg.type_hash(3));
}

#[test]
fn tuple_hash_merges_members_in_order() {
    let reg = registry(vec![
        TypeDef::Primitive(TypeDefPrimitive::U32),
        TypeDef::Primitive(TypeDefPrimitive::Bool),
        TypeDef::Tuple(vec![0, 1]),
        TypeDef::Tuple(vec![1, 0]),
        TypeDef::Tuple(vec![]),
    ]);
    let expected = hash_hashes(hash_hashes(twox_256(&[4]), u32_hash()), bool_hash());
    assert_eq!(reg.type_hash(2), expected);
    assert_ne!(reg.type_hash(2), reg.type_hash(3));
    assert_eq!(reg.type_hash(4), twox_256(&[4]));
}

#[test]
fn composite_hash_merges_fields_in_order_with_their_names() {
    let reg = registry(vec![
        TypeDef::Primitive(TypeDefPrimitive::U32),
        TypeDef::Primitive(TypeDefPrimitive::Bool),
        TypeDef::Composite(vec![field(Some("a"), 0), field(None, 1)]),
    ]);
    let first = xor(u32_hash(), twox_256(b"a"));
    let expected = hash_hashes(hash_hashes(twox_256(&[0]), first), bool_hash());
    assert_eq!(reg.type_hash(2), expected);
}

#[test]
fn changing_a_field_name_order_or_type_changes_the_hash() {
    let base = registry(vec![
        TypeDef::Primitive(TypeDefPrimitive::U32),
        TypeDef::Primitive(TypeDefPrimitive::Bool),
        TypeDef::Composite(vec![field(Some("a"), 0), field(Some("b"), 1)]),
        TypeDef::Composite(vec![field(Some("x"), 0), field(Some("b"), 1)]),
        TypeDef::Composite(vec![field(Some("b"), 1), field(Some("a"), 0)]),
        TypeDef::Composite(vec![field(Some("a"), 1), field(Some("b"), 1)]),
    ]);
    let hash = base.type_hash(2);
    assert_ne!(hash, base.type_hash(3));
    assert_ne!(hash, base.type_hash(4));
    assert_ne!(hash, base.type_hash(5));
}

#[test]
fn variant_hash_merges_variant_names_and_fields() {
    let reg = registry(vec![
        TypeDef::Primitive(TypeDefPrimitive::U128),
        TypeDef::Variant(vec![
            Variant {
                name: "fill_block".to_owned(),
                fields: vec![field(Some("param"), 0)],
                index: 0,
                docs: vec![],
            },
            Variant { name: "remark".to_owned(), fields: vec![], index: 7, docs: vec![] },
        ]),
    ]);
    let u128_hash = twox_256(&[5, 7]);
    let first = hash_hashes(twox_256(b"fill_block"), xor(u128_hash, twox_256(b"param")));
    let second = twox_256(b"remark");
    let expected = hash_hashes(hash_hashes(twox_256(&[1]), first), second);
    assert_eq!(reg.type_hash(1), expected);
}

#[test]
fn bit_sequence_xors_order_then_store() {
    let reg = registry(vec![
        TypeDef::Primitive(TypeDefPrimitive::U8),
        TypeDef::Composite(vec![]),
        TypeDef::BitSequence { bit_store_type: 0, bit_order_type: 1 },
    ]);
    let expected = xor(xor(twox_256(&[7]), twox_256(&[0])), twox_256(&[5, 3]));
    assert_eq!(reg.type_hash(2), expected);
}

#[test]
fn a_type_met_twice_hashes_to_the_fixed_value_the_second_time() {
    let reg = registry(vec![
        TypeDef::Primitive(TypeDefPrimitive::U32),
        TypeDef::Tuple(vec![0, 0]),
    ]);
    let expected = hash_hashes(hash_hashes(twox_256(&[4]), u32_hash()), twox_256(&[123]));
    assert_eq!(reg.type_hash(1), expected);
}

#[test]
fn a_self_referential_type_hashes_and_ends() {
    // type 0 is a struct with a field `next` of a sequence of itself
    let reg = registry(vec![
        TypeDef::Composite(vec![field(Some("next"), 1)]),
        TypeDef::Sequence(0),
    ]);
    let inner = xor(twox_256(&[2]), twox_256(&[123]));
    let expected = hash_hashes(twox_256(&[0]), xor(inner, twox_256(b"next")));
    assert_eq!(reg.type_hash(0), expected);
    // and a type that is its own element
    let reg = registry(vec![TypeDef::Sequence(0)]);
    assert_eq!(reg.type_hash(0), xor(twox_256(&[2]), twox_256(&[123])));
}

#[test]
fn the_visited_set_grows_by_the_types_met() {
    let reg = registry(vec![
        TypeDef::Primitive(TypeDefPrimitive::U32),
        TypeDef::Sequence(0),
        TypeDef::Primitive(TypeDefPrimitive::Bool),
    ]);
    let mut visited = HashSet::new();
    let first = get_type_hash(&reg, 1, &mut visited);
    assert_eq!(first, xor(twox_256(&[2]), u32_hash()));
    assert!(visited.contains(&0) && visited.contains(&1) && !visited.contains(&2));
    let again = get_type_hash(&reg, 1, &mut visited);
    assert_eq!(again, twox_256(&[123]));
}

#[test]
fn the_same_types_in_another_order_hash_the_same() {
    let left = registry(vec![
        TypeDef::Primitive(TypeDefPrimitive::U32),
        TypeDef::Primitive(TypeDefPrimitive::Bool),
        TypeDef::Composite(vec![field(Some("a"), 0), field(None, 1)]),
        TypeDef::Variant(vec![Variant {
            name: "One".to_owned(),
            fields: vec![field(None, 2)],
            index: 0,
            docs: vec![],
        }]),
    ]);
    // the same four types, held in reverse; the variant also has another index and docs
    let right = registry(vec![
        TypeDef::Variant(vec![Variant {
            name: "One".to_owned(),
            fields: vec![field(None, 1)],
            index: 9,
            docs: vec!["docs".to_owned()],
        }]),
        TypeDef::Composite(vec![field(Some("a"), 3), field(None, 2)]),
        TypeDef::Primitive(TypeDefPrimitive::Bool),
        TypeDef::Primitive(TypeDefPrimitive::U32),
    ]);
    for id in 0..4u32 {
        assert_eq!(left.type_hash(id), right.type_hash(3 - id));
    }
}

#[test]
fn closed_registries_are_told_apart() {
    let closed = registry(vec![
        TypeDef::Primitive(TypeDefPrimitive::U32),
        TypeDef::Tuple(vec![0, 1]),
    ]);
    assert!(closed.is_closed());
    let dangling = registry(vec![
        TypeDef::Primitive(TypeDefPrimitive::U32),
        TypeDef::Tuple(vec![0, 2]),
    ]);
    assert!(!dangling.is_closed());
    let dangling_field = registry(vec![TypeDef::Variant(vec![Variant {
        name: "V".to_owned(),
        fields: vec![field(None, 1)],
        index: 0,
        docs: vec![],
    }])]);
    assert!(!dangling_field.is_closed());
    assert!(registry(vec![]).is_closed());
}

#[test]
fn resolve_goes_by_position() {
    let reg = registry(vec![TypeDef::Primitive(TypeDefPrimitive::U32), TypeDef::Sequence(0)]);
    assert_eq!(reg.resolve(1), Some(&TypeDef::Sequence(0)));
    assert_eq!(reg.resolve(2), None);
}

#[test]
fn try_type_hash_asks_for_a_closed_registry() {
    let closed = registry(vec![
        TypeDef::Primitive(TypeDefPrimitive::U32),
        TypeDef::Sequence(0),
    ]);
    assert_eq!(closed.try_type_hash(1), Some(closed.type_hash(1)));
    assert_eq!(closed.try_type_hash(2), None);
    let open = registry(vec![TypeDef::Primitive(TypeDefPrimitive::U32), TypeDef::Sequence(5)]);
    assert_eq!(open.try_type_hash(0), None);
}
