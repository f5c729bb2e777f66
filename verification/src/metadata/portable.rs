//! The portable type registry of a metadata snapshot: a table of structural type
//! definitions in which a type id is the index of its definition.

use vstd::prelude::*;

verus! {

/// A primitive type.
#[derive(Clone, Copy, Debug, PartialEq, Eq)]
pub enum TypeDefPrimitive {
    Bool,
    Char,
    Str,
    U8,
    U16,
    U32,
    U64,
    U128,
    U256,
    I8,
    I16,
    I32,
    I64,
    I128,
    I256,
}

impl TypeDefPrimitive {
    /// The position of the primitive in the declaration order, which is the byte that
    /// stands for it on the wire and in a type hash.
    pub open spec fn spec_discriminant(self) -> u8 {
        match self {
            TypeDefPrimitive::Bool => 0,
            TypeDefPrimitive::Char => 1,
            TypeDefPrimitive::Str => 2,
            TypeDefPrimitive::U8 => 3,
            TypeDefPrimitive::U16 => 4,
            TypeDefPrimitive::U32 => 5,
            TypeDefPrimitive::U64 => 6,
            TypeDefPrimitive::U128 => 7,
            TypeDefPrimitive::U256 => 8,
            TypeDefPrimitive::I8 => 9,
            TypeDefPrimitive::I16 => 10,
            TypeDefPrimitive::I32 => 11,
            TypeDefPrimitive::I64 => 12,
            TypeDefPrimitive::I128 => 13,
            TypeDefPrimitive::I256 => 14,
        }
    }

    /// The byte that stands for the primitive.
    pub fn discriminant(&self) -> (d: u8)
        ensures
            d == self.spec_discriminant(),
    {
        match self {
            TypeDefPrimitive::Bool => 0,
            TypeDefPrimitive::Char => 1,
            TypeDefPrimitive::Str => 2,
            TypeDefPrimitive::U8 => 3,
            TypeDefPrimitive::U16 => 4,
            TypeDefPrimitive::U32 => 5,
            TypeDefPrimitive::U64 => 6,
            TypeDefPrimitive::U128 => 7,
            TypeDefPrimitive::U256 => 8,
            TypeDefPrimitive::I8 => 9,
            TypeDefPrimitive::I16 => 10,
            TypeDefPrimitive::I32 => 11,
            TypeDefPrimitive::I64 => 12,
            TypeDefPrimitive::I128 => 13,
            TypeDefPrimitive::I256 => 14,
        }
    }
}

/// A field of a composite type or of a variant: an optional name (tuple-style
/// fields have none) and the id of the field's type.
#[derive(Clone, Debug, PartialEq, Eq)]
pub struct Field {
    pub name: Option<String>,
    pub ty: u32,
}

/// One labelled case of an enum-like type.
#[derive(Clone, Debug, PartialEq, Eq)]
pub struct Variant {
    pub name: String,
    pub fields: Vec<Field>,
    pub index: u8,
    pub docs: Vec<String>,
}

/// The structural definition of a type. Every `u32` in it is a type id.
#[derive(Clone, Debug, PartialEq, Eq)]
pub enum TypeDef {
    /// A struct: fields in declaration order.
    Composite(Vec<Field>),
    /// An enum: variants in declaration order.
    Variant(Vec<Variant>),
    /// A sequence of unknown length of the given element type.
    Sequence(u32),
    /// An array of fixed length.
    Array { len: u32, type_param: u32 },
    /// A tuple: member types in order.
    Tuple(Vec<u32>),
    /// A primitive.
    Primitive(TypeDefPrimitive),
    /// The compact encoding of the given type.
    Compact(u32),
    /// A sequence of bits with the given store and order types.
    BitSequence { bit_store_type: u32, bit_order_type: u32 },
}

/// A read-only table of type definitions. The type with id `i` is `types[i]`.
#[derive(Clone, Debug, PartialEq, Eq)]
pub struct PortableRegistry {
    pub types: Vec<TypeDef>,
}

impl PortableRegistry {
    /// Whether `id` names a type of the registry.
    pub open spec fn resolves(&self, id: u32) -> bool {
        id < self.types@.len()
    }

    /// The definition of the type `id`, or `None` where the registry has no such type.
    pub fn resolve(&self, id: u32) -> (def: Option<&TypeDef>)
        ensures
            def.is_some() == self.resolves(id),
            def matches Some(d) ==> *d == self.types@[id as int],
    {
        let idx: usize = id as usize;
        if idx < self.types.len() {
            Some(&self.types[idx])
        } else {
            None
        }
    }
}

} // verus!
