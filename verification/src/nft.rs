//! NFT module types.

use vstd::prelude::*;

verus! {

/// Type id of an `NFTField`.
pub type NFTFieldTypeId = u8;

/// Describes the data structure of an NFT class.
pub type NFTSchema = Vec<NFTFieldTypeId>;

/// The number of supported field types; valid type ids are `0..NFT_FIELD_TYPE_COUNT`.
pub const NFT_FIELD_TYPE_COUNT: u8 = 7;

/// The supported data types for an NFT.
#[derive(Debug, Clone, PartialEq)]
pub enum NFTField {
    I32(i32),
    U8(u8),
    U16(u16),
    U32(u32),
    U64(u64),
    U128(u128),
    Bytes32([u8; 32]),
}

/// The type id that belongs to a field's variant.
pub open spec fn spec_type_id(field: NFTField) -> NFTFieldTypeId {
    match field {
        NFTField::I32(_) => 0,
        NFTField::U8(_) => 1,
        NFTField::U16(_) => 2,
        NFTField::U32(_) => 3,
        NFTField::U64(_) => 4,
        NFTField::U128(_) => 5,
        NFTField::Bytes32(_) => 6,
    }
}

/// A field holds the zero value of its type.
pub open spec fn is_zero_value(field: NFTField) -> bool {
    match field {
        NFTField::I32(v) => v == 0,
        NFTField::U8(v) => v == 0,
        NFTField::U16(v) => v == 0,
        NFTField::U32(v) => v == 0,
        NFTField::U64(v) => v == 0,
        NFTField::U128(v) => v == 0,
        NFTField::Bytes32(bytes) => bytes@ == Seq::new(32, |i: int| 0u8),
    }
}

impl NFTField {
    /// Return the type ID of this field
    pub fn type_id(&self) -> (id: NFTFieldTypeId)
        ensures
            id == spec_type_id(*self),
            id < NFT_FIELD_TYPE_COUNT,
    {
        match self {
            NFTField::I32(_) => 0,
            NFTField::U8(_) => 1,
            NFTField::U16(_) => 2,
            NFTField::U32(_) => 3,
            NFTField::U64(_) => 4,
            NFTField::U128(_) => 5,
            NFTField::Bytes32(_) => 6,
        }
    }

    /// Return a new NFTField with a default value for the given type id.
    /// Only the ids of the supported types (`0..7`) name a field type.
    pub fn default_from_type_id(type_id: NFTFieldTypeId) -> (field: Self)
        requires
            type_id < NFT_FIELD_TYPE_COUNT,
        ensures
            spec_type_id(field) == type_id,
            is_zero_value(field),
    {
        if type_id == 0 {
            NFTField::I32(0)
        } else if type_id == 1 {
            NFTField::U8(0)
        } else if type_id == 2 {
            NFTField::U16(0)
        } else if type_id == 3 {
            NFTField::U32(0)
        } else if type_id == 4 {
            NFTField::U64(0)
        } else if type_id == 5 {
            NFTField::U128(0)
        } else {
            let bytes: [u8; 32] = [0u8; 32];
            assert(bytes@ =~= Seq::new(32, |i: int| 0u8));
            NFTField::Bytes32(bytes)
        }
    }
}

/// Every field's type id names one of the supported types, so the default
/// field of `field.type_id()` always exists.
pub proof fn lemma_type_id_is_valid(field: NFTField)
    ensures
        spec_type_id(field) < NFT_FIELD_TYPE_COUNT,
{
}

/// A zero-valued field is determined by its type id: the default field of a
/// type id is unique, and the default of `field.type_id()` is the zero value
/// of the same type as `field`.
pub proof fn lemma_zero_field_unique(a: NFTField, b: NFTField)
    requires
        is_zero_value(a),
        is_zero_value(b),
        spec_type_id(a) == spec_type_id(b),
    ensures
        a == b,
{
    broadcast use vstd::array::group_array_axioms;

    match (a, b) {
        (NFTField::Bytes32(x), NFTField::Bytes32(y)) => {
            assert(x =~= y);
        },
        _ => {},
    }
}

} // verus!
