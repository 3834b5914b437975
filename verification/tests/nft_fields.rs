use crml::nft::{NFTField, NFTSchema, NFT_FIELD_TYPE_COUNT};

#[test]
fn type_ids_of_all_variants() {
    assert_eq!(NFTField::I32(-5).type_id(), 0);
    assert_eq!(NFTField::U8(7).type_id(), 1);
    assert_eq!(NFTField::U16(300).type_id(), 2);
    assert_eq!(NFTField::U32(70_000).type_id(), 3);
    assert_eq!(NFTField::U64(u64::MAX).type_id(), 4);
    assert_eq!(NFTField::U128(u128::MAX).type_id(), 5);
    assert_eq!(NFTField::Bytes32([9u8; 32]).type_id(), 6);
}

#[test]
fn default_fields_are_zero() {
    assert_eq!(NFTField::default_from_type_id(0), NFTField::I32(0));
    assert_eq!(NFTField::default_from_type_id(1), NFTField::U8(0));
    assert_eq!(NFTField::default_from_type_id(2), NFTField::U16(0));
    assert_eq!(NFTField::default_from_type_id(3), NFTField::U32(0));
    assert_eq!(NFTField::default_from_type_id(4), NFTField::U64(0));
    assert_eq!(NFTField::default_from_type_id(5), NFTField::U128(0));
    assert_eq!(NFTField::default_from_type_id(6), NFTField::Bytes32([0u8; 32]));
}

#[test]
fn default_round_trips_through_type_id() {
    for id in 0..NFT_FIELD_TYPE_COUNT {
        assert_eq!(NFTField::default_from_type_id(id).type_id(), id);
    }
}

#[test]
fn default_of_a_fields_type_is_its_zero_value() {
    let fields = vec![
        NFTField::I32(42),
        NFTField::U8(1),
        NFTField::U16(2),
        NFTField::U32(3),
        NFTField::U64(4),
        NFTField::U128(5),
        NFTField::Bytes32([1u8; 32]),
    ];
    let schema: NFTSchema = fields.iter().map(|f| f.type_id()).collect();
    assert_eq!(schema, vec![0, 1, 2, 3, 4, 5, 6]);
    for f in fields.iter() {
        let d = NFTField::default_from_type_id(f.type_id());
        assert_eq!(d.type_id(), f.type_id());
        assert_ne!(&d, f);
    }
}
