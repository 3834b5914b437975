use crml::runtime::{
    Author11, CurrencyToVoteHandler, Test, BLOCK_AUTHOR, INIT_TIMESTAMP, SESSIONS_PER_ERA,
};

#[test]
fn currency_to_vote_is_identity_on_u64() {
    assert_eq!(CurrencyToVoteHandler::convert(0), 0);
    assert_eq!(CurrencyToVoteHandler::convert(12_345), 12_345);
    assert_eq!(CurrencyToVoteHandler::convert(u64::MAX), u64::MAX);
}

#[test]
fn currency_to_vote_saturates_u128() {
    assert_eq!(CurrencyToVoteHandler::convert_u128(77), 77);
    assert_eq!(CurrencyToVoteHandler::convert_u128(u64::MAX as u128), u64::MAX);
    assert_eq!(CurrencyToVoteHandler::convert_u128(u64::MAX as u128 + 1), u64::MAX);
    assert_eq!(CurrencyToVoteHandler::convert_u128(u128::MAX), u64::MAX);
}

#[test]
fn conversions_agree_on_u64_amounts() {
    for x in [0u64, 1, 1000, u64::MAX - 1, u64::MAX] {
        assert_eq!(CurrencyToVoteHandler::convert_u128(x as u128), CurrencyToVoteHandler::convert(x));
    }
}

#[test]
fn author_is_always_eleven() {
    assert_eq!(Author11::find_author(), Some(11));
    assert_eq!(BLOCK_AUTHOR, 11);
}

#[test]
fn runtime_parameters() {
    assert_eq!(Test, Test.clone());
    assert_eq!(SESSIONS_PER_ERA, 3);
    assert_eq!(INIT_TIMESTAMP, 30_000);
}
