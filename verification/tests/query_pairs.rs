use lending_indexer::client::{OfferListParams, OfferSortBy, SortDir, participant_role_query};
use lending_indexer::models::{OfferStatus, ParticipantType};

#[test]
fn empty_params_produce_no_query_pairs() {
    assert!(OfferListParams::new().to_query_pairs().is_empty());
}

#[test]
fn status_is_joined_with_commas() {
    let params =
        OfferListParams::new().with_status(vec![OfferStatus::Pending, OfferStatus::Active]);
    let pairs = params.to_query_pairs();
    assert_eq!(pairs, vec![("status", "pending,active".to_string())]);
}

#[test]
fn pagination_and_sort_are_serialized() {
    let params = OfferListParams::new()
        .with_limit(10)
        .with_offset(5)
        .with_sort(OfferSortBy::LoanExpirationHeight, SortDir::Asc);
    let pairs = params.to_query_pairs();

    assert!(pairs.contains(&("limit", "10".to_string())));
    assert!(pairs.contains(&("offset", "5".to_string())));
    assert!(pairs.contains(&("sort_by", "loan_expiration_height".to_string())));
    assert!(pairs.contains(&("sort_dir", "asc".to_string())));
}

#[test]
fn exclude_and_not_expired_filters_are_serialized() {
    let params = OfferListParams::new()
        .with_exclude_participant_script("52ac")
        .with_exclude_participant_role(ParticipantType::Lender)
        .with_not_expired(true)
        .with_sort(OfferSortBy::UpdatedAtHeight, SortDir::Desc);
    let pairs = params.to_query_pairs();

    assert!(pairs.contains(&("exclude_participant_script", "52ac".to_string())));
    assert!(pairs.contains(&("exclude_participant_role", "lender".to_string())));
    assert!(pairs.contains(&("not_expired", "true".to_string())));
    assert!(pairs.contains(&("sort_by", "updated_at_height".to_string())));
    assert!(pairs.contains(&("sort_dir", "desc".to_string())));
}

#[test]
fn all_filters_come_in_key_order() {
    let params = OfferListParams::new()
        .with_sort(OfferSortBy::InterestRate, SortDir::Desc)
        .with_offset(0)
        .with_limit(18446744073709551615)
        .with_not_expired(true)
        .with_exclude_participant_role(ParticipantType::Borrower)
        .with_exclude_participant_script("51ac")
        .with_factory_id(0x22222222_2222_2222_2222_222222222222)
        .with_principal_asset("0403")
        .with_collateral_asset("0201")
        .with_status(vec![OfferStatus::Active]);
    let pairs = params.to_query_pairs();
    assert_eq!(
        pairs,
        vec![
            ("status", "active".to_string()),
            ("collateral_asset", "0201".to_string()),
            ("principal_asset", "0403".to_string()),
            ("factory_id", "22222222-2222-2222-2222-222222222222".to_string()),
            ("exclude_participant_script", "51ac".to_string()),
            ("exclude_participant_role", "borrower".to_string()),
            ("not_expired", "true".to_string()),
            ("limit", "18446744073709551615".to_string()),
            ("offset", "0".to_string()),
            ("sort_by", "interest_rate".to_string()),
            ("sort_dir", "desc".to_string()),
        ]
    );
}

#[test]
fn not_expired_false_sends_nothing() {
    let pairs = OfferListParams::new().with_not_expired(false).to_query_pairs();
    assert!(pairs.is_empty());
}

#[test]
fn setting_a_filter_twice_keeps_the_last_value() {
    let pairs = OfferListParams::new().with_limit(3).with_limit(40).to_query_pairs();
    assert_eq!(pairs, vec![("limit", "40".to_string())]);
}

#[test]
fn every_sort_field_has_its_wire_name() {
    assert_eq!(OfferSortBy::UpdatedAtHeight.as_query_str(), "updated_at_height");
    assert_eq!(OfferSortBy::CreatedAtHeight.as_query_str(), "created_at_height");
    assert_eq!(OfferSortBy::CollateralAmount.as_query_str(), "collateral_amount");
    assert_eq!(OfferSortBy::PrincipalAmount.as_query_str(), "principal_amount");
    assert_eq!(OfferSortBy::InterestRate.as_query_str(), "interest_rate");
    assert_eq!(OfferSortBy::LoanExpirationHeight.as_query_str(), "loan_expiration_height");
    assert_eq!(SortDir::Asc.as_query_str(), "asc");
    assert_eq!(SortDir::Desc.as_query_str(), "desc");
    assert_eq!(participant_role_query(ParticipantType::Borrower), "borrower");
    assert_eq!(participant_role_query(ParticipantType::Lender), "lender");
    assert_eq!(OfferStatus::Pending.as_query_str(), "pending");
    assert_eq!(OfferStatus::Active.as_query_str(), "active");
}
