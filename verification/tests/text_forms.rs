use lending_indexer::client::config::trim_trailing_slashes;
use lending_indexer::client::{OfferListParams, OfferSortBy, SortDir};
use lending_indexer::models::{OfferStatus, ParticipantType};
use lending_indexer::text::decimal_text;

#[test]
fn decimal_text_of_edge_values() {
    assert_eq!(decimal_text(0), "0");
    assert_eq!(decimal_text(7), "7");
    assert_eq!(decimal_text(10), "10");
    assert_eq!(decimal_text(1234567890), "1234567890");
    assert_eq!(decimal_text(u64::MAX), u64::MAX.to_string());
}

#[test]
fn decimal_text_reads_back() {
    for n in [0u64, 1, 9, 10, 99, 100, 4096, 987654321, u64::MAX] {
        let s = decimal_text(n);
        assert!(s.chars().all(|c| c.is_ascii_digit()));
        assert!(n == 0 || !s.starts_with('0'));
        assert_eq!(s.parse::<u64>().unwrap(), n);
    }
}

#[test]
fn status_value_splits_back_into_names() {
    let statuses = vec![OfferStatus::Active, OfferStatus::Pending, OfferStatus::Active];
    let pairs = OfferListParams::new().with_status(statuses.clone()).to_query_pairs();
    assert_eq!(pairs.len(), 1);
    let names: Vec<&str> = pairs[0].1.split(',').collect();
    let expected: Vec<&str> = statuses.iter().map(|s| s.as_query_str()).collect();
    assert_eq!(names, expected);
}

#[test]
fn trimming_twice_changes_nothing() {
    for s in ["", "/", "http://a//", "http://a/b", "x/y/"] {
        let once = trim_trailing_slashes(s);
        assert!(!once.ends_with('/'));
        assert!(s.starts_with(once.as_str()));
        assert!(s[once.len()..].chars().all(|c| c == '/'));
        assert_eq!(trim_trailing_slashes(&once), once);
    }
}

#[test]
fn query_keys_are_unique_when_all_filters_are_set() {
    let pairs = OfferListParams::new()
        .with_status(vec![OfferStatus::Pending])
        .with_collateral_asset("a")
        .with_principal_asset("b")
        .with_factory_id(1)
        .with_exclude_participant_script("c")
        .with_exclude_participant_role(ParticipantType::Lender)
        .with_not_expired(true)
        .with_limit(1)
        .with_offset(2)
        .with_sort(OfferSortBy::CreatedAtHeight, SortDir::Asc)
        .to_query_pairs();
    assert_eq!(pairs.len(), 11);
    for i in 0..pairs.len() {
        for j in (i + 1)..pairs.len() {
            assert_ne!(pairs[i].0, pairs[j].0);
        }
    }
    assert!(pairs.contains(&("factory_id", "00000000-0000-0000-0000-000000000001".to_string())));
}
