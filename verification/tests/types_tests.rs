use std::collections::HashMap;

use payrex::types::Currency;
use payrex::types::CustomerId;
use payrex::types::Expandable;
use payrex::types::List;
use payrex::types::ListParams;
use payrex::types::Metadata;
use payrex::types::PaymentIntentId;
use payrex::types::RangeQuery;
use payrex::types::Timestamp;

#[test]
fn test_currency_as_str() {
    assert_eq!(Currency::PHP.as_str(), "PHP");
}

#[test]
fn test_currency_symbol() {
    assert_eq!(Currency::PHP.symbol(), "\u{20b1}");
}

#[test]
fn test_currency_decimal_places() {
    assert_eq!(Currency::PHP.decimal_places(), 2);
}

#[test]
fn test_format_amount() {
    assert_eq!(Currency::PHP.format_amount(10050), "\u{20b1}100.50");
    assert_eq!(Currency::PHP.format_amount(100), "\u{20b1}1.00");
    assert_eq!(Currency::PHP.format_amount(0), "\u{20b1}0.00");
}

#[test]
fn test_format_amount_negative() {
    assert_eq!(Currency::PHP.format_amount(-10050), "\u{20b1}-100.50");
}

#[test]
fn test_format_amount_single_fraction_digit() {
    assert_eq!(Currency::PHP.format_amount(5), "\u{20b1}0.05");
    assert_eq!(Currency::PHP.format_amount(210), "\u{20b1}2.10");
}

#[test]
fn test_currency_default() {
    assert_eq!(Currency::default(), Currency::PHP);
}

#[test]
fn test_payment_intent_id() {
    let id = PaymentIntentId::new("pi_123456");
    assert_eq!(id.as_str(), "pi_123456");
    assert!(PaymentIntentId::is_valid("pi_123456"));
    assert!(!PaymentIntentId::is_valid("invalid_123456"));
}

#[test]
fn test_customer_id() {
    let id = CustomerId::new("cus_123456");
    assert_eq!(id.as_str(), "cus_123456");
}

#[test]
fn test_id_prefixes() {
    assert_eq!(PaymentIntentId::prefix(), "pi_");
    assert_eq!(CustomerId::prefix(), "cus_");
    let unchecked = CustomerId::new_unchecked("anything");
    assert_eq!(unchecked.as_str(), "anything");
    assert_eq!(String::from(unchecked), "anything");
}

#[test]
fn test_metadata_new() {
    let metadata = Metadata::new();
    assert!(metadata.is_empty());
    assert_eq!(metadata.len(), 0);
}

#[test]
fn test_metadata_with_pair() {
    let metadata = Metadata::with_pair("key", "value");
    assert_eq!(metadata.get("key"), Some("value"));
    assert_eq!(metadata.len(), 1);
}

#[test]
fn test_metadata_insert_get() {
    let mut metadata = Metadata::new();
    metadata.insert("order_id", "12345");
    metadata.insert("customer_note", "VIP");

    assert_eq!(metadata.get("order_id"), Some("12345"));
    assert_eq!(metadata.get("customer_note"), Some("VIP"));
    assert_eq!(metadata.get("nonexistent"), None);
}

#[test]
fn test_metadata_remove() {
    let mut metadata = Metadata::new();
    metadata.insert("key", "value");

    assert_eq!(metadata.remove("key"), Some("value".to_string()));
    assert_eq!(metadata.get("key"), None);
    assert!(metadata.is_empty());
}

#[test]
fn test_metadata_contains_key() {
    let mut metadata = Metadata::new();
    metadata.insert("key", "value");

    assert!(metadata.contains_key("key"));
    assert!(!metadata.contains_key("nonexistent"));
}

#[test]
fn test_metadata_clear() {
    let mut metadata = Metadata::new();
    metadata.insert("key1", "value1");
    metadata.insert("key2", "value2");

    metadata.clear();
    assert!(metadata.is_empty());
}

#[test]
fn test_metadata_from_hashmap() {
    let mut map = HashMap::new();
    map.insert("key".to_string(), "value".to_string());

    let metadata = Metadata::from(map);
    assert_eq!(metadata.get("key"), Some("value"));
}

#[test]
fn test_metadata_insert_replaces() {
    let mut metadata = Metadata::new();
    metadata.insert("key", "old");
    metadata.insert("key", "new");
    assert_eq!(metadata.get("key"), Some("new"));
    assert_eq!(metadata.len(), 1);
    let held = metadata.iter();
    assert_eq!(held.len(), 1);
    assert_eq!(held[0], ("key".to_string(), "new".to_string()));
}

#[test]
fn test_list_empty() {
    let list: List<String> = List::empty();
    assert!(list.is_empty());
    assert_eq!(list.len(), 0);
    assert!(!list.has_more);
}

#[test]
fn test_list_with_data() {
    let list = List {
        object: "list".to_string(),
        data: vec!["item1".to_string(), "item2".to_string()],
        has_more: true,
        next_page: Some("next_url".to_string()),
        total_count: Some(10),
    };

    assert!(!list.is_empty());
    assert_eq!(list.len(), 2);
    assert!(list.has_more);
    assert_eq!(list.total_count, Some(10));
}

#[test]
fn test_list_iteration() {
    let list = List {
        object: "list".to_string(),
        data: vec![1, 2, 3],
        has_more: false,
        next_page: None,
        total_count: Some(3),
    };

    let items: Vec<_> = list.iter().iter().copied().collect();
    assert_eq!(items, vec![1, 2, 3]);
}

#[test]
fn test_list_into_iter() {
    let list = List {
        object: "list".to_string(),
        data: vec![1, 2, 3],
        has_more: false,
        next_page: None,
        total_count: Some(3),
    };

    let items: Vec<_> = list.into_vec();
    assert_eq!(items, vec![1, 2, 3]);
}

#[test]
fn test_list_params() {
    let params = ListParams::new().limit(50).starting_after("obj_123");

    assert_eq!(params.limit, Some(50));
    assert_eq!(params.starting_after, Some("obj_123".to_string()));
}

#[test]
fn test_list_params_limit_clamping() {
    let params = ListParams::new().limit(200);
    assert_eq!(params.limit, Some(100));

    let params = ListParams::new().limit(0);
    assert_eq!(params.limit, Some(1));
}

#[test]
fn test_expandable_id() {
    let expandable: Expandable<String, String> = Expandable::Id("test_id".to_string());
    assert!(expandable.is_id());
    assert!(!expandable.is_object());
    assert_eq!(expandable.as_id(), Some(&"test_id".to_string()));
}

#[test]
fn test_expandable_object() {
    let expandable: Expandable<String, String> =
        Expandable::Object(Box::new("test_object".to_string()));
    assert!(!expandable.is_id());
    assert!(expandable.is_object());
    assert_eq!(expandable.as_object(), Some(&"test_object".to_string()));
}

#[test]
fn test_range_query() {
    let range = RangeQuery::new().gte(10).lt(100);

    assert_eq!(range.gte, Some(10));
    assert_eq!(range.lt, Some(100));
    assert_eq!(range.gt, None);
    assert_eq!(range.lte, None);
}

#[test]
fn test_timestamp_from_unix() {
    let ts = Timestamp::from_unix(1609459200);
    assert_eq!(ts.as_unix(), 1609459200);
}

#[test]
fn test_timestamp_ordering() {
    let ts1 = Timestamp::from_unix(1000);
    let ts2 = Timestamp::from_unix(2000);

    assert!(ts1 < ts2);
    assert!(ts2 > ts1);
}

#[test]
fn test_timestamp_rfc3339() {
    let ts = Timestamp::from_unix(1609459200);
    assert_eq!(ts.to_rfc3339(), Some("2021-01-01T00:00:00+00:00".to_string()));
}

#[test]
fn test_timestamp_now_is_recent() {
    let ts = Timestamp::now();
    assert!(ts.as_unix() > 1_600_000_000);
}
