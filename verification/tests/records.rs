use bytes::Bytes;
use vss_server::items::{AttributeValue, Item, Names};
use vss_server::records::{
    build_key_item, build_new_item, build_vss_record, build_vss_record_at, create_namespace,
    get_text_attribute, item_to_key_value, VssDbRecord,
};
use vss_server::types::{KeyValue, VssError};

fn sample(version: i64) -> KeyValue {
    KeyValue { key: "k".to_string(), value: Bytes::from_static(&[0, 1, 255]), version }
}

fn text_at(record: &VssDbRecord, i: usize) -> char {
    record.created_at.chars().nth(i).unwrap()
}

fn text_value(text: &str) -> AttributeValue {
    AttributeValue::S(text.to_string())
}

#[test]
fn namespace_combines_user_and_store() {
    assert_eq!(create_namespace("user", "store"), "user#store");
    assert_eq!(create_namespace("", ""), "#");
}

#[test]
fn namespaces_of_users_and_stores_differ() {
    assert_ne!(create_namespace("a", "s"), create_namespace("b", "s"));
    assert_ne!(create_namespace("a", "s"), create_namespace("a", "t"));
    assert_eq!(create_namespace("a#b", "c"), create_namespace("a", "b#c"));
}

#[test]
fn record_at_a_given_time() {
    assert_eq!(
        build_vss_record_at("user", "store", sample(7), "then".to_string()),
        VssDbRecord {
            namespace: "user#store".to_string(),
            key: "k".to_string(),
            value: vec![0, 1, 255],
            version: 7,
            created_at: "then".to_string(),
            last_updated_at: "then".to_string(),
        }
    );
}

#[test]
fn record_of_the_present() {
    let record = build_vss_record("user", "store", sample(0));
    assert_eq!(record.namespace, "user#store");
    assert_eq!(record.key, "k");
    assert_eq!(record.value, vec![0, 1, 255]);
    assert_eq!(record.version, 0);
    assert_eq!(record.created_at, record.last_updated_at);
    assert!(record.created_at.ends_with("+00:00"));
    assert!(record.created_at.chars().count() >= 25);
    assert!(chrono::DateTime::parse_from_rfc3339(&record.created_at).is_ok());
    let marks: Vec<char> = [4, 7, 10, 13, 16].iter().map(|i| text_at(&record, *i)).collect();
    assert_eq!(marks, vec!['-', '-', 'T', ':', ':']);
    let fraction = &record.created_at[19..record.created_at.len() - 6];
    assert!([0, 4, 7, 10].contains(&fraction.len()));
}

#[test]
fn item_attributes() {
    let mut item = Item::new();
    assert_eq!(item.attribute("a"), None);
    item.insert("a", text_value("1"));
    item.insert("b", AttributeValue::Other);
    assert_eq!(item.attribute("a"), Some(&text_value("1")));
    assert_eq!(item.attribute("b"), Some(&AttributeValue::Other));
    assert_eq!(item.attribute("c"), None);
    item.insert("a", AttributeValue::N("2".to_string()));
    assert_eq!(item.attribute("a"), Some(&AttributeValue::N("2".to_string())));
    assert_eq!(item.attribute("b"), Some(&AttributeValue::Other));
}

#[test]
fn names_by_placeholder() {
    let mut names = Names::new();
    assert!(names.bindings.is_empty());
    names.bind("#key", "key");
    assert_eq!(names.bindings.len(), 1);
    assert_eq!(names.bindings[0].placeholder, "#key");
    assert_eq!(names.bindings[0].name, "key");
}

#[test]
fn key_item_has_namespace_and_key() {
    let item = build_key_item(&"n".to_string(), &"k".to_string());
    assert_eq!(item.attributes.len(), 2);
    assert_eq!(item.attribute("namespace"), Some(&text_value("n")));
    assert_eq!(item.attribute("key"), Some(&text_value("k")));
}

#[test]
fn new_item_has_the_initial_version() {
    for version in [-1, 0, 41] {
        let record = build_vss_record_at("u", "s", sample(version), "then".to_string());
        let item = build_new_item(&record);
        assert_eq!(item.attributes.len(), 6);
        assert_eq!(item.attribute("namespace"), Some(&text_value("u#s")));
        assert_eq!(item.attribute("key"), Some(&text_value("k")));
        assert_eq!(item.attribute("value"), Some(&AttributeValue::B(vec![0, 1, 255])));
        assert_eq!(item.attribute("version"), Some(&AttributeValue::N("1".to_string())));
        assert_eq!(item.attribute("created_at"), Some(&text_value("then")));
        assert_eq!(item.attribute("last_updated_at"), Some(&text_value("then")));
    }
}

#[test]
fn text_attributes() {
    let mut item = Item::new();
    item.insert("a", text_value("x"));
    item.insert("b", AttributeValue::N("1".to_string()));
    assert_eq!(get_text_attribute(&item, "a"), Some(&"x".to_string()));
    assert_eq!(get_text_attribute(&item, "b"), None);
    assert_eq!(get_text_attribute(&item, "c"), None);
}

#[test]
fn key_value_of_a_full_item() {
    let mut item = build_key_item(&"n".to_string(), &"k".to_string());
    item.insert("value", AttributeValue::B(vec![9, 8]));
    item.insert("version", AttributeValue::N("12".to_string()));
    assert_eq!(
        item_to_key_value(&item),
        Ok(KeyValue { key: "k".to_string(), value: Bytes::from(vec![9, 8]), version: 12 })
    );
}

#[test]
fn key_value_without_value_and_version() {
    let item = build_key_item(&"n".to_string(), &"k".to_string());
    assert_eq!(
        item_to_key_value(&item),
        Ok(KeyValue { key: "k".to_string(), value: Bytes::new(), version: 0 })
    );
}

#[test]
fn key_value_with_attributes_of_other_kinds() {
    let mut item = build_key_item(&"n".to_string(), &"k".to_string());
    item.insert("value", text_value("text"));
    item.insert("version", text_value("3"));
    let kv = item_to_key_value(&item).unwrap();
    assert_eq!(kv.value.len(), 0);
    assert_eq!(kv.version, 0);
}

#[test]
fn key_value_with_unreadable_version() {
    for numeral in ["", "x", "1.5", "9223372036854775808"] {
        let mut item = build_key_item(&"n".to_string(), &"k".to_string());
        item.insert("version", AttributeValue::N(numeral.to_string()));
        assert_eq!(item_to_key_value(&item).unwrap().version, 0);
    }
}

#[test]
fn key_value_needs_a_key() {
    let expected = || VssError::InvalidRequestError("Missing key in DynamoDB item".to_string());
    assert_eq!(item_to_key_value(&Item::new()), Err(expected()));
    let mut item = Item::new();
    item.insert("key", AttributeValue::N("1".to_string()));
    assert_eq!(item_to_key_value(&item), Err(expected()));
}
