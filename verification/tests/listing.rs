use bytes::Bytes;
use vss_server::dynamodb_store::DynamoDbBackendImpl;
use vss_server::items::{AttributeValue, Item};
use vss_server::list::{build_page, ListAction};
use vss_server::records::build_key_item;
use vss_server::requests::{GetReply, QueryReply, QueryRequest};
use vss_server::types::{KeyValue, ListKeyVersionsRequest, VssError};

fn list_backend() -> DynamoDbBackendImpl {
    DynamoDbBackendImpl::new("vss-table".to_string())
}

fn stored(key: &str, version: i64) -> Item {
    let mut item = build_key_item(&"user#store".to_string(), &key.to_string());
    item.insert("value", AttributeValue::B(vec![1, 2, 3]));
    item.insert("version", AttributeValue::N(version.to_string()));
    item
}

fn listed(key: &str, version: i64) -> KeyValue {
    KeyValue { key: key.to_string(), value: Bytes::new(), version }
}

fn list_request(
    key_prefix: Option<&str>, page_size: Option<i32>, page_token: Option<&str>,
) -> ListKeyVersionsRequest {
    ListKeyVersionsRequest {
        store_id: "store".to_string(),
        key_prefix: key_prefix.map(str::to_string),
        page_size,
        page_token: page_token.map(str::to_string),
    }
}

fn query_of(request: &ListKeyVersionsRequest) -> QueryRequest {
    list_backend().page_request("user", request)
}

fn bound(query: &QueryRequest, placeholder: &str) -> Option<String> {
    let bindings = &query.expression_attribute_names.bindings;
    bindings.iter().find(|b| b.placeholder == placeholder).map(|b| b.name.clone())
}

#[test]
fn query_for_the_first_page() {
    let query = query_of(&list_request(None, None, None));
    assert_eq!(query.table_name, "vss-table");
    assert_eq!(query.key_condition_expression, "#namespace = :namespace");
    assert_eq!(query.filter_expression, None);
    assert_eq!(query.expression_attribute_names.bindings.len(), 1);
    assert_eq!(bound(&query, "#namespace"), Some("namespace".to_string()));
    assert_eq!(query.expression_attribute_values.attributes.len(), 1);
    assert_eq!(
        query.expression_attribute_values.attribute(":namespace"),
        Some(&AttributeValue::S("user#store".to_string()))
    );
    assert_eq!(query.exclusive_start_key, None);
    assert_eq!(query.limit, 101);
}

#[test]
fn query_with_prefix_and_token() {
    let query = query_of(&list_request(Some("pre"), Some(10), Some("tok")));
    assert_eq!(query.filter_expression, Some("begins_with(#key, :key_prefix)".to_string()));
    assert_eq!(bound(&query, "#key"), Some("key".to_string()));
    assert_eq!(
        query.expression_attribute_values.attribute(":key_prefix"),
        Some(&AttributeValue::S("pre".to_string()))
    );
    assert_eq!(
        query.exclusive_start_key,
        Some(build_key_item(&"user#store".to_string(), &"tok".to_string()))
    );
    assert_eq!(query.limit, 11);
}

#[test]
fn query_limits() {
    for (page_size, limit) in [
        (Some(0), 1),
        (Some(1), 2),
        (Some(99), 100),
        (Some(100), 101),
        (Some(101), 101),
        (Some(i32::MAX), 101),
        (None, 101),
        (Some(-5), -4),
        (Some(i32::MIN), i32::MIN + 1),
    ] {
        assert_eq!(query_of(&list_request(None, page_size, None)).limit, limit);
    }
}

#[test]
fn first_page_reads_the_global_version() {
    let run = list_backend().begin_list("user", list_request(None, None, None));
    match run.action() {
        ListAction::GetGlobalVersion(request) => {
            assert_eq!(request.table_name, "vss-table");
            let key = build_key_item(&"user#store".to_string(), &"global_version".to_string());
            assert_eq!(request.key, key);
        }
        other => panic!("{:?}", other),
    }
    let reply = GetReply::Found(stored("global_version", 7));
    let run = run.on_global_version(&reply).ok().unwrap();
    assert_eq!(run.action(), ListAction::Query(query_of(&list_request(None, None, None))));
    let page = run.on_page(&QueryReply::Page(vec![stored("a", 1)])).unwrap();
    assert_eq!(page.global_version, Some(7));
    assert_eq!(page.key_versions, vec![listed("a", 1)]);
}

#[test]
fn global_version_that_is_missing_is_zero() {
    let run = list_backend().begin_list("user", list_request(None, None, None));
    let run = run.on_global_version(&GetReply::Missing).ok().unwrap();
    let page = run.on_page(&QueryReply::Page(vec![])).unwrap();
    assert_eq!(page.global_version, Some(0));
}

#[test]
fn global_version_that_cannot_be_read() {
    let run = list_backend().begin_list("user", list_request(None, None, None));
    let error = run.on_global_version(&GetReply::Failed("x".to_string())).err().unwrap();
    assert_eq!(error, VssError::InvalidRequestError("DynamoDB error: x".to_string()));
}

#[test]
fn later_pages_do_not_read_the_global_version() {
    let request = list_request(None, Some(2), Some("t"));
    let run = list_backend().begin_list("user", list_request(None, Some(2), Some("t")));
    assert_eq!(run.action(), ListAction::Query(query_of(&request)));
    let page = run.on_page(&QueryReply::Page(vec![stored("u", 4)])).unwrap();
    assert_eq!(page.global_version, None);
    assert_eq!(page.key_versions, vec![listed("u", 4)]);
}

#[test]
fn page_that_shows_all() {
    let items = vec![stored("a", 1), stored("b", 2)];
    let page = build_page(Some(2), None, &QueryReply::Page(items)).unwrap();
    assert_eq!(page.key_versions, vec![listed("a", 1), listed("b", 2)]);
    assert_eq!(page.next_page_token, Some("".to_string()));
}

#[test]
fn page_with_more_to_come() {
    let items = vec![stored("a", 1), stored("b", 2), stored("c", 3)];
    let page = build_page(Some(2), Some(9), &QueryReply::Page(items)).unwrap();
    assert_eq!(page.key_versions, vec![listed("a", 1), listed("b", 2)]);
    assert_eq!(page.next_page_token, Some("c".to_string()));
    assert_eq!(page.global_version, Some(9));
}

#[test]
fn page_of_nothing() {
    let page = build_page(None, None, &QueryReply::Page(vec![])).unwrap();
    assert!(page.key_versions.is_empty());
    assert_eq!(page.next_page_token, None);
}

#[test]
fn page_hides_the_global_version() {
    let items = vec![stored("a", 1), stored("global_version", 5), stored("z", 2)];
    let page = build_page(None, None, &QueryReply::Page(items)).unwrap();
    assert_eq!(page.key_versions, vec![listed("a", 1), listed("z", 2)]);
    let items = vec![stored("global_version", 5)];
    let page = build_page(None, None, &QueryReply::Page(items)).unwrap();
    assert!(page.key_versions.is_empty());
    assert_eq!(page.next_page_token, None);
}

#[test]
fn page_of_size_zero() {
    let page = build_page(Some(0), None, &QueryReply::Page(vec![stored("a", 1)])).unwrap();
    assert!(page.key_versions.is_empty());
    assert_eq!(page.next_page_token, Some("a".to_string()));
}

#[test]
fn page_of_negative_size_cuts_nothing_off() {
    let items = vec![stored("a", 1), stored("b", 2)];
    let page = build_page(Some(-1), None, &QueryReply::Page(items)).unwrap();
    assert_eq!(page.key_versions.len(), 2);
    assert_eq!(page.next_page_token, Some("".to_string()));
}

#[test]
fn page_is_never_larger_than_the_maximum() {
    let items: Vec<Item> = (0..101).map(|i| stored(&format!("{:03}", i), i)).collect();
    let page = build_page(Some(1000), None, &QueryReply::Page(items)).unwrap();
    assert_eq!(page.key_versions.len(), 100);
    assert_eq!(page.key_versions[99], listed("099", 99));
    assert_eq!(page.next_page_token, Some("100".to_string()));
    assert!(page.key_versions.iter().all(|kv| kv.value.is_empty()));
}

#[test]
fn page_with_an_item_without_key() {
    let missing = || VssError::InvalidRequestError("Missing key in DynamoDB item".to_string());
    let reply = QueryReply::Page(vec![stored("a", 1), Item::new()]);
    assert_eq!(build_page(None, None, &reply), Err(missing()));
    let page = build_page(Some(1), None, &reply).unwrap();
    assert_eq!(page.key_versions, vec![listed("a", 1)]);
    assert_eq!(page.next_page_token, Some("".to_string()));
    assert_eq!(build_page(Some(2), None, &reply), Err(missing()));
}

#[test]
fn page_that_cannot_be_read() {
    assert_eq!(
        build_page(None, None, &QueryReply::Failed("x".to_string())),
        Err(VssError::InvalidRequestError("DynamoDB error: x".to_string()))
    );
}
