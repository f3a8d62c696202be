use bytes::Bytes;
use vss_server::dynamodb_store::{
    DynamoDbBackendImpl, LIST_KEY_VERSIONS_MAX_PAGE_SIZE, MAX_PUT_REQUEST_ITEM_COUNT,
};
use vss_server::items::{AttributeValue, Item, Names};
use vss_server::put::PutAction;
use vss_server::records::{build_key_item, build_new_item, build_vss_record_at, VssDbRecord};
use vss_server::requests::{GetReply, WriteReply, WriteRequest};
use vss_server::types::{
    expected_version, DeleteObjectRequest, DeleteObjectResponse, GetObjectRequest, KeyValue,
    PutObjectRequest, PutObjectResponse, VssError, ABSENT_VERSION, GLOBAL_VERSION_KEY,
    INITIAL_RECORD_VERSION, UNCONDITIONAL_VERSION,
};

fn backend() -> DynamoDbBackendImpl {
    DynamoDbBackendImpl::new("vss-table".to_string())
}

fn entry(key: &str, version: i64) -> KeyValue {
    KeyValue { key: key.to_string(), value: Bytes::from(key.as_bytes().to_vec()), version }
}

fn record(version: i64) -> VssDbRecord {
    build_vss_record_at("user", "store", entry("k", version), "then".to_string())
}

fn name_of(names: &Names, placeholder: &str) -> Option<String> {
    names.bindings.iter().rev().find(|b| b.placeholder == placeholder).map(|b| b.name.clone())
}

fn number(numeral: &str) -> AttributeValue {
    AttributeValue::N(numeral.to_string())
}

fn done(old_attributes: bool) -> WriteReply {
    WriteReply::Done { old_attributes }
}

fn condition_failed() -> WriteReply {
    WriteReply::ConditionFailed("no".to_string())
}

fn failed() -> WriteReply {
    WriteReply::Failed("throttled".to_string())
}

fn conflict(message: &str) -> VssError {
    VssError::ConflictError(message.to_string())
}

fn invalid(message: &str) -> VssError {
    VssError::InvalidRequestError(message.to_string())
}

fn is_key_of_sample(item: &Item) -> bool {
    *item == build_key_item(&"user#store".to_string(), &"k".to_string())
}

#[test]
fn constants() {
    assert_eq!(LIST_KEY_VERSIONS_MAX_PAGE_SIZE, 100);
    assert_eq!(MAX_PUT_REQUEST_ITEM_COUNT, 1000);
    assert_eq!(GLOBAL_VERSION_KEY, "global_version");
    assert_eq!(INITIAL_RECORD_VERSION, 1);
    assert_eq!(ABSENT_VERSION, 0);
    assert_eq!(UNCONDITIONAL_VERSION, -1);
}

#[test]
fn version_that_a_client_expects() {
    assert_eq!(expected_version(None), 0);
    for version in [-1, 0, 1, i64::MIN, i64::MAX] {
        assert_eq!(expected_version(Some(version)), version);
    }
}

#[test]
fn failure_of_the_service() {
    assert_eq!(
        DynamoDbBackendImpl::service_failure(&"throttled".to_string()),
        invalid("DynamoDB error: throttled")
    );
}

#[test]
fn insert_asks_for_an_absent_version() {
    let request = backend().conditional_insert_request(&record(0));
    assert_eq!(request.table_name, "vss-table");
    assert_eq!(request.item, build_new_item(&record(0)));
    assert_eq!(request.condition_expression, Some("attribute_not_exists(#version)".to_string()));
    assert_eq!(request.expression_attribute_names.bindings.len(), 1);
    assert_eq!(
        name_of(&request.expression_attribute_names, "#version"),
        Some("version".to_string())
    );
}

#[test]
fn insert_results() {
    assert_eq!(DynamoDbBackendImpl::conditional_insert_result(&done(false)), Ok(()));
    assert_eq!(
        DynamoDbBackendImpl::conditional_insert_result(&condition_failed()),
        Err(conflict("Item already exists"))
    );
    assert_eq!(
        DynamoDbBackendImpl::conditional_insert_result(&failed()),
        Err(invalid("DynamoDB error: throttled"))
    );
}

#[test]
fn update_asks_for_the_version() {
    let request = backend().conditional_update_request(&record(41));
    assert_eq!(request.table_name, "vss-table");
    assert!(is_key_of_sample(&request.key));
    assert_eq!(
        request.update_expression,
        "SET #value = :value, #version = :new_version, #last_updated_at = :last_updated_at"
    );
    assert_eq!(request.condition_expression, "#version = :expected_version");
    let names = &request.expression_attribute_names;
    assert_eq!(names.bindings.len(), 3);
    assert_eq!(name_of(names, "#value"), Some("value".to_string()));
    assert_eq!(name_of(names, "#version"), Some("version".to_string()));
    assert_eq!(name_of(names, "#last_updated_at"), Some("last_updated_at".to_string()));
    let values = &request.expression_attribute_values;
    assert_eq!(values.attributes.len(), 4);
    assert_eq!(values.attribute(":value"), Some(&AttributeValue::B(b"k".to_vec())));
    assert_eq!(values.attribute(":new_version"), Some(&number("42")));
    assert_eq!(values.attribute(":expected_version"), Some(&number("41")));
    assert_eq!(values.attribute(":last_updated_at"), Some(&AttributeValue::S("then".to_string())));
}

#[test]
fn update_of_negative_versions() {
    let request = backend().conditional_update_request(&record(-2));
    assert_eq!(request.expression_attribute_values.attribute(":new_version"), Some(&number("-1")));
    assert_eq!(request.expression_attribute_values.attribute(":expected_version"), Some(&number("-2")));
}

#[test]
fn update_results() {
    assert_eq!(DynamoDbBackendImpl::conditional_update_result(&done(false)), Ok(()));
    assert_eq!(
        DynamoDbBackendImpl::conditional_update_result(&condition_failed()),
        Err(conflict("Version mismatch"))
    );
    assert_eq!(
        DynamoDbBackendImpl::conditional_update_result(&failed()),
        Err(invalid("DynamoDB error: throttled"))
    );
}

#[test]
fn upsert_has_no_condition() {
    let request = backend().non_conditional_upsert_request(&record(-1));
    assert_eq!(request.table_name, "vss-table");
    assert_eq!(request.item, build_new_item(&record(-1)));
    assert_eq!(request.condition_expression, None);
    assert!(request.expression_attribute_names.bindings.is_empty());
}

#[test]
fn upsert_results() {
    assert_eq!(DynamoDbBackendImpl::non_conditional_upsert_result(&done(false)), Ok(()));
    assert_eq!(
        DynamoDbBackendImpl::non_conditional_upsert_result(&condition_failed()),
        Err(invalid("DynamoDB error: no"))
    );
    assert_eq!(
        DynamoDbBackendImpl::non_conditional_upsert_result(&failed()),
        Err(invalid("DynamoDB error: throttled"))
    );
}

#[test]
fn writes_go_by_the_version() {
    let backend = backend();
    assert_eq!(
        backend.put_object_request(&record(-1)),
        WriteRequest::Put(backend.non_conditional_upsert_request(&record(-1)))
    );
    assert_eq!(
        backend.put_object_request(&record(0)),
        WriteRequest::Put(backend.conditional_insert_request(&record(0)))
    );
    for version in [1, 2, -2, i64::MAX - 1, i64::MIN] {
        assert_eq!(
            backend.put_object_request(&record(version)),
            WriteRequest::Update(backend.conditional_update_request(&record(version)))
        );
    }
    let refused = |version| {
        DynamoDbBackendImpl::put_object_result(&record(version), &condition_failed()).unwrap_err()
    };
    assert_eq!(refused(-1), invalid("DynamoDB error: no"));
    assert_eq!(refused(0), conflict("Item already exists"));
    assert_eq!(refused(1), conflict("Version mismatch"));
}

#[test]
fn delete_asks_for_the_version() {
    let request = backend().conditional_delete_request(&record(3));
    assert_eq!(request.table_name, "vss-table");
    assert!(is_key_of_sample(&request.key));
    assert_eq!(request.condition_expression, Some("#version = :expected_version".to_string()));
    assert_eq!(request.expression_attribute_names.bindings.len(), 1);
    assert_eq!(
        name_of(&request.expression_attribute_names, "#version"),
        Some("version".to_string())
    );
    assert_eq!(request.expression_attribute_values.attributes.len(), 1);
    assert_eq!(request.expression_attribute_values.attribute(":expected_version"), Some(&number("3")));
    assert_eq!(request.return_values, "ALL_OLD");
}

#[test]
fn delete_without_condition() {
    let request = backend().non_conditional_delete_request(&record(-1));
    assert_eq!(request.table_name, "vss-table");
    assert!(is_key_of_sample(&request.key));
    assert_eq!(request.condition_expression, None);
    assert!(request.expression_attribute_names.bindings.is_empty());
    assert!(request.expression_attribute_values.attributes.is_empty());
    assert_eq!(request.return_values, "ALL_OLD");
}

#[test]
fn delete_results() {
    for removed in [true, false] {
        assert_eq!(
            DynamoDbBackendImpl::conditional_delete_result(&done(removed)),
            Ok(removed)
        );
        assert_eq!(
            DynamoDbBackendImpl::non_conditional_delete_result(&done(removed)),
            Ok(removed)
        );
    }
    assert_eq!(DynamoDbBackendImpl::conditional_delete_result(&condition_failed()), Ok(false));
    assert_eq!(
        DynamoDbBackendImpl::non_conditional_delete_result(&condition_failed()),
        Err(invalid("DynamoDB error: no"))
    );
    assert_eq!(
        DynamoDbBackendImpl::conditional_delete_result(&failed()),
        Err(invalid("DynamoDB error: throttled"))
    );
    assert_eq!(
        DynamoDbBackendImpl::non_conditional_delete_result(&failed()),
        Err(invalid("DynamoDB error: throttled"))
    );
}

#[test]
fn deletes_go_by_the_version() {
    let backend = backend();
    assert_eq!(
        backend.delete_object_request(&record(-1)),
        backend.non_conditional_delete_request(&record(-1))
    );
    for version in [0, 1, -2, i64::MAX] {
        assert_eq!(
            backend.delete_object_request(&record(version)),
            backend.conditional_delete_request(&record(version))
        );
    }
    assert_eq!(
        DynamoDbBackendImpl::delete_object_result(&record(0), &condition_failed()),
        Ok(false)
    );
    assert_eq!(
        DynamoDbBackendImpl::delete_object_result(&record(-1), &condition_failed()),
        Err(invalid("DynamoDB error: no"))
    );
}

#[test]
fn get_asks_for_the_key() {
    let request = GetObjectRequest { store_id: "store".to_string(), key: "k".to_string() };
    let query = backend().get_request("user", &request);
    assert_eq!(query.table_name, "vss-table");
    assert!(is_key_of_sample(&query.key));
}

#[test]
fn get_results() {
    let key = "k".to_string();
    let mut item = build_new_item(&record(0));
    item.insert("version", number("5"));
    let response = DynamoDbBackendImpl::get_result(&key, &GetReply::Found(item)).unwrap();
    assert_eq!(response.value, Some(entry("k", 5)));
    assert_eq!(
        DynamoDbBackendImpl::get_result(&key, &GetReply::Missing),
        Err(VssError::NoSuchKeyError("Requested key not found.".to_string()))
    );
    assert_eq!(
        DynamoDbBackendImpl::get_result(&key, &GetReply::Failed("throttled".to_string())),
        Err(invalid("DynamoDB error: throttled"))
    );
    assert_eq!(
        DynamoDbBackendImpl::get_result(&key, &GetReply::Found(Item::new())),
        Err(invalid("Missing key in DynamoDB item"))
    );
}

#[test]
fn get_of_a_missing_global_version() {
    let key = GLOBAL_VERSION_KEY.to_string();
    let response = DynamoDbBackendImpl::get_result(&key, &GetReply::Missing).unwrap();
    assert_eq!(
        response.value,
        Some(KeyValue { key: "global_version".to_string(), value: Bytes::new(), version: 0 })
    );
}

#[test]
fn put_sends_writes_then_global_version_then_deletes() {
    let request = PutObjectRequest {
        store_id: "store".to_string(),
        global_version: Some(3),
        transaction_items: vec![entry("a", 0), entry("b", 2)],
        delete_items: vec![entry("c", 1), entry("d", -1)],
    };
    let mut run = backend().begin_put("user", request).ok().unwrap();
    let mut keys = Vec::new();
    loop {
        assert!(run.can_act());
        let key = match run.action() {
            PutAction::Finish(response) => {
                assert_eq!(response, PutObjectResponse {});
                break;
            }
            PutAction::Send(WriteRequest::Put(put)) => ("put", put.item),
            PutAction::Send(WriteRequest::Update(update)) => ("update", update.key),
            PutAction::Send(WriteRequest::Delete(delete)) => ("delete", delete.key),
        };
        assert_eq!(key.1.attribute("namespace"), Some(&AttributeValue::S("user#store".to_string())));
        match key.1.attribute("key") {
            Some(AttributeValue::S(text)) => keys.push((key.0, text.clone())),
            other => panic!("{:?}", other),
        }
        run = run.on_reply(&done(true)).ok().unwrap();
    }
    let expected = vec![
        ("put", "a".to_string()),
        ("update", "b".to_string()),
        ("update", "global_version".to_string()),
        ("delete", "c".to_string()),
        ("delete", "d".to_string()),
    ];
    assert_eq!(keys, expected);
}

#[test]
fn put_stops_at_the_first_refusal() {
    let request = PutObjectRequest {
        store_id: "store".to_string(),
        global_version: None,
        transaction_items: vec![entry("a", 0), entry("b", 2)],
        delete_items: vec![],
    };
    let run = backend().begin_put("user", request).ok().unwrap();
    let run = run.on_reply(&done(false)).ok().unwrap();
    let error = run.on_reply(&condition_failed()).err().unwrap();
    assert_eq!(error, conflict("Version mismatch"));
}

#[test]
fn put_refuses_a_removal_that_removes_nothing() {
    let begin = |version| {
        let request = PutObjectRequest {
            store_id: "store".to_string(),
            global_version: None,
            transaction_items: vec![],
            delete_items: vec![entry("a", version)],
        };
        backend().begin_put("user", request).ok().unwrap()
    };
    let expected = "Transaction could not be completed due to a possible conflict";
    assert_eq!(begin(1).on_reply(&condition_failed()).err().unwrap(), conflict(expected));
    assert_eq!(begin(1).on_reply(&done(false)).err().unwrap(), conflict(expected));
    assert!(begin(1).on_reply(&done(true)).is_ok());
    assert!(begin(-1).on_reply(&done(false)).is_ok());
    assert_eq!(
        begin(-1).on_reply(&failed()).err().unwrap(),
        invalid("DynamoDB error: throttled")
    );
}

#[test]
fn put_of_nothing_is_finished() {
    let request = PutObjectRequest {
        store_id: "store".to_string(),
        global_version: None,
        transaction_items: vec![],
        delete_items: vec![],
    };
    let run = backend().begin_put("user", request).ok().unwrap();
    assert_eq!(run.action(), PutAction::Finish(PutObjectResponse {}));
}

#[test]
fn put_has_a_limit_on_items() {
    let request = |writes: usize, removals: usize| PutObjectRequest {
        store_id: "store".to_string(),
        global_version: Some(0),
        transaction_items: (0..writes).map(|i| entry(&i.to_string(), 0)).collect(),
        delete_items: (0..removals).map(|i| entry(&i.to_string(), 0)).collect(),
    };
    assert!(backend().begin_put("user", request(1000, 0)).is_ok());
    assert!(backend().begin_put("user", request(400, 600)).is_ok());
    assert!(backend().begin_put("user", request(0, 1000)).is_ok());
    for (writes, removals) in [(1001, 0), (1000, 1), (0, 1001), (2000, 2000)] {
        assert_eq!(
            backend().begin_put("user", request(writes, removals)).err().unwrap(),
            invalid("Number of write items per request should be less than equal to 1000")
        );
    }
}

#[test]
fn put_cannot_go_beyond_the_last_version() {
    let request = PutObjectRequest {
        store_id: "store".to_string(),
        global_version: None,
        transaction_items: vec![entry("a", i64::MAX)],
        delete_items: vec![],
    };
    assert!(!backend().begin_put("user", request).ok().unwrap().can_act());
}

#[test]
fn delete_needs_a_key_value() {
    let request = DeleteObjectRequest { store_id: "store".to_string(), key_value: None };
    assert_eq!(
        DynamoDbBackendImpl::begin_delete("user", request),
        Err(invalid("key_value missing in DeleteObjectRequest"))
    );
}

#[test]
fn delete_does_not_tell_whether_there_was_a_record() {
    let request =
        DeleteObjectRequest { store_id: "store".to_string(), key_value: Some(entry("k", 2)) };
    let record = DynamoDbBackendImpl::begin_delete("user", request).unwrap();
    assert_eq!(record.namespace, "user#store");
    assert_eq!(record.key, "k");
    assert_eq!(record.version, 2);
    for reply in [done(true), done(false), condition_failed()] {
        assert_eq!(
            DynamoDbBackendImpl::delete_result(&record, &reply),
            Ok(DeleteObjectResponse {})
        );
    }
    assert_eq!(
        DynamoDbBackendImpl::delete_result(&record, &failed()),
        Err(invalid("DynamoDB error: throttled"))
    );
}
