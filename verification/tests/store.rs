use std::collections::BTreeMap;

use bytes::Bytes;
use vss_server::dynamodb_store::DynamoDbBackendImpl;
use vss_server::items::{AttributeValue, Item, Names};
use vss_server::list::ListAction;
use vss_server::put::PutAction;
use vss_server::requests::{
    GetItemRequest, GetReply, QueryReply, QueryRequest, WriteReply, WriteRequest,
};
use vss_server::routes::{
    handle_request, put_request_for, store_response, HttpAction, HttpResponse, ListParameters,
};
use vss_server::types::{
    DeleteObjectRequest, DeleteObjectResponse, GetObjectRequest, KeyValue, ListKeyVersionsRequest,
    ListKeyVersionsResponse, PutObjectRequest, PutObjectResponse, VssError,
};

/// A table in memory, which does what the store asks of the service.
struct MemoryTable {
    items: BTreeMap<(String, String), Item>,
}

fn copied_value(value: &AttributeValue) -> AttributeValue {
    match value {
        AttributeValue::S(text) => AttributeValue::S(text.clone()),
        AttributeValue::N(numeral) => AttributeValue::N(numeral.clone()),
        AttributeValue::B(contents) => AttributeValue::B(contents.clone()),
        AttributeValue::Other => AttributeValue::Other,
    }
}

fn copied_item(item: &Item) -> Item {
    let mut copy = Item::new();
    for attribute in &item.attributes {
        copy.insert(&attribute.name, copied_value(&attribute.value));
    }
    copy
}

fn text_of(item: &Item, name: &str) -> String {
    match item.attribute(name) {
        Some(AttributeValue::S(text)) => text.clone(),
        other => panic!("{:?}", other),
    }
}

fn place(item: &Item) -> (String, String) {
    (text_of(item, "namespace"), text_of(item, "key"))
}

fn real_name(names: &Names, placeholder: &str) -> String {
    names.bindings.iter().find(|b| b.placeholder == placeholder).unwrap().name.clone()
}

impl MemoryTable {
    fn new() -> MemoryTable {
        MemoryTable { items: BTreeMap::new() }
    }

    fn holds(
        &self, condition: Option<&str>, names: &Names, values: &Item, at: &(String, String),
    ) -> bool {
        let item = self.items.get(at);
        match condition {
            None => true,
            Some("attribute_not_exists(#version)") => match item {
                Some(item) => item.attribute(&real_name(names, "#version")).is_none(),
                None => true,
            },
            Some("#version = :expected_version") => match item {
                Some(item) => {
                    item.attribute(&real_name(names, "#version")) == values.attribute(":expected_version")
                }
                None => false,
            },
            Some(other) => panic!("{}", other),
        }
    }

    fn write(&mut self, request: WriteRequest) -> WriteReply {
        let refused = WriteReply::ConditionFailed("The conditional request failed".to_string());
        match request {
            WriteRequest::Put(put) => {
                let at = place(&put.item);
                let condition = put.condition_expression.as_deref();
                let names = &put.expression_attribute_names;
                if !self.holds(condition, names, &Item::new(), &at) {
                    return refused;
                }
                self.items.insert(at, put.item);
                WriteReply::Done { old_attributes: false }
            }
            WriteRequest::Update(update) => {
                let at = place(&update.key);
                let names = &update.expression_attribute_names;
                let values = &update.expression_attribute_values;
                if !self.holds(Some(&update.condition_expression), names, values, &at) {
                    return refused;
                }
                let item = self.items.get_mut(&at).unwrap();
                let assignments = update.update_expression.strip_prefix("SET ").unwrap();
                for assignment in assignments.split(", ") {
                    let (name, value) = assignment.split_once(" = ").unwrap();
                    item.insert(&real_name(names, name), copied_value(values.attribute(value).unwrap()));
                }
                WriteReply::Done { old_attributes: false }
            }
            WriteRequest::Delete(delete) => {
                let at = place(&delete.key);
                let condition = delete.condition_expression.as_deref();
                let names = &delete.expression_attribute_names;
                if !self.holds(condition, names, &delete.expression_attribute_values, &at) {
                    return refused;
                }
                WriteReply::Done { old_attributes: self.items.remove(&at).is_some() }
            }
        }
    }

    fn read(&self, request: &GetItemRequest) -> GetReply {
        match self.items.get(&place(&request.key)) {
            Some(item) => GetReply::Found(copied_item(item)),
            None => GetReply::Missing,
        }
    }

    fn query(&self, request: &QueryRequest) -> QueryReply {
        let namespace = text_of(&request.expression_attribute_values, ":namespace");
        let start = request.exclusive_start_key.as_ref().map(place);
        let page = self
            .items
            .iter()
            .filter(|(at, _)| at.0 == namespace)
            .filter(|(at, _)| start.as_ref().map_or(true, |start| *at > start))
            .take(request.limit as usize)
            .filter(|(at, _)| match &request.filter_expression {
                Some(_) => at.1.starts_with(&text_of(
                    &request.expression_attribute_values,
                    ":key_prefix",
                )),
                None => true,
            })
            .map(|(_, item)| copied_item(item))
            .collect();
        QueryReply::Page(page)
    }
}

/// The store over a table in memory.
struct MemoryStore {
    backend: DynamoDbBackendImpl,
    table: MemoryTable,
}

impl MemoryStore {
    fn new() -> MemoryStore {
        MemoryStore {
            backend: DynamoDbBackendImpl::new("vss-table".to_string()),
            table: MemoryTable::new(),
        }
    }

    fn put(
        &mut self, user: &str, request: PutObjectRequest,
    ) -> Result<PutObjectResponse, VssError> {
        let mut run = self.backend.begin_put(user, request)?;
        loop {
            assert!(run.can_act());
            match run.action() {
                PutAction::Finish(response) => return Ok(response),
                PutAction::Send(request) => {
                    let reply = self.table.write(request);
                    run = run.on_reply(&reply)?;
                }
            }
        }
    }

    fn get(&self, user: &str, store_id: &str, key: &str) -> Result<KeyValue, VssError> {
        let request = GetObjectRequest { store_id: store_id.to_string(), key: key.to_string() };
        let reply = self.table.read(&self.backend.get_request(user, &request));
        DynamoDbBackendImpl::get_result(&request.key, &reply).map(|r| r.value.unwrap())
    }

    fn delete(
        &mut self, user: &str, store_id: &str, kv: KeyValue,
    ) -> Result<DeleteObjectResponse, VssError> {
        let request =
            DeleteObjectRequest { store_id: store_id.to_string(), key_value: Some(kv) };
        let record = DynamoDbBackendImpl::begin_delete(user, request)?;
        let request = self.backend.delete_object_request(&record);
        let reply = self.table.write(WriteRequest::Delete(request));
        DynamoDbBackendImpl::delete_result(&record, &reply)
    }

    fn list(
        &self, user: &str, request: ListKeyVersionsRequest,
    ) -> Result<ListKeyVersionsResponse, VssError> {
        let mut run = self.backend.begin_list(user, request);
        loop {
            match run.action() {
                ListAction::GetGlobalVersion(request) => {
                    run = run.on_global_version(&self.table.read(&request))?;
                }
                ListAction::Query(request) => return run.on_page(&self.table.query(&request)),
            }
        }
    }
}

fn kv(key: &str, value: &str, version: i64) -> KeyValue {
    KeyValue { key: key.to_string(), value: Bytes::from(value.as_bytes().to_vec()), version }
}

fn writes(items: Vec<KeyValue>) -> PutObjectRequest {
    PutObjectRequest {
        store_id: "s".to_string(),
        global_version: None,
        transaction_items: items,
        delete_items: vec![],
    }
}

fn removals(items: Vec<KeyValue>) -> PutObjectRequest {
    PutObjectRequest {
        store_id: "s".to_string(),
        global_version: None,
        transaction_items: vec![],
        delete_items: items,
    }
}

fn is_conflict<T>(result: Result<T, VssError>) -> bool {
    matches!(result, Err(VssError::ConflictError(_)))
}

fn is_missing<T>(result: Result<T, VssError>) -> bool {
    matches!(result, Err(VssError::NoSuchKeyError(_)))
}

fn pages(prefix: Option<&str>, size: Option<i32>, token: Option<&str>) -> ListKeyVersionsRequest {
    ListKeyVersionsRequest {
        store_id: "s".to_string(),
        key_prefix: prefix.map(str::to_string),
        page_size: size,
        page_token: token.map(str::to_string),
    }
}

fn keys_of(response: &ListKeyVersionsResponse) -> Vec<String> {
    response.key_versions.iter().map(|kv| kv.key.clone()).collect()
}

fn post(store: &mut MemoryStore, path: &str, body: Option<PutObjectRequest>) -> HttpResponse {
    let none = ListParameters { key_prefix: None, page_size: None, page_token: None };
    match handle_request("POST", path, Some("Bearer u"), none) {
        HttpAction::ReadPut { user_token, store_id } => match put_request_for(store_id, body) {
            Ok(request) => {
                store_response(store.put(&user_token, request).map(|_| "{}".to_string()))
            }
            Err(response) => response,
        },
        other => panic!("{:?}", other),
    }
}

fn fetch(store: &MemoryStore, path: &str) -> HttpResponse {
    let none = ListParameters { key_prefix: None, page_size: None, page_token: None };
    match handle_request("GET", path, Some("Bearer u"), none) {
        HttpAction::Get { user_token, object } => store_response(
            store
                .get(&user_token, &object.store_id, &object.key)
                .map(|kv| format!("{} {}", String::from_utf8_lossy(&kv.value), kv.version)),
        ),
        other => panic!("{:?}", other),
    }
}

#[test]
fn create_read_update_conflict_and_not_found_over_http() {
    let mut store = MemoryStore::new();
    // Create.
    let body = writes(vec![kv("test-key", "first", 0)]);
    assert_eq!(post(&mut store, "/v1/s/test-key", Some(body)).status, 200);
    let stored = &store.table.items[&("u#s".to_string(), "test-key".to_string())];
    assert_eq!(stored.attribute("version"), Some(&AttributeValue::N("1".to_string())));
    // Read.
    let response = fetch(&store, "/v1/s/test-key");
    assert_eq!(response.status, 200);
    assert_eq!(response.body, "first 1");
    // Update from the version that is stored.
    let body = writes(vec![kv("test-key", "second", 1)]);
    assert_eq!(post(&mut store, "/v1/s/test-key", Some(body)).status, 200);
    assert_eq!(fetch(&store, "/v1/s/test-key").body, "second 2");
    // Update from an old version.
    let body = writes(vec![kv("test-key", "third", 1)]);
    let response = post(&mut store, "/v1/s/test-key", Some(body));
    assert_eq!(response.status, 409);
    assert_eq!(response.body, "{\"error\": \"Version mismatch\"}");
    assert_eq!(fetch(&store, "/v1/s/test-key").body, "second 2");
    // Read of a key that is not there.
    let response = fetch(&store, "/v1/s/other-key");
    assert_eq!(response.status, 404);
    assert_eq!(response.body, "{\"error\": \"Requested key not found.\"}");
    // A body that is no request.
    assert_eq!(post(&mut store, "/v1/s/test-key", None).status, 400);
}

#[test]
fn created_record_has_the_initial_version() {
    let mut store = MemoryStore::new();
    assert_eq!(store.put("u", writes(vec![kv("k", "v", 0)])), Ok(PutObjectResponse {}));
    assert_eq!(store.get("u", "s", "k"), Ok(kv("k", "v", 1)));
}

#[test]
fn creating_twice_is_a_conflict() {
    let mut store = MemoryStore::new();
    store.put("u", writes(vec![kv("k", "v", 0)])).unwrap();
    assert_eq!(
        store.put("u", writes(vec![kv("k", "w", 0)])),
        Err(VssError::ConflictError("Item already exists".to_string()))
    );
    assert_eq!(store.get("u", "s", "k"), Ok(kv("k", "v", 1)));
}

#[test]
fn creating_over_an_item_without_version_replaces_it() {
    let mut store = MemoryStore::new();
    let at = ("u#s".to_string(), "k".to_string());
    let mut bare = Item::new();
    bare.insert("namespace", AttributeValue::S("u#s".to_string()));
    bare.insert("key", AttributeValue::S("k".to_string()));
    bare.insert("note", AttributeValue::S("kept by hand".to_string()));
    store.table.items.insert(at.clone(), bare);
    assert_eq!(store.put("u", writes(vec![kv("k", "v", 0)])), Ok(PutObjectResponse {}));
    assert_eq!(store.get("u", "s", "k"), Ok(kv("k", "v", 1)));
    assert_eq!(store.table.items[&at].attribute("note"), None);
    assert!(is_conflict(store.put("u", writes(vec![kv("k", "w", 0)]))));
    assert_eq!(store.get("u", "s", "k"), Ok(kv("k", "v", 1)));
}

#[test]
fn updating_what_is_not_there_is_a_conflict() {
    let mut store = MemoryStore::new();
    assert_eq!(
        store.put("u", writes(vec![kv("k", "v", 1)])),
        Err(VssError::ConflictError("Version mismatch".to_string()))
    );
    assert!(is_missing(store.get("u", "s", "k")));
}

#[test]
fn update_keeps_the_time_of_creation() {
    let mut store = MemoryStore::new();
    store.put("u", writes(vec![kv("k", "v", 0)])).unwrap();
    let at = ("u#s".to_string(), "k".to_string());
    let created = text_of(&store.table.items[&at], "created_at");
    assert_eq!(text_of(&store.table.items[&at], "last_updated_at"), created);
    store.put("u", writes(vec![kv("k", "w", 1)])).unwrap();
    assert_eq!(text_of(&store.table.items[&at], "created_at"), created);
    assert!(text_of(&store.table.items[&at], "last_updated_at") >= created);
}

#[test]
fn second_writer_of_a_version_is_refused() {
    let mut store = MemoryStore::new();
    store.put("u", writes(vec![kv("k", "v", 0)])).unwrap();
    store.put("u", writes(vec![kv("k", "first", 1)])).unwrap();
    assert!(is_conflict(store.put("u", writes(vec![kv("k", "second", 1)]))));
    assert_eq!(store.get("u", "s", "k"), Ok(kv("k", "first", 2)));
}

#[test]
fn unconditional_write_starts_over() {
    let mut store = MemoryStore::new();
    store.put("u", writes(vec![kv("k", "v", -1)])).unwrap();
    assert_eq!(store.get("u", "s", "k"), Ok(kv("k", "v", 1)));
    store.put("u", writes(vec![kv("k", "w", 1)])).unwrap();
    store.put("u", writes(vec![kv("k", "x", -1)])).unwrap();
    assert_eq!(store.get("u", "s", "k"), Ok(kv("k", "x", 1)));
}

#[test]
fn put_writes_and_removes_together() {
    let mut store = MemoryStore::new();
    store.put("u", writes(vec![kv("a", "1", 0), kv("b", "2", 0)])).unwrap();
    let request = PutObjectRequest {
        store_id: "s".to_string(),
        global_version: Some(0),
        transaction_items: vec![kv("a", "3", 1), kv("c", "4", 0)],
        delete_items: vec![kv("b", "", 1)],
    };
    assert_eq!(store.put("u", request), Ok(PutObjectResponse {}));
    assert_eq!(store.get("u", "s", "a"), Ok(kv("a", "3", 2)));
    assert_eq!(store.get("u", "s", "c"), Ok(kv("c", "4", 1)));
    assert!(is_missing(store.get("u", "s", "b")));
    assert_eq!(store.get("u", "s", "global_version"), Ok(kv("global_version", "", 1)));
}

#[test]
fn put_leaves_done_what_came_before_a_refusal() {
    let mut store = MemoryStore::new();
    store.put("u", writes(vec![kv("b", "old", 0)])).unwrap();
    let items = vec![kv("a", "1", 0), kv("b", "new", 5), kv("c", "3", 0)];
    assert!(is_conflict(store.put("u", writes(items))));
    assert_eq!(store.get("u", "s", "a"), Ok(kv("a", "1", 1)));
    assert_eq!(store.get("u", "s", "b"), Ok(kv("b", "old", 1)));
    assert!(is_missing(store.get("u", "s", "c")));
}

#[test]
fn refused_put_changes_only_its_own_keys() {
    let mut store = MemoryStore::new();
    store.put("u", writes(vec![kv("x", "1", 0)])).unwrap();
    store.put("v", writes(vec![kv("a", "2", 0)])).unwrap();
    let items = vec![kv("a", "1", 0), kv("a", "2", 0), kv("b", "3", 0)];
    assert_eq!(
        store.put("u", writes(items)),
        Err(VssError::ConflictError("Item already exists".to_string()))
    );
    assert_eq!(store.get("u", "s", "x"), Ok(kv("x", "1", 1)));
    assert_eq!(store.get("v", "s", "a"), Ok(kv("a", "2", 1)));
}

#[test]
fn consecutive_pages_do_not_overlap() {
    let mut store = MemoryStore::new();
    let items = ["a", "ab", "b", "é", "z", "日"].iter().map(|key| kv(key, "", 0)).collect();
    store.put("u", writes(items)).unwrap();
    let first = store.list("u", pages(None, Some(2), None)).unwrap();
    let token = first.next_page_token.clone().unwrap();
    let second = store.list("u", pages(None, Some(2), Some(&token))).unwrap();
    assert_eq!(keys_of(&first), vec!["a", "ab"]);
    assert_eq!(token, "b");
    assert_eq!(keys_of(&second), vec!["z", "é"]);
}

#[test]
fn put_of_one_key_twice_meets_its_own_write() {
    let mut store = MemoryStore::new();
    assert!(is_conflict(store.put("u", writes(vec![kv("a", "1", 0), kv("a", "2", 0)]))));
    assert_eq!(store.get("u", "s", "a"), Ok(kv("a", "1", 1)));
    assert!(store.put("u", writes(vec![kv("b", "1", 0), kv("b", "2", 1)])).is_ok());
    assert_eq!(store.get("u", "s", "b"), Ok(kv("b", "2", 2)));
}

#[test]
fn global_version_guards_a_put() {
    let mut store = MemoryStore::new();
    assert_eq!(store.get("u", "s", "global_version"), Ok(kv("global_version", "", 0)));
    let request = |version| PutObjectRequest {
        store_id: "s".to_string(),
        global_version: Some(version),
        transaction_items: vec![],
        delete_items: vec![],
    };
    store.put("u", request(0)).unwrap();
    store.put("u", request(1)).unwrap();
    assert!(is_conflict(store.put("u", request(1))));
    assert_eq!(store.get("u", "s", "global_version"), Ok(kv("global_version", "", 2)));
}

#[test]
fn removal_in_a_put_needs_the_version() {
    let mut store = MemoryStore::new();
    store.put("u", writes(vec![kv("a", "1", 0)])).unwrap();
    assert!(is_conflict(store.put("u", removals(vec![kv("a", "", 2)]))));
    assert!(is_conflict(store.put("u", removals(vec![kv("z", "", 1)]))));
    assert!(store.put("u", removals(vec![kv("z", "", -1)])).is_ok());
    assert!(store.put("u", removals(vec![kv("a", "", 1)])).is_ok());
    assert!(is_missing(store.get("u", "s", "a")));
}

#[test]
fn delete_removes_the_version_that_is_asked_for() {
    let mut store = MemoryStore::new();
    store.put("u", writes(vec![kv("a", "1", 0)])).unwrap();
    assert_eq!(store.delete("u", "s", kv("a", "", 2)), Ok(DeleteObjectResponse {}));
    assert_eq!(store.get("u", "s", "a"), Ok(kv("a", "1", 1)));
    assert_eq!(store.delete("u", "s", kv("a", "", 1)), Ok(DeleteObjectResponse {}));
    assert!(is_missing(store.get("u", "s", "a")));
}

#[test]
fn delete_can_be_repeated() {
    let mut store = MemoryStore::new();
    store.put("u", writes(vec![kv("a", "1", 0), kv("b", "2", 0)])).unwrap();
    for _ in 0..2 {
        assert_eq!(store.delete("u", "s", kv("a", "", -1)), Ok(DeleteObjectResponse {}));
        assert!(is_missing(store.get("u", "s", "a")));
        assert_eq!(store.get("u", "s", "b"), Ok(kv("b", "2", 1)));
    }
}

#[test]
fn removed_global_version_is_zero_again() {
    let mut store = MemoryStore::new();
    store.put("u", writes(vec![kv("global_version", "", 0)])).unwrap();
    assert_eq!(store.get("u", "s", "global_version"), Ok(kv("global_version", "", 1)));
    store.delete("u", "s", kv("global_version", "", 1)).unwrap();
    assert_eq!(store.get("u", "s", "global_version"), Ok(kv("global_version", "", 0)));
}

#[test]
fn users_and_stores_do_not_see_each_other() {
    let mut store = MemoryStore::new();
    store.put("u", writes(vec![kv("a", "1", 0)])).unwrap();
    assert!(is_missing(store.get("v", "s", "a")));
    assert!(is_missing(store.get("u", "t", "a")));
    store.put("v", writes(vec![kv("a", "2", 0)])).unwrap();
    assert_eq!(store.get("u", "s", "a"), Ok(kv("a", "1", 1)));
    assert_eq!(store.get("v", "s", "a"), Ok(kv("a", "2", 1)));
}

#[test]
fn list_shows_versions_as_they_are_read() {
    let mut store = MemoryStore::new();
    let request = PutObjectRequest {
        store_id: "s".to_string(),
        global_version: Some(0),
        transaction_items: vec![kv("b", "2", 0), kv("a", "1", 0)],
        delete_items: vec![],
    };
    store.put("u", request).unwrap();
    store.put("u", writes(vec![kv("a", "3", 1)])).unwrap();
    let page = store.list("u", pages(None, None, None)).unwrap();
    assert_eq!(page.key_versions, vec![kv("a", "", 2), kv("b", "", 1)]);
    assert_eq!(page.global_version, Some(1));
    assert_eq!(page.next_page_token, Some("".to_string()));
    for entry in &page.key_versions {
        assert_eq!(store.get("u", "s", &entry.key).unwrap().version, entry.version);
    }
}

#[test]
fn list_of_an_empty_store() {
    let store = MemoryStore::new();
    let page = store.list("u", pages(None, None, None)).unwrap();
    assert!(page.key_versions.is_empty());
    assert_eq!(page.next_page_token, None);
    assert_eq!(page.global_version, Some(0));
}

#[test]
fn list_by_prefix() {
    let mut store = MemoryStore::new();
    store.put("u", writes(vec![kv("x1", "", 0), kv("y1", "", 0), kv("x2", "", 0)])).unwrap();
    let page = store.list("u", pages(Some("x"), None, None)).unwrap();
    assert_eq!(keys_of(&page), vec!["x1", "x2"]);
}

#[test]
fn token_leads_past_the_first_key_that_is_not_shown() {
    let mut store = MemoryStore::new();
    store.put("u", writes(vec![kv("a", "", 0), kv("b", "", 0), kv("c", "", 0)])).unwrap();
    let first = store.list("u", pages(None, Some(1), None)).unwrap();
    assert_eq!(keys_of(&first), vec!["a"]);
    assert_eq!(first.next_page_token, Some("b".to_string()));
    let second = store.list("u", pages(None, Some(1), Some("b"))).unwrap();
    assert_eq!(keys_of(&second), vec!["c"]);
    assert_eq!(second.next_page_token, Some("".to_string()));
    assert_eq!(second.global_version, None);
}
