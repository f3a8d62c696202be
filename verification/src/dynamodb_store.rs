//! The backend of the store: which requests it sends to the table service, and what it makes of
//! the answers.
//!
//! The backend does not talk to the service. For each request it gives what to send, and it takes
//! what came back.

use crate::items::{AttributeValue, AttributeView, Item, Names};
use crate::octets::empty_octets;
use crate::records::{
    build_key_item, build_new_item, copy_bytes, create_namespace, item_to_key_value, key_item,
    key_value_of, namespace_of, new_item, RecordView, VssDbRecord,
};
use crate::requests::{
    DeleteItemRequest, DeleteItemView, GetItemRequest, GetItemView, GetReply, GetReplyView,
    PutItemRequest, PutItemView, UpdateItemRequest, UpdateItemView, WriteReply, WriteReplyView,
    WriteRequest, WriteView,
};
use crate::text::{decimal, decimal_text};
use crate::types::{
    outcome, GetObjectRequest, GetObjectRequestView, GetObjectResponse, GetObjectResponseView,
    KeyValue, KeyValueView, VssError, VssErrorView, ABSENT_VERSION, GLOBAL_VERSION_KEY,
    UNCONDITIONAL_VERSION,
};
use vstd::prelude::*;

verus! {

/// The maximum number of key versions that can be returned in a single page.
pub const LIST_KEY_VERSIONS_MAX_PAGE_SIZE: i32 = 100;

/// The maximum number of items allowed in a single `PutObjectRequest`.
pub const MAX_PUT_REQUEST_ITEM_COUNT: usize = 1000;

/// A [DynamoDB](https://aws.amazon.com/dynamodb/) based backend.
#[derive(Debug, PartialEq, Eq)]
pub struct DynamoDbBackendImpl {
    pub table_name: String,
}

// ---------------------------------------------------------------------------------------------
// Errors of the service
// ---------------------------------------------------------------------------------------------

/// The error for a request that the service could not carry out.
pub open spec fn service_error(text: Seq<char>) -> VssErrorView {
    VssErrorView::InvalidRequestError("DynamoDB error: "@ + text)
}

/// The error where a record that is to be created is there already.
pub open spec fn item_exists() -> VssErrorView {
    VssErrorView::ConflictError("Item already exists"@)
}

/// The error where a record is not there in the version that it is to be updated from.
pub open spec fn version_mismatch() -> VssErrorView {
    VssErrorView::ConflictError("Version mismatch"@)
}

/// The error where there is no record under a key.
pub open spec fn no_such_key() -> VssErrorView {
    VssErrorView::NoSuchKeyError("Requested key not found."@)
}

// ---------------------------------------------------------------------------------------------
// Writing a record
// ---------------------------------------------------------------------------------------------

/// Stores a record where no version of it is stored yet.
pub open spec fn conditional_insert(table_name: Seq<char>, record: RecordView) -> PutItemView {
    PutItemView {
        table_name,
        item: new_item(record),
        condition_expression: Some("attribute_not_exists(#version)"@),
        expression_attribute_names: Map::<Seq<char>, Seq<char>>::empty().insert(
            "#version"@,
            "version"@,
        ),
    }
}

pub open spec fn conditional_insert_outcome(reply: WriteReplyView) -> Result<(), VssErrorView> {
    match reply {
        WriteReplyView::Done { .. } => Ok(()),
        WriteReplyView::ConditionFailed(_) => Err(item_exists()),
        WriteReplyView::Failed(text) => Err(service_error(text)),
    }
}

/// Gives the stored record the value and the next version, where the version that is stored is
/// the record's.
pub open spec fn conditional_update(table_name: Seq<char>, record: RecordView) -> UpdateItemView {
    UpdateItemView {
        table_name,
        key: key_item(record.namespace, record.key),
        update_expression:
            "SET #value = :value, #version = :new_version, #last_updated_at = :last_updated_at"@,
        condition_expression: "#version = :expected_version"@,
        expression_attribute_names: Map::<Seq<char>, Seq<char>>::empty().insert(
            "#value"@,
            "value"@,
        ).insert("#version"@, "version"@).insert("#last_updated_at"@, "last_updated_at"@),
        expression_attribute_values: Map::<Seq<char>, AttributeView>::empty().insert(
            ":value"@,
            AttributeView::B(record.value),
        ).insert(":new_version"@, AttributeView::N(decimal(record.version + 1))).insert(
            ":expected_version"@,
            AttributeView::N(decimal(record.version as int)),
        ).insert(":last_updated_at"@, AttributeView::S(record.last_updated_at)),
    }
}

pub open spec fn conditional_update_outcome(reply: WriteReplyView) -> Result<(), VssErrorView> {
    match reply {
        WriteReplyView::Done { .. } => Ok(()),
        WriteReplyView::ConditionFailed(_) => Err(version_mismatch()),
        WriteReplyView::Failed(text) => Err(service_error(text)),
    }
}

/// Stores a record in place of whatever is there.
pub open spec fn non_conditional_upsert(table_name: Seq<char>, record: RecordView) -> PutItemView {
    PutItemView {
        table_name,
        item: new_item(record),
        condition_expression: None,
        expression_attribute_names: Map::<Seq<char>, Seq<char>>::empty(),
    }
}

pub open spec fn non_conditional_upsert_outcome(reply: WriteReplyView) -> Result<(), VssErrorView> {
    match reply {
        WriteReplyView::Done { .. } => Ok(()),
        WriteReplyView::ConditionFailed(text) => Err(service_error(text)),
        WriteReplyView::Failed(text) => Err(service_error(text)),
    }
}

/// The request that writes a record: what must be stored beforehand goes by its version.
pub open spec fn put_object_query(table_name: Seq<char>, record: RecordView) -> WriteView {
    if record.version == UNCONDITIONAL_VERSION {
        WriteView::Put(non_conditional_upsert(table_name, record))
    } else if record.version == ABSENT_VERSION {
        WriteView::Put(conditional_insert(table_name, record))
    } else {
        WriteView::Update(conditional_update(table_name, record))
    }
}

pub open spec fn put_object_outcome(record: RecordView, reply: WriteReplyView) -> Result<
    (),
    VssErrorView,
> {
    if record.version == UNCONDITIONAL_VERSION {
        non_conditional_upsert_outcome(reply)
    } else if record.version == ABSENT_VERSION {
        conditional_insert_outcome(reply)
    } else {
        conditional_update_outcome(reply)
    }
}

/// The version after a record's own is a 64-bit integer too.
pub open spec fn next_version_fits(record: RecordView) -> bool {
    record.version < i64::MAX
}

// ---------------------------------------------------------------------------------------------
// Removing a record
// ---------------------------------------------------------------------------------------------

/// Removes a record, where the version that is stored is the record's.
pub open spec fn conditional_delete(table_name: Seq<char>, record: RecordView) -> DeleteItemView {
    DeleteItemView {
        table_name,
        key: key_item(record.namespace, record.key),
        condition_expression: Some("#version = :expected_version"@),
        expression_attribute_names: Map::<Seq<char>, Seq<char>>::empty().insert(
            "#version"@,
            "version"@,
        ),
        expression_attribute_values: Map::<Seq<char>, AttributeView>::empty().insert(
            ":expected_version"@,
            AttributeView::N(decimal(record.version as int)),
        ),
        return_values: "ALL_OLD"@,
    }
}

pub open spec fn conditional_delete_outcome(reply: WriteReplyView) -> Result<bool, VssErrorView> {
    match reply {
        WriteReplyView::Done { old_attributes } => Ok(old_attributes),
        WriteReplyView::ConditionFailed(_) => Ok(false),
        WriteReplyView::Failed(text) => Err(service_error(text)),
    }
}

/// Removes a record, whatever version is stored.
pub open spec fn non_conditional_delete(
    table_name: Seq<char>,
    record: RecordView,
) -> DeleteItemView {
    DeleteItemView {
        table_name,
        key: key_item(record.namespace, record.key),
        condition_expression: None,
        expression_attribute_names: Map::<Seq<char>, Seq<char>>::empty(),
        expression_attribute_values: Map::<Seq<char>, AttributeView>::empty(),
        return_values: "ALL_OLD"@,
    }
}

pub open spec fn non_conditional_delete_outcome(reply: WriteReplyView) -> Result<
    bool,
    VssErrorView,
> {
    match reply {
        WriteReplyView::Done { old_attributes } => Ok(old_attributes),
        WriteReplyView::ConditionFailed(text) => Err(service_error(text)),
        WriteReplyView::Failed(text) => Err(service_error(text)),
    }
}

/// The request that removes a record: what must be stored beforehand goes by its version.
pub open spec fn delete_object_query(table_name: Seq<char>, record: RecordView) -> DeleteItemView {
    if record.version == UNCONDITIONAL_VERSION {
        non_conditional_delete(table_name, record)
    } else {
        conditional_delete(table_name, record)
    }
}

/// Whether a record was removed.
pub open spec fn delete_object_outcome(record: RecordView, reply: WriteReplyView) -> Result<
    bool,
    VssErrorView,
> {
    if record.version == UNCONDITIONAL_VERSION {
        non_conditional_delete_outcome(reply)
    } else {
        conditional_delete_outcome(reply)
    }
}

// ---------------------------------------------------------------------------------------------
// Reading a record
// ---------------------------------------------------------------------------------------------

/// The request that reads the record under a key.
pub open spec fn get_query(
    table_name: Seq<char>,
    user_token: Seq<char>,
    request: GetObjectRequestView,
) -> GetItemView {
    GetItemView {
        table_name,
        key: key_item(namespace_of(user_token, request.store_id), request.key),
    }
}

/// The global version of a store that has none yet.
pub open spec fn default_global_version() -> KeyValueView {
    KeyValueView { key: GLOBAL_VERSION_KEY@, value: Seq::empty(), version: 0 }
}

/// What a client that asked for a key is answered.
pub open spec fn get_outcome(key: Seq<char>, reply: GetReplyView) -> Result<
    GetObjectResponseView,
    VssErrorView,
> {
    match reply {
        GetReplyView::Found(item) => match key_value_of(item) {
            Ok(kv) => Ok(GetObjectResponseView { value: Some(kv) }),
            Err(error) => Err(error),
        },
        GetReplyView::Missing => if key == GLOBAL_VERSION_KEY@ {
            Ok(GetObjectResponseView { value: Some(default_global_version()) })
        } else {
            Err(no_such_key())
        },
        GetReplyView::Failed(text) => Err(service_error(text)),
    }
}

// ---------------------------------------------------------------------------------------------
// Requests one by one
// ---------------------------------------------------------------------------------------------

impl DynamoDbBackendImpl {
    /// Constructs a [`DynamoDbBackendImpl`] for the table of the given name.
    pub fn new(table_name: String) -> (backend: Self)
        ensures
            backend.table_name == table_name,
    {
        DynamoDbBackendImpl { table_name }
    }

    /// The error for a request that the service could not carry out.
    pub fn service_failure(text: &String) -> (error: VssError)
        ensures
            error@ == service_error(text@),
    {
        let mut message = "DynamoDB error: ".to_owned();
        message.append(text.as_str());
        VssError::InvalidRequestError(message)
    }

    /// The conditional put for a new item (version 0).
    pub fn conditional_insert_request(&self, record: &VssDbRecord) -> (request: PutItemRequest)
        ensures
            request@ == conditional_insert(self.table_name@, record@),
    {
        let mut names = Names::new();
        names.bind("#version", "version");
        PutItemRequest {
            table_name: self.table_name.clone(),
            item: build_new_item(record),
            condition_expression: Some("attribute_not_exists(#version)".to_owned()),
            expression_attribute_names: names,
        }
    }

    /// What the answer to a conditional put means.
    pub fn conditional_insert_result(reply: &WriteReply) -> (result: Result<(), VssError>)
        ensures
            outcome(result) == conditional_insert_outcome(reply@),
    {
        match reply {
            WriteReply::Done { .. } => Ok(()),
            WriteReply::ConditionFailed(_) => Err(
                VssError::ConflictError("Item already exists".to_owned()),
            ),
            WriteReply::Failed(text) => Err(Self::service_failure(text)),
        }
    }

    /// The conditional update of an existing item.
    pub fn conditional_update_request(&self, record: &VssDbRecord) -> (request: UpdateItemRequest)
        requires
            next_version_fits(record@),
        ensures
            request@ == conditional_update(self.table_name@, record@),
    {
        let mut names = Names::new();
        names.bind("#value", "value");
        names.bind("#version", "version");
        names.bind("#last_updated_at", "last_updated_at");
        let mut values = Item::new();
        values.insert(":value", AttributeValue::B(copy_bytes(&record.value)));
        values.insert(":new_version", AttributeValue::N(decimal_text(record.version + 1)));
        values.insert(":expected_version", AttributeValue::N(decimal_text(record.version)));
        values.insert(":last_updated_at", AttributeValue::S(record.last_updated_at.clone()));
        UpdateItemRequest {
            table_name: self.table_name.clone(),
            key: build_key_item(&record.namespace, &record.key),
            update_expression:
                "SET #value = :value, #version = :new_version, #last_updated_at = :last_updated_at".to_owned(),
            condition_expression: "#version = :expected_version".to_owned(),
            expression_attribute_names: names,
            expression_attribute_values: values,
        }
    }

    /// What the answer to a conditional update means.
    pub fn conditional_update_result(reply: &WriteReply) -> (result: Result<(), VssError>)
        ensures
            outcome(result) == conditional_update_outcome(reply@),
    {
        match reply {
            WriteReply::Done { .. } => Ok(()),
            WriteReply::ConditionFailed(_) => Err(
                VssError::ConflictError("Version mismatch".to_owned()),
            ),
            WriteReply::Failed(text) => Err(Self::service_failure(text)),
        }
    }

    /// The put of an item whatever is stored (version -1).
    pub fn non_conditional_upsert_request(&self, record: &VssDbRecord) -> (request: PutItemRequest)
        ensures
            request@ == non_conditional_upsert(self.table_name@, record@),
    {
        PutItemRequest {
            table_name: self.table_name.clone(),
            item: build_new_item(record),
            condition_expression: None,
            expression_attribute_names: Names::new(),
        }
    }

    /// What the answer to a put without a condition means.
    pub fn non_conditional_upsert_result(reply: &WriteReply) -> (result: Result<(), VssError>)
        ensures
            outcome(result) == non_conditional_upsert_outcome(reply@),
    {
        match reply {
            WriteReply::Done { .. } => Ok(()),
            WriteReply::ConditionFailed(text) => Err(Self::service_failure(text)),
            WriteReply::Failed(text) => Err(Self::service_failure(text)),
        }
    }

    /// The request that writes a record, by its version.
    pub fn put_object_request(&self, record: &VssDbRecord) -> (request: WriteRequest)
        requires
            next_version_fits(record@),
        ensures
            request@ == put_object_query(self.table_name@, record@),
    {
        if record.version == UNCONDITIONAL_VERSION {
            WriteRequest::Put(self.non_conditional_upsert_request(record))
        } else if record.version == ABSENT_VERSION {
            WriteRequest::Put(self.conditional_insert_request(record))
        } else {
            WriteRequest::Update(self.conditional_update_request(record))
        }
    }

    /// What the answer to the request that writes a record means.
    pub fn put_object_result(record: &VssDbRecord, reply: &WriteReply) -> (result: Result<
        (),
        VssError,
    >)
        ensures
            outcome(result) == put_object_outcome(record@, reply@),
    {
        if record.version == UNCONDITIONAL_VERSION {
            Self::non_conditional_upsert_result(reply)
        } else if record.version == ABSENT_VERSION {
            Self::conditional_insert_result(reply)
        } else {
            Self::conditional_update_result(reply)
        }
    }

    /// The conditional removal of an item.
    pub fn conditional_delete_request(&self, record: &VssDbRecord) -> (request: DeleteItemRequest)
        ensures
            request@ == conditional_delete(self.table_name@, record@),
    {
        let mut names = Names::new();
        names.bind("#version", "version");
        let mut values = Item::new();
        values.insert(":expected_version", AttributeValue::N(decimal_text(record.version)));
        DeleteItemRequest {
            table_name: self.table_name.clone(),
            key: build_key_item(&record.namespace, &record.key),
            condition_expression: Some("#version = :expected_version".to_owned()),
            expression_attribute_names: names,
            expression_attribute_values: values,
            return_values: "ALL_OLD".to_owned(),
        }
    }

    /// Whether a conditional removal removed the item.
    pub fn conditional_delete_result(reply: &WriteReply) -> (result: Result<bool, VssError>)
        ensures
            outcome(result) == conditional_delete_outcome(reply@),
    {
        match reply {
            WriteReply::Done { old_attributes } => Ok(*old_attributes),
            WriteReply::ConditionFailed(_) => Ok(false),
            WriteReply::Failed(text) => Err(Self::service_failure(text)),
        }
    }

    /// The removal of an item whatever is stored (version -1).
    pub fn non_conditional_delete_request(&self, record: &VssDbRecord) -> (request:
        DeleteItemRequest)
        ensures
            request@ == non_conditional_delete(self.table_name@, record@),
    {
        DeleteItemRequest {
            table_name: self.table_name.clone(),
            key: build_key_item(&record.namespace, &record.key),
            condition_expression: None,
            expression_attribute_names: Names::new(),
            expression_attribute_values: Item::new(),
            return_values: "ALL_OLD".to_owned(),
        }
    }

    /// Whether a removal without a condition removed an item.
    pub fn non_conditional_delete_result(reply: &WriteReply) -> (result: Result<bool, VssError>)
        ensures
            outcome(result) == non_conditional_delete_outcome(reply@),
    {
        match reply {
            WriteReply::Done { old_attributes } => Ok(*old_attributes),
            WriteReply::ConditionFailed(text) => Err(Self::service_failure(text)),
            WriteReply::Failed(text) => Err(Self::service_failure(text)),
        }
    }

    /// The request that removes a record, by its version.
    pub fn delete_object_request(&self, record: &VssDbRecord) -> (request: DeleteItemRequest)
        ensures
            request@ == delete_object_query(self.table_name@, record@),
    {
        if record.version == UNCONDITIONAL_VERSION {
            self.non_conditional_delete_request(record)
        } else {
            self.conditional_delete_request(record)
        }
    }

    /// Whether the request that removes a record removed it.
    pub fn delete_object_result(record: &VssDbRecord, reply: &WriteReply) -> (result: Result<
        bool,
        VssError,
    >)
        ensures
            outcome(result) == delete_object_outcome(record@, reply@),
    {
        if record.version == UNCONDITIONAL_VERSION {
            Self::non_conditional_delete_result(reply)
        } else {
            Self::conditional_delete_result(reply)
        }
    }

    /// The request that reads the record a client asks for.
    pub fn get_request(&self, user_token: &str, request: &GetObjectRequest) -> (query:
        GetItemRequest)
        ensures
            query@ == get_query(self.table_name@, user_token@, request@),
    {
        let namespace = create_namespace(user_token, request.store_id.as_str());
        GetItemRequest {
            table_name: self.table_name.clone(),
            key: build_key_item(&namespace, &request.key),
        }
    }

    /// What the client is answered.
    pub fn get_result(key: &String, reply: &GetReply) -> (result: Result<
        GetObjectResponse,
        VssError,
    >)
        ensures
            outcome(result) == get_outcome(key@, reply@),
    {
        match reply {
            GetReply::Found(item) => match item_to_key_value(item) {
                Ok(kv) => Ok(GetObjectResponse { value: Some(kv) }),
                Err(error) => Err(error),
            },
            GetReply::Missing => if *key == GLOBAL_VERSION_KEY.to_owned() {
                Ok(
                    GetObjectResponse {
                        value: Some(
                            KeyValue {
                                key: GLOBAL_VERSION_KEY.to_owned(),
                                value: empty_octets(),
                                version: 0,
                            },
                        ),
                    },
                )
            } else {
                Err(VssError::NoSuchKeyError("Requested key not found.".to_owned()))
            },
            GetReply::Failed(text) => Err(Self::service_failure(text)),
        }
    }
}

} // verus!
