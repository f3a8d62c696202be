//! The requests that the store takes, the responses it gives and the errors it answers with.

use crate::octets::octets;
use bytes::Bytes;
use vstd::prelude::*;

verus! {

/// The key under which a store keeps its global version.
pub const GLOBAL_VERSION_KEY: &'static str = "global_version";

/// The version that a record has once it has been created.
pub const INITIAL_RECORD_VERSION: i64 = 1;

/// The version that a write carries where it is to be done whatever version is stored.
pub const UNCONDITIONAL_VERSION: i64 = -1;

/// The version that a write carries where it is to be done only if none is stored.
pub const ABSENT_VERSION: i64 = 0;

/// The version that a client expects to be stored. One that names none expects none to be stored.
pub open spec fn version_expected(version: Option<i64>) -> i64 {
    match version {
        Some(v) => v,
        None => ABSENT_VERSION,
    }
}

/// A client that names a version expects that one; one that names none expects none to be stored,
/// which is the version zero.
pub proof fn law_named_version_is_expected(version: i64)
    ensures
        version_expected(Some(version)) == version,
        version_expected(None) == 0,
{
}

/// The version that a client expects to be stored.
pub fn expected_version(version: Option<i64>) -> (expected: i64)
    ensures
        expected == version_expected(version),
        expected == match version {
            Some(v) => v,
            None => ABSENT_VERSION,
        },
{
    match version {
        Some(version) => version,
        None => ABSENT_VERSION,
    }
}

/// A key with a value and the version of that value.
#[derive(Debug, PartialEq, Eq)]
pub struct KeyValue {
    pub key: String,
    pub value: Bytes,
    pub version: i64,
}

pub struct KeyValueView {
    pub key: Seq<char>,
    pub value: Seq<u8>,
    pub version: i64,
}

impl View for KeyValue {
    type V = KeyValueView;

    open spec fn view(&self) -> KeyValueView {
        KeyValueView { key: self.key@, value: octets(self.value), version: self.version }
    }
}

/// The views of the elements, in order.
pub open spec fn key_values(s: Seq<KeyValue>) -> Seq<KeyValueView> {
    s.map_values(|kv: KeyValue| kv@)
}

/// What a text that may be absent holds.
pub open spec fn text_option(text: Option<String>) -> Option<Seq<char>> {
    match text {
        Some(t) => Some(t@),
        None => None,
    }
}

/// Asks for the value under a key.
#[derive(Debug, PartialEq, Eq)]
pub struct GetObjectRequest {
    pub store_id: String,
    pub key: String,
}

pub struct GetObjectRequestView {
    pub store_id: Seq<char>,
    pub key: Seq<char>,
}

impl View for GetObjectRequest {
    type V = GetObjectRequestView;

    open spec fn view(&self) -> GetObjectRequestView {
        GetObjectRequestView { store_id: self.store_id@, key: self.key@ }
    }
}

#[derive(Debug, PartialEq, Eq)]
pub struct GetObjectResponse {
    pub value: Option<KeyValue>,
}

pub struct GetObjectResponseView {
    pub value: Option<KeyValueView>,
}

impl View for GetObjectResponse {
    type V = GetObjectResponseView;

    open spec fn view(&self) -> GetObjectResponseView {
        GetObjectResponseView {
            value: match self.value {
                Some(kv) => Some(kv@),
                None => None,
            },
        }
    }
}

/// Asks for records to be written and others to be removed.
///
/// The version of each item says what must be stored for the item to go through: `-1` for
/// anything, `0` for no version, any other number for that version.
#[derive(Debug, PartialEq, Eq)]
pub struct PutObjectRequest {
    pub store_id: String,
    pub global_version: Option<i64>,
    pub transaction_items: Vec<KeyValue>,
    pub delete_items: Vec<KeyValue>,
}

pub struct PutObjectRequestView {
    pub store_id: Seq<char>,
    pub global_version: Option<i64>,
    pub transaction_items: Seq<KeyValueView>,
    pub delete_items: Seq<KeyValueView>,
}

impl View for PutObjectRequest {
    type V = PutObjectRequestView;

    open spec fn view(&self) -> PutObjectRequestView {
        PutObjectRequestView {
            store_id: self.store_id@,
            global_version: self.global_version,
            transaction_items: key_values(self.transaction_items@),
            delete_items: key_values(self.delete_items@),
        }
    }
}

#[derive(Debug, Clone, Copy, PartialEq, Eq)]
pub struct PutObjectResponse {}

impl View for PutObjectResponse {
    type V = PutObjectResponse;

    open spec fn view(&self) -> PutObjectResponse {
        *self
    }
}

/// Asks for one record to be removed.
#[derive(Debug, PartialEq, Eq)]
pub struct DeleteObjectRequest {
    pub store_id: String,
    pub key_value: Option<KeyValue>,
}

pub struct DeleteObjectRequestView {
    pub store_id: Seq<char>,
    pub key_value: Option<KeyValueView>,
}

impl View for DeleteObjectRequest {
    type V = DeleteObjectRequestView;

    open spec fn view(&self) -> DeleteObjectRequestView {
        DeleteObjectRequestView {
            store_id: self.store_id@,
            key_value: match self.key_value {
                Some(kv) => Some(kv@),
                None => None,
            },
        }
    }
}

#[derive(Debug, Clone, Copy, PartialEq, Eq)]
pub struct DeleteObjectResponse {}

impl View for DeleteObjectResponse {
    type V = DeleteObjectResponse;

    open spec fn view(&self) -> DeleteObjectResponse {
        *self
    }
}

/// Asks for a page of the keys of a store, with their versions.
#[derive(Debug, PartialEq, Eq)]
pub struct ListKeyVersionsRequest {
    pub store_id: String,
    pub key_prefix: Option<String>,
    pub page_size: Option<i32>,
    pub page_token: Option<String>,
}

pub struct ListKeyVersionsRequestView {
    pub store_id: Seq<char>,
    pub key_prefix: Option<Seq<char>>,
    pub page_size: Option<i32>,
    pub page_token: Option<Seq<char>>,
}

impl View for ListKeyVersionsRequest {
    type V = ListKeyVersionsRequestView;

    open spec fn view(&self) -> ListKeyVersionsRequestView {
        ListKeyVersionsRequestView {
            store_id: self.store_id@,
            key_prefix: text_option(self.key_prefix),
            page_size: self.page_size,
            page_token: text_option(self.page_token),
        }
    }
}

#[derive(Debug, PartialEq, Eq)]
pub struct ListKeyVersionsResponse {
    pub key_versions: Vec<KeyValue>,
    pub next_page_token: Option<String>,
    pub global_version: Option<i64>,
}

pub struct ListKeyVersionsResponseView {
    pub key_versions: Seq<KeyValueView>,
    pub next_page_token: Option<Seq<char>>,
    pub global_version: Option<i64>,
}

impl View for ListKeyVersionsResponse {
    type V = ListKeyVersionsResponseView;

    open spec fn view(&self) -> ListKeyVersionsResponseView {
        ListKeyVersionsResponseView {
            key_versions: key_values(self.key_versions@),
            next_page_token: text_option(self.next_page_token),
            global_version: self.global_version,
        }
    }
}

/// Why a request was refused. Each carries a message for the client.
#[derive(Debug, PartialEq, Eq)]
pub enum VssError {
    NoSuchKeyError(String),
    ConflictError(String),
    InvalidRequestError(String),
    AuthError(String),
}

pub enum VssErrorView {
    NoSuchKeyError(Seq<char>),
    ConflictError(Seq<char>),
    InvalidRequestError(Seq<char>),
    AuthError(Seq<char>),
}

impl View for VssError {
    type V = VssErrorView;

    open spec fn view(&self) -> VssErrorView {
        match self {
            VssError::NoSuchKeyError(message) => VssErrorView::NoSuchKeyError(message@),
            VssError::ConflictError(message) => VssErrorView::ConflictError(message@),
            VssError::InvalidRequestError(message) => VssErrorView::InvalidRequestError(message@),
            VssError::AuthError(message) => VssErrorView::AuthError(message@),
        }
    }
}

/// The view of a result: that of the value, or that of the error.
pub open spec fn outcome<T: View>(result: Result<T, VssError>) -> Result<T::V, VssErrorView> {
    match result {
        Ok(value) => Ok(value@),
        Err(error) => Err(error@),
    }
}


/// A text that may be absent is seen as it is, and so is the outcome of a request.
pub proof fn law_outcome_is_seen_whole(text: String, value: GetObjectResponse, error: VssError)
    ensures
        text_option(Some(text)) == Some(text@),
        text_option(None) is None,
        outcome(Ok(value)) == Ok::<GetObjectResponseView, VssErrorView>(value@),
        outcome(Err::<GetObjectResponse, VssError>(error)) == Err::<
            GetObjectResponseView,
            VssErrorView,
        >(error@),
{
}

/// A key with its value and version, and each of a row of them, is seen with all that it holds.
pub proof fn law_key_value_is_seen_whole(kv: KeyValue, row: Seq<KeyValue>)
    ensures
        kv@.key == kv.key@,
        kv@.value == octets(kv.value),
        kv@.version == kv.version,
        key_values(row).len() == row.len(),
        forall|i: int| 0 <= i < row.len() ==> #[trigger] key_values(row)[i] == row[i]@,
{
}

/// A request is seen with all that it asks for.
pub proof fn law_request_is_seen_whole(
    get: GetObjectRequest,
    put: PutObjectRequest,
    delete: DeleteObjectRequest,
    list: ListKeyVersionsRequest,
)
    ensures
        get@.store_id == get.store_id@,
        get@.key == get.key@,
        put@.store_id == put.store_id@,
        put@.global_version == put.global_version,
        put@.transaction_items == key_values(put.transaction_items@),
        put@.delete_items == key_values(put.delete_items@),
        delete@.store_id == delete.store_id@,
        delete.key_value is None <==> delete@.key_value is None,
        delete.key_value matches Some(kv) ==> delete@.key_value == Some(kv@),
        list@.store_id == list.store_id@,
        list@.key_prefix == text_option(list.key_prefix),
        list@.page_size == list.page_size,
        list@.page_token == text_option(list.page_token),
{
}

/// A response is seen with all that it gives, and an error with its kind and its message.
pub proof fn law_response_is_seen_whole(
    get: GetObjectResponse,
    list: ListKeyVersionsResponse,
    message: String,
)
    ensures
        get.value is None <==> get@.value is None,
        get.value matches Some(kv) ==> get@.value == Some(kv@),
        list@.key_versions == key_values(list.key_versions@),
        list@.next_page_token == text_option(list.next_page_token),
        list@.global_version == list.global_version,
        VssError::NoSuchKeyError(message)@ == VssErrorView::NoSuchKeyError(message@),
        VssError::ConflictError(message)@ == VssErrorView::ConflictError(message@),
        VssError::InvalidRequestError(message)@ == VssErrorView::InvalidRequestError(message@),
        VssError::AuthError(message)@ == VssErrorView::AuthError(message@),
{
}

} // verus!
