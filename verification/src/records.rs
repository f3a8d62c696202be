//! The records that the store keeps, and their form as items of the table.

use crate::clock::{is_utc_timestamp, utc_timestamp};
use crate::items::{AttributeValue, AttributeView, Item, ItemView};
use crate::octets::{empty_octets, octets_from_vec, octets_to_vec};
use crate::text::{
    decimal, decimal_text, law_numeral_reads_back, numeral_i64, numeral_value, parse_i64,
};
use crate::types::{outcome, KeyValue, KeyValueView, VssError, VssErrorView, INITIAL_RECORD_VERSION};
use vstd::prelude::*;

verus! {

/// A record of the table.
#[derive(Debug, PartialEq, Eq)]
pub struct VssDbRecord {
    /// The user token and the store id, combined.
    pub namespace: String,
    pub key: String,
    pub value: Vec<u8>,
    pub version: i64,
    pub created_at: String,
    pub last_updated_at: String,
}

pub struct RecordView {
    pub namespace: Seq<char>,
    pub key: Seq<char>,
    pub value: Seq<u8>,
    pub version: i64,
    pub created_at: Seq<char>,
    pub last_updated_at: Seq<char>,
}

impl View for VssDbRecord {
    type V = RecordView;

    open spec fn view(&self) -> RecordView {
        RecordView {
            namespace: self.namespace@,
            key: self.key@,
            value: self.value@,
            version: self.version,
            created_at: self.created_at@,
            last_updated_at: self.last_updated_at@,
        }
    }
}

/// The views of the elements, in order.
pub open spec fn record_views(s: Seq<VssDbRecord>) -> Seq<RecordView> {
    s.map_values(|record: VssDbRecord| record@)
}

/// The namespace of a user's store.
pub open spec fn namespace_of(user_token: Seq<char>, store_id: Seq<char>) -> Seq<char> {
    user_token + "#"@ + store_id
}

/// The record for a key with its value, made at a time.
pub open spec fn record_at(
    user_token: Seq<char>,
    store_id: Seq<char>,
    kv: KeyValueView,
    now: Seq<char>,
) -> RecordView {
    RecordView {
        namespace: namespace_of(user_token, store_id),
        key: kv.key,
        value: kv.value,
        version: kv.version,
        created_at: now,
        last_updated_at: now,
    }
}

/// The record for a key with its value, made at some time.
pub open spec fn is_record_of(
    record: RecordView,
    user_token: Seq<char>,
    store_id: Seq<char>,
    kv: KeyValueView,
) -> bool {
    &&& is_utc_timestamp(record.created_at)
    &&& record == record_at(user_token, store_id, kv, record.created_at)
}

/// Combines the user token and the store id.
pub fn create_namespace(user_token: &str, store_id: &str) -> (namespace: String)
    ensures
        namespace@ == namespace_of(user_token@, store_id@),
{
    let mut namespace = user_token.to_owned();
    namespace.append("#");
    namespace.append(store_id);
    namespace
}

/// The record for a key with its value, made at the given time.
pub fn build_vss_record_at(
    user_token: &str,
    store_id: &str,
    kv: KeyValue,
    now: String,
) -> (record: VssDbRecord)
    ensures
        record@ == record_at(user_token@, store_id@, kv@, now@),
{
    VssDbRecord {
        namespace: create_namespace(user_token, store_id),
        key: kv.key,
        value: octets_to_vec(&kv.value),
        version: kv.version,
        created_at: now.clone(),
        last_updated_at: now,
    }
}

/// The record for a key with its value, made now.
pub fn build_vss_record(user_token: &str, store_id: &str, kv: KeyValue) -> (record: VssDbRecord)
    ensures
        is_record_of(record@, user_token@, store_id@, kv@),
{
    build_vss_record_at(user_token, store_id, kv, utc_timestamp())
}

/// The attributes that tell an item from every other.
pub open spec fn key_item(namespace: Seq<char>, key: Seq<char>) -> ItemView {
    Map::<Seq<char>, AttributeView>::empty().insert(
        "namespace"@,
        AttributeView::S(namespace),
    ).insert("key"@, AttributeView::S(key))
}

/// The item that a record is first stored as. Its version is the initial one, whatever version
/// the record asks for.
pub open spec fn new_item(record: RecordView) -> ItemView {
    key_item(record.namespace, record.key).insert("value"@, AttributeView::B(record.value)).insert(
        "version"@,
        AttributeView::N(decimal(INITIAL_RECORD_VERSION as int)),
    ).insert("created_at"@, AttributeView::S(record.created_at)).insert(
        "last_updated_at"@,
        AttributeView::S(record.last_updated_at),
    )
}

/// The attributes that tell an item from every other.
pub fn build_key_item(namespace: &String, key: &String) -> (item: Item)
    ensures
        item@ == key_item(namespace@, key@),
{
    let mut item = Item::new();
    item.insert("namespace", AttributeValue::S(namespace.clone()));
    item.insert("key", AttributeValue::S(key.clone()));
    item
}

/// A copy of some bytes.
pub(crate) fn copy_bytes(contents: &Vec<u8>) -> (copy: Vec<u8>)
    ensures
        copy@ == contents@,
{
    let copy = contents.clone();
    assert(copy@ =~= contents@);
    copy
}

/// The item that a record is first stored as.
pub fn build_new_item(record: &VssDbRecord) -> (item: Item)
    ensures
        item@ == new_item(record@),
{
    let mut item = build_key_item(&record.namespace, &record.key);
    item.insert("value", AttributeValue::B(copy_bytes(&record.value)));
    item.insert("version", AttributeValue::N(decimal_text(INITIAL_RECORD_VERSION)));
    item.insert("created_at", AttributeValue::S(record.created_at.clone()));
    item.insert("last_updated_at", AttributeValue::S(record.last_updated_at.clone()));
    item
}

/// The text of an attribute, where the item has it and it is a text.
pub open spec fn text_attribute(item: ItemView, name: Seq<char>) -> Option<Seq<char>> {
    if item.contains_key(name) && item[name] is S {
        Some(item[name]->S_0)
    } else {
        None
    }
}

/// The value in an item: the bytes of its `value` attribute, none where it has no such bytes.
pub open spec fn item_value(item: ItemView) -> Seq<u8> {
    if item.contains_key("value"@) && item["value"@] is B {
        item["value"@]->B_0
    } else {
        Seq::empty()
    }
}

/// The version in an item: the number of its `version` attribute, zero where it has no such
/// number or the number is no 64-bit integer.
pub open spec fn item_version(item: ItemView) -> i64 {
    if item.contains_key("version"@) && item["version"@] is N {
        match numeral_i64(item["version"@]->N_0) {
            Some(version) => version,
            None => 0,
        }
    } else {
        0
    }
}

/// The key, value and version that an item holds; an error where it has no key.
pub open spec fn key_value_of(item: ItemView) -> Result<KeyValueView, VssErrorView> {
    match text_attribute(item, "key"@) {
        Some(key) => Ok(
            KeyValueView { key, value: item_value(item), version: item_version(item) },
        ),
        None => Err(VssErrorView::InvalidRequestError("Missing key in DynamoDB item"@)),
    }
}

/// The text of an attribute, where the item has it and it is a text.
pub fn get_text_attribute<'a>(item: &'a Item, name: &str) -> (text: Option<&'a String>)
    ensures
        match text {
            Some(t) => text_attribute(item@, name@) == Some(t@),
            None => text_attribute(item@, name@) is None,
        },
{
    match item.attribute(name) {
        Some(AttributeValue::S(text)) => Some(text),
        _ => None,
    }
}

/// Reads the key, the value and the version out of an item.
pub fn item_to_key_value(item: &Item) -> (result: Result<KeyValue, VssError>)
    ensures
        outcome(result) == key_value_of(item@),
{
    let key = match get_text_attribute(item, "key") {
        Some(key) => key.clone(),
        None => {
            return Err(VssError::InvalidRequestError("Missing key in DynamoDB item".to_owned()));
        },
    };
    let value = match item.attribute("value") {
        Some(AttributeValue::B(contents)) => octets_from_vec(copy_bytes(contents)),
        _ => empty_octets(),
    };
    let version: i64 = match item.attribute("version") {
        Some(AttributeValue::N(numeral)) => match parse_i64(numeral.as_str()) {
            Some(version) => version,
            None => 0,
        },
        _ => 0,
    };
    Ok(KeyValue { key, value, version })
}

// ---------------------------------------------------------------------------------------------
// Laws
// ---------------------------------------------------------------------------------------------

/// Whether a record holds an item of a user's store: each part of it, with one time for its
/// creation and its last update.
pub open spec fn holds_item(
    record: RecordView,
    user_token: Seq<char>,
    store_id: Seq<char>,
    kv: KeyValueView,
) -> bool {
    &&& record.namespace == user_token + seq!['#'] + store_id
    &&& record.key == kv.key
    &&& record.value == kv.value
    &&& record.version == kv.version
    &&& record.created_at == record.last_updated_at
    &&& is_utc_timestamp(record.created_at)
}

/// The namespace of a user's store holds both names whole, with a number sign between them.
pub proof fn law_namespace_holds_user_and_store(user_token: Seq<char>, store_id: Seq<char>)
    ensures
        namespace_of(user_token, store_id) == user_token + seq!['#'] + store_id,
{
    reveal_strlit("#");
    assert("#"@ =~= seq!['#']);
}

/// The record for an item holds the item, and nothing is a record for it that does not.
pub proof fn law_record_holds_its_item(
    record: RecordView,
    user_token: Seq<char>,
    store_id: Seq<char>,
    kv: KeyValueView,
    now: Seq<char>,
)
    ensures
        is_record_of(record, user_token, store_id, kv) <==> holds_item(
            record,
            user_token,
            store_id,
            kv,
        ),
        ({
            let made = record_at(user_token, store_id, kv, now);
            &&& made.namespace == user_token + seq!['#'] + store_id
            &&& made.key == kv.key
            &&& made.value == kv.value
            &&& made.version == kv.version
            &&& made.created_at == now
            &&& made.last_updated_at == now
        }),
{
    law_namespace_holds_user_and_store(user_token, store_id);
}

/// The attribute names of an item are told apart.
proof fn lemma_attribute_names()
    ensures
        "namespace"@.len() == 9,
        "key"@.len() == 3,
        "value"@.len() == 5,
        "version"@.len() == 7,
        "created_at"@.len() == 10,
        "last_updated_at"@.len() == 15,
{
    reveal_strlit("namespace");
    reveal_strlit("key");
    reveal_strlit("value");
    reveal_strlit("version");
    reveal_strlit("created_at");
    reveal_strlit("last_updated_at");
}

/// The key of an item is its namespace and its key, and nothing else.
pub proof fn law_key_item_is_namespace_and_key(namespace: Seq<char>, key: Seq<char>)
    ensures
        key_item(namespace, key).dom() == set!["namespace"@, "key"@],
        key_item(namespace, key)["namespace"@] == AttributeView::S(namespace),
        key_item(namespace, key)["key"@] == AttributeView::S(key),
{
    lemma_attribute_names();
    assert(key_item(namespace, key).dom() =~= set!["namespace"@, "key"@]);
}

/// A record is first stored with each of its parts under a name of its own, in the version one,
/// and with nothing else.
pub proof fn law_new_item_holds_record(record: RecordView)
    ensures
        new_item(record).dom() == set![
            "namespace"@,
            "key"@,
            "value"@,
            "version"@,
            "created_at"@,
            "last_updated_at"@,
        ],
        new_item(record)["namespace"@] == AttributeView::S(record.namespace),
        new_item(record)["key"@] == AttributeView::S(record.key),
        new_item(record)["value"@] == AttributeView::B(record.value),
        new_item(record)["version"@] == AttributeView::N(seq!['1']),
        new_item(record)["created_at"@] == AttributeView::S(record.created_at),
        new_item(record)["last_updated_at"@] == AttributeView::S(record.last_updated_at),
{
    lemma_attribute_names();
    assert(decimal(1) =~= seq!['1']);
    assert(new_item(record).dom() =~= set![
        "namespace"@,
        "key"@,
        "value"@,
        "version"@,
        "created_at"@,
        "last_updated_at"@,
    ]);
}

/// The text of an attribute is given exactly where the item has the attribute and it is a text.
pub proof fn law_text_attribute_is_that_of_the_item(item: ItemView, name: Seq<char>, text: Seq<char>)
    ensures
        text_attribute(item, name) == Some(text) <==> item.contains_key(name) && item[name]
            == AttributeView::S(text),
        text_attribute(item, name) is None <==> !item.contains_key(name) || !(item[name] is S),
{
}

/// An item is read by its attributes: the text of its key, without which it is refused; the bytes
/// of its value, or none; and the number of its version, or zero where it is none of 64 bits.
pub proof fn law_item_is_read_by_its_attributes(item: ItemView)
    ensures
        ({
            let result = key_value_of(item);
            let has_key = item.contains_key("key"@) && item["key"@] is S;
            let has_value = item.contains_key("value"@) && item["value"@] is B;
            let has_version = item.contains_key("version"@) && item["version"@] is N;
            let number = numeral_value(item["version"@]->N_0);
            &&& !has_key ==> result == Err::<KeyValueView, VssErrorView>(
                VssErrorView::InvalidRequestError("Missing key in DynamoDB item"@),
            )
            &&& has_key ==> {
                &&& result is Ok
                &&& result->Ok_0.key == item["key"@]->S_0
                &&& has_value ==> result->Ok_0.value == item["value"@]->B_0
                &&& !has_value ==> result->Ok_0.value == Seq::<u8>::empty()
                &&& result->Ok_0.value == item_value(item)
                &&& result->Ok_0.version == if has_version && number is Some
                    && -0x8000_0000_0000_0000 <= number->0 <= 0x7fff_ffff_ffff_ffff {
                    number->0
                } else {
                    0
                }
                &&& result->Ok_0.version == item_version(item)
            }
        }),
{
}

/// An item whose version was written for a 64-bit integer is read with that version.
pub proof fn law_item_is_read_with_the_version_written(item: ItemView, version: i64)
    requires
        item.contains_key("version"@),
        item["version"@] == AttributeView::N(decimal(version as int)),
    ensures
        item_version(item) == version,
{
    law_numeral_reads_back(version);
}


/// A record is seen with all that it holds, and so is each of a row of them.
pub proof fn law_record_is_seen_whole(record: VssDbRecord, row: Seq<VssDbRecord>)
    ensures
        record@.namespace == record.namespace@,
        record@.key == record.key@,
        record@.value == record.value@,
        record@.version == record.version,
        record@.created_at == record.created_at@,
        record@.last_updated_at == record.last_updated_at@,
        record_views(row).len() == row.len(),
        forall|i: int| 0 <= i < row.len() ==> #[trigger] record_views(row)[i] == row[i]@,
{
}

} // verus!
