//! What each request of the store says and does, and what each answer comes to.
//!
//! The laws here hold of any table and of any record, whatever else is stored.

use crate::dynamodb_store::{
    conditional_delete, conditional_delete_outcome, conditional_insert, conditional_insert_outcome,
    conditional_update, conditional_update_outcome, delete_object_outcome, delete_object_query,
    get_outcome, get_query, non_conditional_delete, non_conditional_delete_outcome,
    non_conditional_upsert, non_conditional_upsert_outcome, put_object_outcome, put_object_query,
    service_error,
};
use crate::items::{AttributeView, ItemView};
use crate::put::{delete_begins, delete_outcome, is_begun, put_begins, PutRunView};
use crate::records::{
    holds_item, key_value_of, law_key_item_is_namespace_and_key, law_namespace_holds_user_and_store,
    law_record_holds_its_item, new_item, RecordView,
};
use crate::requests::{GetReplyView, WriteReplyView, WriteView};
use crate::table::{answer_in, item_at, named_table, perform, place_of, TableView, Tables};
use crate::text::{decimal, law_decimal_is_plain, numeral_value};
use crate::types::{
    DeleteObjectRequestView, DeleteObjectResponse, GetObjectRequestView, GetObjectResponseView,
    KeyValueView, PutObjectRequestView, VssErrorView,
};
use vstd::prelude::*;

verus! {

/// The names, the placeholders and the expressions are told apart.
proof fn lemma_texts()
    ensures
        "namespace"@.len() == 9,
        "key"@.len() == 3,
        "value"@.len() == 5,
        "version"@.len() == 7,
        "last_updated_at"@.len() == 15,
        "#value"@.len() == 6,
        "#version"@.len() == 8,
        "#last_updated_at"@.len() == 16,
        ":value"@.len() == 6,
        ":new_version"@.len() == 12,
        ":expected_version"@.len() == 17,
        ":last_updated_at"@.len() == 16,
        "attribute_not_exists(#version)"@.len() == 30,
        "#version = :expected_version"@.len() == 28,
{
    reveal_strlit("namespace");
    reveal_strlit("key");
    reveal_strlit("value");
    reveal_strlit("version");
    reveal_strlit("last_updated_at");
    reveal_strlit("#value");
    reveal_strlit("#version");
    reveal_strlit("#last_updated_at");
    reveal_strlit(":value");
    reveal_strlit(":new_version");
    reveal_strlit(":expected_version");
    reveal_strlit(":last_updated_at");
    reveal_strlit("attribute_not_exists(#version)");
    reveal_strlit("#version = :expected_version");
}

// ---------------------------------------------------------------------------------------------
// What the requests say
// ---------------------------------------------------------------------------------------------

/// Every request of a backend names the table of the backend.
pub proof fn law_requests_name_the_table_of_the_backend(
    table_name: Seq<char>,
    record: RecordView,
    user_token: Seq<char>,
    request: GetObjectRequestView,
)
    ensures
        conditional_insert(table_name, record).table_name == table_name,
        conditional_update(table_name, record).table_name == table_name,
        non_conditional_upsert(table_name, record).table_name == table_name,
        conditional_delete(table_name, record).table_name == table_name,
        non_conditional_delete(table_name, record).table_name == table_name,
        named_table(put_object_query(table_name, record)) == table_name,
        delete_object_query(table_name, record).table_name == table_name,
        get_query(table_name, user_token, request).table_name == table_name,
{
}

/// What is read through a backend comes from the table of the backend, whatever the other tables
/// hold.
pub proof fn law_read_depends_on_the_table_of_the_backend_only(
    tables: Tables,
    others: Tables,
    table_name: Seq<char>,
    user_token: Seq<char>,
    store_id: Seq<char>,
    key: Seq<char>,
    text: Seq<char>,
)
    requires
        tables.contains_key(table_name),
        others.contains_key(table_name),
        item_at(tables[table_name], (user_token + seq!['#'] + store_id, key)) == item_at(
            others[table_name],
            (user_token + seq!['#'] + store_id, key),
        ),
    ensures
        answer_in(tables, table_name, user_token, store_id, key, text) == answer_in(
            others,
            table_name,
            user_token,
            store_id,
            key,
            text,
        ),
{
    law_namespace_holds_user_and_store(user_token, store_id);
    law_key_item_is_namespace_and_key(user_token + seq!['#'] + store_id, key);
}

/// A read asks for the key in the namespace of the user's store, and says nothing else.
pub proof fn law_read_asks_for_the_key(
    table_name: Seq<char>,
    user_token: Seq<char>,
    request: GetObjectRequestView,
)
    ensures
        ({
            let query = get_query(table_name, user_token, request);
            &&& query.key.dom() == set!["namespace"@, "key"@]
            &&& query.key["namespace"@] == AttributeView::S(
                user_token + seq!['#'] + request.store_id,
            )
            &&& query.key["key"@] == AttributeView::S(request.key)
        }),
{
    law_namespace_holds_user_and_store(user_token, request.store_id);
    law_key_item_is_namespace_and_key(user_token + seq!['#'] + request.store_id, request.key);
}

/// A request binds the placeholders of its expressions and no others.
pub proof fn law_requests_bind_their_placeholders(table_name: Seq<char>, record: RecordView)
    ensures
        conditional_insert(table_name, record).expression_attribute_names.dom() == set![
            "#version"@,
        ],
        conditional_update(table_name, record).expression_attribute_names.dom() == set![
            "#value"@,
            "#version"@,
            "#last_updated_at"@,
        ],
        conditional_update(table_name, record).expression_attribute_values.dom() == set![
            ":value"@,
            ":new_version"@,
            ":expected_version"@,
            ":last_updated_at"@,
        ],
        non_conditional_upsert(table_name, record).expression_attribute_names.dom()
            == Set::<Seq<char>>::empty(),
        conditional_delete(table_name, record).expression_attribute_names.dom() == set![
            "#version"@,
        ],
        conditional_delete(table_name, record).expression_attribute_values.dom() == set![
            ":expected_version"@,
        ],
        non_conditional_delete(table_name, record).expression_attribute_names.dom()
            == Set::<Seq<char>>::empty(),
        non_conditional_delete(table_name, record).expression_attribute_values.dom()
            == Set::<Seq<char>>::empty(),
        conditional_delete(table_name, record).return_values == "ALL_OLD"@,
        non_conditional_delete(table_name, record).return_values == "ALL_OLD"@,
{
    assert(conditional_insert(table_name, record).expression_attribute_names.dom() =~= set![
        "#version"@,
    ]);
    assert(conditional_update(table_name, record).expression_attribute_names.dom() =~= set![
        "#value"@,
        "#version"@,
        "#last_updated_at"@,
    ]);
    assert(conditional_update(table_name, record).expression_attribute_values.dom() =~= set![
        ":value"@,
        ":new_version"@,
        ":expected_version"@,
        ":last_updated_at"@,
    ]);
    assert(non_conditional_upsert(table_name, record).expression_attribute_names.dom() =~= Set::<
        Seq<char>,
    >::empty());
    assert(conditional_delete(table_name, record).expression_attribute_names.dom() =~= set![
        "#version"@,
    ]);
    assert(conditional_delete(table_name, record).expression_attribute_values.dom() =~= set![
        ":expected_version"@,
    ]);
    assert(non_conditional_delete(table_name, record).expression_attribute_names.dom() =~= Set::<
        Seq<char>,
    >::empty());
    assert(non_conditional_delete(table_name, record).expression_attribute_values.dom() =~= Set::<
        Seq<char>,
    >::empty());
}

/// A request that changes one record is about the namespace and the key of that record, by its
/// key attributes and no others.
pub proof fn law_requests_are_about_their_record(table_name: Seq<char>, record: RecordView)
    ensures
        ({
            let key = set!["namespace"@, "key"@];
            let update = conditional_update(table_name, record).key;
            let delete = conditional_delete(table_name, record).key;
            let erase = non_conditional_delete(table_name, record).key;
            &&& update.dom() == key && delete.dom() == key && erase.dom() == key
            &&& place_of(update) == (record.namespace, record.key)
            &&& place_of(delete) == (record.namespace, record.key)
            &&& place_of(erase) == (record.namespace, record.key)
            &&& place_of(conditional_insert(table_name, record).item) == (
                record.namespace,
                record.key,
            )
            &&& place_of(non_conditional_upsert(table_name, record).item) == (
                record.namespace,
                record.key,
            )
        }),
{
    lemma_texts();
    law_key_item_is_namespace_and_key(record.namespace, record.key);
    crate::records::law_new_item_holds_record(record);
}

/// The version of a record says which request writes it and which removes it: minus one asks for
/// anything to be stored, and zero, to write, for no version.
pub proof fn law_version_chooses_the_request(table_name: Seq<char>, record: RecordView)
    ensures
        put_object_query(table_name, record) == if record.version == -1 {
            WriteView::Put(non_conditional_upsert(table_name, record))
        } else if record.version == 0 {
            WriteView::Put(conditional_insert(table_name, record))
        } else {
            WriteView::Update(conditional_update(table_name, record))
        },
        delete_object_query(table_name, record) == if record.version == -1 {
            non_conditional_delete(table_name, record)
        } else {
            conditional_delete(table_name, record)
        },
{
}

// ---------------------------------------------------------------------------------------------
// What the requests do
// ---------------------------------------------------------------------------------------------

/// Whether what is stored under the key of a record has the version of the record.
pub open spec fn has_version_of(table: TableView, record: RecordView) -> bool {
    &&& table.contains_key((record.namespace, record.key))
    &&& table[(record.namespace, record.key)].contains_key("version"@)
    &&& table[(record.namespace, record.key)]["version"@] matches AttributeView::N(numeral)
        && numeral_value(numeral) == Some(record.version as int)
}

/// A put without a condition stores the record whatever is there, and succeeds.
pub proof fn law_upsert_stores_the_record(
    table_name: Seq<char>,
    table: TableView,
    record: RecordView,
    text: Seq<char>,
)
    ensures
        ({
            let request = WriteView::Put(non_conditional_upsert(table_name, record));
            let (after, reply) = perform(table, request, text);
            &&& after == table.insert((record.namespace, record.key), new_item(record))
            &&& non_conditional_upsert_outcome(reply) == Ok::<(), VssErrorView>(())
        }),
{
    law_requests_are_about_their_record(table_name, record);
}

/// An update sets the value, the next version and the time of the last update of what is stored,
/// and nothing else, where what is stored has the version of the record. Else it is a conflict,
/// and nothing is changed.
pub proof fn law_update_changes_what_has_the_version(
    table_name: Seq<char>,
    table: TableView,
    record: RecordView,
    text: Seq<char>,
)
    ensures
        ({
            let place = (record.namespace, record.key);
            let request = WriteView::Update(conditional_update(table_name, record));
            let (after, reply) = perform(table, request, text);
            let result = conditional_update_outcome(reply);
            &&& has_version_of(table, record) ==> {
                &&& result == Ok::<(), VssErrorView>(())
                &&& after == table.insert(
                    place,
                    table[place].insert("value"@, AttributeView::B(record.value)).insert(
                        "version"@,
                        AttributeView::N(decimal(record.version + 1)),
                    ).insert("last_updated_at"@, AttributeView::S(record.last_updated_at)),
                )
            }
            &&& !has_version_of(table, record) ==> {
                &&& result == Err::<(), VssErrorView>(
                    VssErrorView::ConflictError("Version mismatch"@),
                )
                &&& after == table
            }
        }),
{
    lemma_texts();
    law_requests_are_about_their_record(table_name, record);
    law_decimal_is_plain(record.version);
    assert("attribute_not_exists(#version)"@.len() != "#version = :expected_version"@.len());
    let request = conditional_update(table_name, record);
    let place = (record.namespace, record.key);
    assert(crate::table::updated(request, table[place]) =~= table[place].insert(
        "value"@,
        AttributeView::B(record.value),
    ).insert("version"@, AttributeView::N(decimal(record.version + 1))).insert(
        "last_updated_at"@,
        AttributeView::S(record.last_updated_at),
    ));
}

/// A removal on condition removes what is stored where it has the version of the record, and says
/// so. Else it says that nothing was removed, and nothing is.
pub proof fn law_delete_removes_what_has_the_version(
    table_name: Seq<char>,
    table: TableView,
    record: RecordView,
    text: Seq<char>,
)
    ensures
        ({
            let request = WriteView::Delete(conditional_delete(table_name, record));
            let (after, reply) = perform(table, request, text);
            let result = conditional_delete_outcome(reply);
            &&& has_version_of(table, record) ==> {
                &&& result == Ok::<bool, VssErrorView>(true)
                &&& after == table.remove((record.namespace, record.key))
            }
            &&& !has_version_of(table, record) ==> {
                &&& result == Ok::<bool, VssErrorView>(false)
                &&& after == table
            }
        }),
{
    lemma_texts();
    law_requests_are_about_their_record(table_name, record);
    law_decimal_is_plain(record.version);
    assert("attribute_not_exists(#version)"@.len() != "#version = :expected_version"@.len());
}

/// A removal without a condition removes whatever is stored, and says whether there was anything.
pub proof fn law_erase_removes_whatever_is_stored(
    table_name: Seq<char>,
    table: TableView,
    record: RecordView,
    text: Seq<char>,
)
    ensures
        ({
            let place = (record.namespace, record.key);
            let request = WriteView::Delete(non_conditional_delete(table_name, record));
            let (after, reply) = perform(table, request, text);
            &&& after == table.remove(place)
            &&& non_conditional_delete_outcome(reply) == Ok::<bool, VssErrorView>(
                table.contains_key(place),
            )
        }),
{
    law_requests_are_about_their_record(table_name, record);
}

// ---------------------------------------------------------------------------------------------
// What the answers come to
// ---------------------------------------------------------------------------------------------

/// An error of the service is passed on with its text, whatever was asked for.
pub proof fn law_failure_of_the_service_is_passed_on(
    record: RecordView,
    key: Seq<char>,
    text: Seq<char>,
)
    ensures
        ({
            let error = VssErrorView::InvalidRequestError("DynamoDB error: "@ + text);
            let failed = WriteReplyView::Failed(text);
            &&& service_error(text) == error
            &&& conditional_insert_outcome(failed) == Err::<(), VssErrorView>(error)
            &&& conditional_update_outcome(failed) == Err::<(), VssErrorView>(error)
            &&& non_conditional_upsert_outcome(failed) == Err::<(), VssErrorView>(error)
            &&& put_object_outcome(record, failed) == Err::<(), VssErrorView>(error)
            &&& conditional_delete_outcome(failed) == Err::<bool, VssErrorView>(error)
            &&& non_conditional_delete_outcome(failed) == Err::<bool, VssErrorView>(error)
            &&& delete_object_outcome(record, failed) == Err::<bool, VssErrorView>(error)
            &&& delete_outcome(record, failed) == Err::<DeleteObjectResponse, VssErrorView>(error)
            &&& get_outcome(key, GetReplyView::Failed(text)) == Err::<
                GetObjectResponseView,
                VssErrorView,
            >(error)
        }),
{
}

/// A condition that does not hold is a conflict for a write that has one, and no removal for a
/// removal that has one. For a request without a condition it is an error of the service.
pub proof fn law_condition_that_fails_is_a_conflict(record: RecordView, text: Seq<char>)
    ensures
        ({
            let refused = WriteReplyView::ConditionFailed(text);
            let exists = VssErrorView::ConflictError("Item already exists"@);
            let mismatch = VssErrorView::ConflictError("Version mismatch"@);
            let error = VssErrorView::InvalidRequestError("DynamoDB error: "@ + text);
            &&& conditional_insert_outcome(refused) == Err::<(), VssErrorView>(exists)
            &&& conditional_update_outcome(refused) == Err::<(), VssErrorView>(mismatch)
            &&& non_conditional_upsert_outcome(refused) == Err::<(), VssErrorView>(error)
            &&& put_object_outcome(record, refused) == Err::<(), VssErrorView>(
                if record.version == -1 {
                    error
                } else if record.version == 0 {
                    exists
                } else {
                    mismatch
                },
            )
            &&& conditional_delete_outcome(refused) == Ok::<bool, VssErrorView>(false)
            &&& non_conditional_delete_outcome(refused) == Err::<bool, VssErrorView>(error)
            &&& delete_object_outcome(record, refused) == if record.version == -1 {
                Err::<bool, VssErrorView>(error)
            } else {
                Ok::<bool, VssErrorView>(false)
            }
            &&& delete_outcome(record, refused) == if record.version == -1 {
                Err::<DeleteObjectResponse, VssErrorView>(error)
            } else {
                Ok::<DeleteObjectResponse, VssErrorView>(DeleteObjectResponse {  })
            }
        }),
{
}

/// What the service has done is a success, and a removal says whether there was anything.
pub proof fn law_what_is_done_is_a_success(record: RecordView, old_attributes: bool)
    ensures
        ({
            let done = WriteReplyView::Done { old_attributes };
            &&& conditional_insert_outcome(done) == Ok::<(), VssErrorView>(())
            &&& conditional_update_outcome(done) == Ok::<(), VssErrorView>(())
            &&& non_conditional_upsert_outcome(done) == Ok::<(), VssErrorView>(())
            &&& put_object_outcome(record, done) == Ok::<(), VssErrorView>(())
            &&& conditional_delete_outcome(done) == Ok::<bool, VssErrorView>(old_attributes)
            &&& non_conditional_delete_outcome(done) == Ok::<bool, VssErrorView>(old_attributes)
            &&& delete_object_outcome(record, done) == Ok::<bool, VssErrorView>(old_attributes)
            &&& delete_outcome(record, done) == Ok::<DeleteObjectResponse, VssErrorView>(
                DeleteObjectResponse {  },
            )
        }),
{
}

/// A client that asks for a key is answered with what was found, read as an item; where nothing
/// was, that there is no such key, but for the global version, which is then zero.
pub proof fn law_read_answers_what_was_found(key: Seq<char>, item: ItemView)
    ensures
        get_outcome(key, GetReplyView::Found(item)) == match key_value_of(item) {
            Ok(kv) => Ok::<GetObjectResponseView, VssErrorView>(
                GetObjectResponseView { value: Some(kv) },
            ),
            Err(error) => Err::<GetObjectResponseView, VssErrorView>(error),
        },
        get_outcome(key, GetReplyView::Missing) == if key == "global_version"@ {
            Ok::<GetObjectResponseView, VssErrorView>(
                GetObjectResponseView {
                    value: Some(
                        KeyValueView {
                            key: "global_version"@,
                            value: Seq::<u8>::empty(),
                            version: 0,
                        },
                    ),
                },
            )
        } else {
            Err::<GetObjectResponseView, VssErrorView>(
                VssErrorView::NoSuchKeyError("Requested key not found."@),
            )
        },
{
}

// ---------------------------------------------------------------------------------------------
// How requests begin
// ---------------------------------------------------------------------------------------------

/// A delete request begins with a record that holds the item it names, and is refused where it
/// names none.
pub proof fn law_delete_begins_with_the_item_named(
    result: Result<RecordView, VssErrorView>,
    user_token: Seq<char>,
    request: DeleteObjectRequestView,
)
    requires
        delete_begins(result, user_token, request),
    ensures
        match request.key_value {
            Some(kv) => result matches Ok(record) && holds_item(
                record,
                user_token,
                request.store_id,
                kv,
            ),
            None => result == Err::<RecordView, VssErrorView>(
                VssErrorView::InvalidRequestError("key_value missing in DeleteObjectRequest"@),
            ),
        },
{
    if request.key_value is Some {
        law_record_holds_its_item(
            result->Ok_0,
            user_token,
            request.store_id,
            request.key_value->0,
            Seq::empty(),
        );
    }
}

/// A put request begins unless it has more than a thousand items, to write and to remove together;
/// the global version is not counted.
pub proof fn law_put_begins_up_to_a_thousand_items(
    result: Result<PutRunView, VssErrorView>,
    table_name: Seq<char>,
    user_token: Seq<char>,
    request: PutObjectRequestView,
)
    requires
        put_begins(result, table_name, user_token, request),
    ensures
        ({
            let number = request.transaction_items.len() + request.delete_items.len();
            &&& result is Err <==> number > 1000
            &&& result matches Err(error) ==> error == VssErrorView::InvalidRequestError(
                "Number of write items per request should be less than equal to 1000"@,
            )
            &&& result matches Ok(run) ==> is_begun(run, table_name, user_token, request)
        }),
{
    reveal_strlit("Number of write items per request should be less than equal to ");
    reveal_strlit("Number of write items per request should be less than equal to 1000");
    reveal_with_fuel(crate::text::digits, 4);
    assert(decimal(1000) =~= seq!['1', '0', '0', '0']);
    assert("Number of write items per request should be less than equal to "@ + decimal(1000)
        =~= "Number of write items per request should be less than equal to 1000"@);
}

} // verus!
