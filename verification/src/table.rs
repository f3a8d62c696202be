//! What the requests of the store do to a table, and the laws that follow for the store.
//!
//! A table is a map from namespace and key to an item. [`perform`] and [`read`] say what a request
//! asks of the table service, for the expressions that the store writes. Nothing here runs: the
//! laws say what a client sees where the service does what it is asked.

use crate::dynamodb_store::{
    conditional_delete, conditional_insert, conditional_insert_outcome, conditional_update,
    default_global_version, delete_object_outcome, delete_object_query, get_outcome, get_query,
    item_exists, next_version_fits, no_such_key, put_object_outcome, put_object_query,
    version_mismatch,
};
use crate::items::{AttributeView, ItemView};
use crate::records::{
    item_value, item_version, key_item, namespace_of, new_item, record_at, text_attribute,
    RecordView,
};
use crate::requests::{GetItemView, GetReplyView, UpdateItemView, WriteReplyView, WriteView};
use crate::text::{decimal, law_numeral_reads_back, numeral_i64, numeral_value};
use crate::types::{
    GetObjectRequestView, GetObjectResponseView, KeyValueView, VssErrorView, ABSENT_VERSION,
    GLOBAL_VERSION_KEY, INITIAL_RECORD_VERSION, UNCONDITIONAL_VERSION,
};
use vstd::prelude::*;

verus! {

// ---------------------------------------------------------------------------------------------
// Tables
// ---------------------------------------------------------------------------------------------

/// The place of an item: its namespace and its key.
pub type Place = (Seq<char>, Seq<char>);

pub type TableView = Map<Place, ItemView>;

/// The place that the key attributes of an item give it.
pub open spec fn place_of(item: ItemView) -> Place {
    (item["namespace"@]->S_0, item["key"@]->S_0)
}

/// The place of a record.
pub open spec fn record_place(record: RecordView) -> Place {
    (record.namespace, record.key)
}

/// The item at a place, where there is one.
pub open spec fn item_at(table: TableView, place: Place) -> Option<ItemView> {
    if table.contains_key(place) {
        Some(table[place])
    } else {
        None
    }
}

/// Whether two values are equal to the service, which compares numbers by what they denote.
pub open spec fn same_value(a: AttributeView, b: AttributeView) -> bool {
    match (a, b) {
        (AttributeView::N(x), AttributeView::N(y)) => numeral_value(x) is Some && numeral_value(x)
            == numeral_value(y),
        _ => a == b,
    }
}

/// Whether a condition holds of an item, or of there being none.
pub open spec fn condition_holds(
    expression: Option<Seq<char>>,
    names: Map<Seq<char>, Seq<char>>,
    values: ItemView,
    item: Option<ItemView>,
) -> bool {
    match expression {
        None => true,
        Some(text) => if text == "attribute_not_exists(#version)"@ {
            item matches Some(attributes) ==> !attributes.contains_key(names["#version"@])
        } else if text == "#version = :expected_version"@ {
            item matches Some(attributes) && attributes.contains_key(names["#version"@])
                && same_value(attributes[names["#version"@]], values[":expected_version"@])
        } else {
            false
        },
    }
}

/// An item after an update.
pub open spec fn updated(request: UpdateItemView, item: ItemView) -> ItemView {
    let names = request.expression_attribute_names;
    let values = request.expression_attribute_values;
    if request.update_expression
        == "SET #value = :value, #version = :new_version, #last_updated_at = :last_updated_at"@ {
        item.insert(names["#value"@], values[":value"@]).insert(
            names["#version"@],
            values[":new_version"@],
        ).insert(names["#last_updated_at"@], values[":last_updated_at"@])
    } else {
        item
    }
}

/// What a request that changes the table does to it, and the answer. The text is the service's
/// description of a condition that does not hold.
pub open spec fn perform(table: TableView, request: WriteView, text: Seq<char>) -> (
    TableView,
    WriteReplyView,
) {
    match request {
        WriteView::Put(put) => {
            let place = place_of(put.item);
            if condition_holds(
                put.condition_expression,
                put.expression_attribute_names,
                Map::empty(),
                item_at(table, place),
            ) {
                (table.insert(place, put.item), WriteReplyView::Done { old_attributes: false })
            } else {
                (table, WriteReplyView::ConditionFailed(text))
            }
        },
        WriteView::Update(update) => {
            let place = place_of(update.key);
            let item = item_at(table, place);
            if condition_holds(
                Some(update.condition_expression),
                update.expression_attribute_names,
                update.expression_attribute_values,
                item,
            ) {
                let before = match item {
                    Some(attributes) => attributes,
                    None => update.key,
                };
                (
                    table.insert(place, updated(update, before)),
                    WriteReplyView::Done { old_attributes: false },
                )
            } else {
                (table, WriteReplyView::ConditionFailed(text))
            }
        },
        WriteView::Delete(delete) => {
            let place = place_of(delete.key);
            if condition_holds(
                delete.condition_expression,
                delete.expression_attribute_names,
                delete.expression_attribute_values,
                item_at(table, place),
            ) {
                (
                    table.remove(place),
                    WriteReplyView::Done {
                        old_attributes: delete.return_values == "ALL_OLD"@ && table.contains_key(
                            place,
                        ),
                    },
                )
            } else {
                (table, WriteReplyView::ConditionFailed(text))
            }
        },
    }
}

/// The answer to a request for an item.
pub open spec fn read(table: TableView, request: GetItemView) -> GetReplyView {
    match item_at(table, place_of(request.key)) {
        Some(item) => GetReplyView::Found(item),
        None => GetReplyView::Missing,
    }
}

/// Tables by name.
pub type Tables = Map<Seq<char>, TableView>;

/// The table that a request names.
pub open spec fn named_table(request: WriteView) -> Seq<char> {
    match request {
        WriteView::Put(put) => put.table_name,
        WriteView::Update(update) => update.table_name,
        WriteView::Delete(delete) => delete.table_name,
    }
}

/// What a request that changes the table that it names does, and the answer. Where there is no
/// such table, nothing is changed and the request fails.
pub open spec fn perform_in(tables: Tables, request: WriteView, text: Seq<char>) -> (
    Tables,
    WriteReplyView,
) {
    let name = named_table(request);
    if tables.contains_key(name) {
        let (after, reply) = perform(tables[name], request, text);
        (tables.insert(name, after), reply)
    } else {
        (tables, WriteReplyView::Failed(text))
    }
}

/// The answer to a request for an item of the table that it names.
pub open spec fn read_in(tables: Tables, request: GetItemView, text: Seq<char>) -> GetReplyView {
    if tables.contains_key(request.table_name) {
        read(tables[request.table_name], request)
    } else {
        GetReplyView::Failed(text)
    }
}

/// The answer to a client that asks a backend for a key, by the name of the backend's table.
pub open spec fn answer_in(
    tables: Tables,
    table_name: Seq<char>,
    user_token: Seq<char>,
    store_id: Seq<char>,
    key: Seq<char>,
    text: Seq<char>,
) -> Result<GetObjectResponseView, VssErrorView> {
    let request = GetObjectRequestView { store_id, key };
    get_outcome(key, read_in(tables, get_query(table_name, user_token, request), text))
}

/// The answer to a client that asks for a key.
pub open spec fn answer(
    table_name: Seq<char>,
    table: TableView,
    user_token: Seq<char>,
    store_id: Seq<char>,
    key: Seq<char>,
) -> Result<GetObjectResponseView, VssErrorView> {
    get_outcome(
        key,
        read(table, get_query(table_name, user_token, GetObjectRequestView { store_id, key })),
    )
}

/// An item as the store keeps it at a place.
pub open spec fn is_record_item(item: ItemView, place: Place) -> bool {
    &&& text_attribute(item, "namespace"@) == Some(place.0)
    &&& text_attribute(item, "key"@) == Some(place.1)
    &&& item.contains_key("value"@)
    &&& item["value"@] is B
    &&& item.contains_key("version"@)
    &&& item["version"@] is N
    &&& numeral_i64(item["version"@]->N_0) is Some
}

/// A table that holds nothing but records of the store.
pub open spec fn is_record_table(table: TableView) -> bool {
    forall|place: Place| #[trigger]
        table.contains_key(place) ==> is_record_item(table[place], place)
}

// ---------------------------------------------------------------------------------------------
// What goes through
// ---------------------------------------------------------------------------------------------

/// Whether what is stored is what the version of a record asks for: anything for -1, nothing for
/// 0, else that version.
pub open spec fn admits_write(table: TableView, record: RecordView) -> bool {
    let place = record_place(record);
    if record.version == UNCONDITIONAL_VERSION {
        true
    } else if record.version == ABSENT_VERSION {
        !table.contains_key(place)
    } else {
        table.contains_key(place) && item_version(table[place]) == record.version
    }
}

/// Whether what is stored is what the version of a record to remove asks for: anything for -1,
/// else that version.
pub open spec fn admits_removal(table: TableView, record: RecordView) -> bool {
    let place = record_place(record);
    record.version == UNCONDITIONAL_VERSION || (table.contains_key(place) && item_version(
        table[place],
    ) == record.version)
}

/// The error where what is stored is not what the version of a record asks for.
pub open spec fn write_conflict(record: RecordView) -> VssErrorView {
    if record.version == ABSENT_VERSION {
        item_exists()
    } else {
        version_mismatch()
    }
}

/// The version that a record has after it has been written.
pub open spec fn version_after(version: i64) -> int {
    if version == UNCONDITIONAL_VERSION {
        INITIAL_RECORD_VERSION as int
    } else {
        version + 1
    }
}

/// The item of a record after it has been written.
pub open spec fn item_after(table: TableView, record: RecordView) -> ItemView {
    if record.version == UNCONDITIONAL_VERSION || record.version == ABSENT_VERSION {
        new_item(record)
    } else {
        table[record_place(record)].insert("value"@, AttributeView::B(record.value)).insert(
            "version"@,
            AttributeView::N(decimal(record.version + 1)),
        ).insert("last_updated_at"@, AttributeView::S(record.last_updated_at))
    }
}

/// The names of the attributes, the placeholders and the expressions are told apart.
proof fn lemma_literals()
    ensures
        "namespace"@.len() == 9,
        "key"@.len() == 3,
        "value"@.len() == 5,
        "version"@.len() == 7,
        "created_at"@.len() == 10,
        "last_updated_at"@.len() == 15,
        "#value"@.len() == 6,
        "#version"@.len() == 8,
        "#last_updated_at"@.len() == 16,
        ":value"@.len() == 6,
        ":new_version"@.len() == 12,
        ":expected_version"@.len() == 17,
        ":last_updated_at"@.len() == 16,
        "attribute_not_exists(#version)"@.len() == 30,
        "#version = :expected_version"@.len() == 28,
{
    reveal_strlit("namespace");
    reveal_strlit("key");
    reveal_strlit("value");
    reveal_strlit("version");
    reveal_strlit("created_at");
    reveal_strlit("last_updated_at");
    reveal_strlit("#value");
    reveal_strlit("#version");
    reveal_strlit("#last_updated_at");
    reveal_strlit(":value");
    reveal_strlit(":new_version");
    reveal_strlit(":expected_version");
    reveal_strlit(":last_updated_at");
    reveal_strlit("attribute_not_exists(#version)");
    reveal_strlit("#version = :expected_version");
}

/// The condition on the version holds of a record item exactly where its version is that one.
proof fn lemma_version_condition(
    item: ItemView,
    place: Place,
    version: i64,
    names: Map<Seq<char>, Seq<char>>,
    values: ItemView,
)
    requires
        is_record_item(item, place),
        names["#version"@] == "version"@,
        values[":expected_version"@] == AttributeView::N(decimal(version as int)),
    ensures
        condition_holds(Some("#version = :expected_version"@), names, values, Some(item))
            == (item_version(item) == version),
        !condition_holds(Some("#version = :expected_version"@), names, values, None),
{
    lemma_literals();
    law_numeral_reads_back(version);
    assert("attribute_not_exists(#version)"@.len() != "#version = :expected_version"@.len());
}

/// A write goes through exactly where what is stored is what its version asks for. Where it does
/// not, the client is told of the conflict and the table stays as it is.
pub proof fn law_write_goes_through_where_version_matches(
    table_name: Seq<char>,
    table: TableView,
    record: RecordView,
    text: Seq<char>,
)
    requires
        is_record_table(table),
        next_version_fits(record),
    ensures
        ({
            let (after, reply) = perform(table, put_object_query(table_name, record), text);
            let result = put_object_outcome(record, reply);
            &&& admits_write(table, record) ==> result == Ok::<(), VssErrorView>(()) && after
                == table.insert(record_place(record), item_after(table, record))
            &&& !admits_write(table, record) ==> result == Err::<(), VssErrorView>(
                write_conflict(record),
            ) && after == table
        }),
{
    lemma_literals();
    let place = record_place(record);
    assert("attribute_not_exists(#version)"@.len() != "#version = :expected_version"@.len());
    assert(place_of(new_item(record)) == place);
    assert(place_of(key_item(record.namespace, record.key)) == place);
    if record.version != UNCONDITIONAL_VERSION && record.version != ABSENT_VERSION {
        let request = conditional_update(table_name, record);
        let names = request.expression_attribute_names;
        let values = request.expression_attribute_values;
        if table.contains_key(place) {
            lemma_version_condition(table[place], place, record.version, names, values);
            assert(updated(request, table[place]) =~= item_after(table, record));
        }
    }
}

/// What a client reads is what is stored: the key, the value and the version of the record at the
/// place it asks for. Where there is none it is told so, but for the global version, which then
/// is zero.
pub proof fn law_read_gives_what_is_stored(
    table_name: Seq<char>,
    table: TableView,
    user_token: Seq<char>,
    request: GetObjectRequestView,
)
    requires
        ({
            let place = (namespace_of(user_token, request.store_id), request.key);
            table.contains_key(place) ==> is_record_item(table[place], place)
        }),
    ensures
        ({
            let place = (namespace_of(user_token, request.store_id), request.key);
            let result = get_outcome(
                request.key,
                read(table, get_query(table_name, user_token, request)),
            );
            if table.contains_key(place) {
                result == Ok::<GetObjectResponseView, VssErrorView>(
                    GetObjectResponseView {
                        value: Some(
                            KeyValueView {
                                key: request.key,
                                value: item_value(table[place]),
                                version: item_version(table[place]),
                            },
                        ),
                    },
                )
            } else if request.key == GLOBAL_VERSION_KEY@ {
                result == Ok::<GetObjectResponseView, VssErrorView>(
                    GetObjectResponseView { value: Some(default_global_version()) },
                )
            } else {
                result == Err::<GetObjectResponseView, VssErrorView>(no_such_key())
            }
        }),
{
    lemma_literals();
}

/// The item of a record that has been written is one of the store, and holds the value of the
/// record and the version that follows its own.
pub(crate) proof fn lemma_item_after(table: TableView, record: RecordView)
    requires
        is_record_table(table),
        next_version_fits(record),
        admits_write(table, record),
    ensures
        is_record_item(item_after(table, record), record_place(record)),
        item_value(item_after(table, record)) == record.value,
        item_version(item_after(table, record)) == version_after(record.version),
{
    lemma_literals();
    law_numeral_reads_back(INITIAL_RECORD_VERSION);
    law_numeral_reads_back((record.version + 1) as i64);
}

/// What a client has written it reads back: the same value, in the version after the one it asked
/// for, which is the initial one where it asked for nothing or for anything to be stored.
pub proof fn law_write_reads_back(
    table_name: Seq<char>,
    table: TableView,
    user_token: Seq<char>,
    store_id: Seq<char>,
    kv: KeyValueView,
    now: Seq<char>,
    text: Seq<char>,
)
    requires
        is_record_table(table),
        kv.version < i64::MAX,
        admits_write(table, record_at(user_token, store_id, kv, now)),
    ensures
        ({
            let record = record_at(user_token, store_id, kv, now);
            let (after, reply) = perform(table, put_object_query(table_name, record), text);
            let request = GetObjectRequestView { store_id, key: kv.key };
            &&& put_object_outcome(record, reply) == Ok::<(), VssErrorView>(())
            &&& get_outcome(kv.key, read(after, get_query(table_name, user_token, request))) == Ok::<
                GetObjectResponseView,
                VssErrorView,
            >(
                GetObjectResponseView {
                    value: Some(
                        KeyValueView {
                            key: kv.key,
                            value: kv.value,
                            version: version_after(kv.version) as i64,
                        },
                    ),
                },
            )
        }),
{
    let record = record_at(user_token, store_id, kv, now);
    let after = perform(table, put_object_query(table_name, record), text).0;
    law_write_goes_through_where_version_matches(table_name, table, record, text);
    law_write_keeps_records(table_name, table, record, text);
    lemma_item_after(table, record);
    law_read_gives_what_is_stored(
        table_name,
        after,
        user_token,
        GetObjectRequestView { store_id, key: kv.key },
    );
}

/// A write leaves a table that holds nothing but records of the store, and every other record as
/// it was.
pub proof fn law_write_keeps_records(
    table_name: Seq<char>,
    table: TableView,
    record: RecordView,
    text: Seq<char>,
)
    requires
        is_record_table(table),
        next_version_fits(record),
    ensures
        ({
            let after = perform(table, put_object_query(table_name, record), text).0;
            &&& is_record_table(after)
            &&& forall|place: Place|
                place != record_place(record) ==> #[trigger] item_at(after, place) == item_at(
                    table,
                    place,
                )
        }),
{
    law_write_goes_through_where_version_matches(table_name, table, record, text);
    if admits_write(table, record) {
        lemma_item_after(table, record);
    }
}

/// An update keeps the time at which a record was created, and sets the time of its last update.
/// A record that is created has both times from its creation.
pub proof fn law_write_keeps_time_of_creation(
    table_name: Seq<char>,
    table: TableView,
    record: RecordView,
    text: Seq<char>,
)
    requires
        is_record_table(table),
        next_version_fits(record),
        admits_write(table, record),
    ensures
        ({
            let after = perform(table, put_object_query(table_name, record), text).0;
            let item = after[record_place(record)];
            let creates = record.version == UNCONDITIONAL_VERSION
                || record.version == ABSENT_VERSION;
            &&& after.contains_key(record_place(record))
            &&& text_attribute(item, "last_updated_at"@) == Some(record.last_updated_at)
            &&& text_attribute(item, "created_at"@) == if creates {
                Some(record.created_at)
            } else {
                text_attribute(table[record_place(record)], "created_at"@)
            }
        }),
{
    lemma_literals();
    law_write_goes_through_where_version_matches(table_name, table, record, text);
}

/// Of two writes of one record that ask for the same version, one goes through: once the first
/// has, the second is refused with a conflict, and what the first wrote stays.
pub proof fn law_second_writer_is_refused(
    table_name: Seq<char>,
    table: TableView,
    first: RecordView,
    second: RecordView,
    text: Seq<char>,
)
    requires
        is_record_table(table),
        next_version_fits(first),
        first.version == second.version,
        first.version != UNCONDITIONAL_VERSION,
        record_place(first) == record_place(second),
        admits_write(table, first),
    ensures
        ({
            let between = perform(table, put_object_query(table_name, first), text).0;
            let (after, reply) = perform(between, put_object_query(table_name, second), text);
            &&& put_object_outcome(second, reply) == Err::<(), VssErrorView>(
                write_conflict(second),
            )
            &&& after == between
        }),
{
    let between = perform(table, put_object_query(table_name, first), text).0;
    law_write_goes_through_where_version_matches(table_name, table, first, text);
    law_write_keeps_records(table_name, table, first, text);
    lemma_item_after(table, first);
    law_write_goes_through_where_version_matches(table_name, between, second, text);
}

/// A record is created, on any table, exactly where there is no version under its key: where there
/// is no item, or one without a version, which the record then takes the place of. Else the client
/// is told of a conflict and the table stays as it is.
pub proof fn law_creation_needs_absent_version(
    table_name: Seq<char>,
    table: TableView,
    record: RecordView,
    text: Seq<char>,
)
    ensures
        ({
            let place = record_place(record);
            let request = WriteView::Put(conditional_insert(table_name, record));
            let has_version = table.contains_key(place) && table[place].contains_key("version"@);
            let (after, reply) = perform(table, request, text);
            let result = conditional_insert_outcome(reply);
            &&& !has_version ==> result == Ok::<(), VssErrorView>(()) && after == table.insert(
                place,
                new_item(record),
            )
            &&& has_version ==> result == Err::<(), VssErrorView>(item_exists()) && after == table
        }),
{
    lemma_literals();
    assert(place_of(new_item(record)) == record_place(record));
}

/// A removal goes through exactly where what is stored is what its version asks for, and says
/// whether there was a record. Where it does not go through, it says that nothing was removed, and
/// the table stays as it is.
pub proof fn law_removal_goes_through_where_version_matches(
    table_name: Seq<char>,
    table: TableView,
    record: RecordView,
    text: Seq<char>,
)
    requires
        is_record_table(table),
    ensures
        ({
            let (after, reply) = perform(
                table,
                WriteView::Delete(delete_object_query(table_name, record)),
                text,
            );
            let result = delete_object_outcome(record, reply);
            &&& is_record_table(after)
            &&& admits_removal(table, record) ==> result == Ok::<bool, VssErrorView>(
                table.contains_key(record_place(record)),
            ) && after == table.remove(record_place(record))
            &&& !admits_removal(table, record) ==> result == Ok::<bool, VssErrorView>(false)
                && after == table
        }),
{
    lemma_literals();
    let place = record_place(record);
    assert(place_of(key_item(record.namespace, record.key)) == place);
    assert("attribute_not_exists(#version)"@.len() != "#version = :expected_version"@.len());
    if record.version != UNCONDITIONAL_VERSION {
        let request = conditional_delete(table_name, record);
        if table.contains_key(place) {
            lemma_version_condition(
                table[place],
                place,
                record.version,
                request.expression_attribute_names,
                request.expression_attribute_values,
            );
        }
    }
}

/// A record that has been removed is not found any more, as long as nothing is written in its
/// place, but for the global version, which is zero again.
pub proof fn law_removed_is_not_found(
    table_name: Seq<char>,
    table: TableView,
    user_token: Seq<char>,
    store_id: Seq<char>,
    kv: KeyValueView,
    now: Seq<char>,
    text: Seq<char>,
    later: TableView,
)
    requires
        is_record_table(table),
        admits_removal(table, record_at(user_token, store_id, kv, now)),
        ({
            let record = record_at(user_token, store_id, kv, now);
            let request = WriteView::Delete(delete_object_query(table_name, record));
            item_at(later, record_place(record)) == item_at(
                perform(table, request, text).0,
                record_place(record),
            )
        }),
    ensures
        ({
            let result = answer(table_name, later, user_token, store_id, kv.key);
            if kv.key == GLOBAL_VERSION_KEY@ {
                result == Ok::<GetObjectResponseView, VssErrorView>(
                    GetObjectResponseView { value: Some(default_global_version()) },
                )
            } else {
                result == Err::<GetObjectResponseView, VssErrorView>(no_such_key())
            }
        }),
{
    let record = record_at(user_token, store_id, kv, now);
    law_removal_goes_through_where_version_matches(table_name, table, record, text);
    assert(item_at(later, record_place(record)) is None);
    law_read_gives_what_is_stored(
        table_name,
        later,
        user_token,
        GetObjectRequestView { store_id, key: kv.key },
    );
}

/// A request that writes or removes a record changes, on any table, no place but that of the
/// record.
pub proof fn law_request_changes_only_its_place(
    table_name: Seq<char>,
    table: TableView,
    record: RecordView,
    text: Seq<char>,
    place: Place,
)
    requires
        place != record_place(record),
    ensures
        item_at(perform(table, put_object_query(table_name, record), text).0, place) == item_at(
            table,
            place,
        ),
        item_at(
            perform(table, WriteView::Delete(delete_object_query(table_name, record)), text).0,
            place,
        ) == item_at(table, place),
{
    lemma_literals();
    assert(place_of(new_item(record)) == record_place(record));
    assert(place_of(key_item(record.namespace, record.key)) == record_place(record));
}

/// Different users' stores, and different stores of a user, have different namespaces, unless one
/// user token is the other one with a separator and more behind it.
pub proof fn law_namespaces_are_apart(
    user_a: Seq<char>,
    store_a: Seq<char>,
    user_b: Seq<char>,
    store_b: Seq<char>,
)
    requires
        !(user_a + "#"@).is_prefix_of(user_b),
        !(user_b + "#"@).is_prefix_of(user_a),
    ensures
        namespace_of(user_a, store_a) == namespace_of(user_b, store_b) <==> user_a == user_b
            && store_a == store_b,
{
    reveal_strlit("#");
    let a = namespace_of(user_a, store_a);
    let b = namespace_of(user_b, store_b);
    if a == b {
        if user_a.len() < user_b.len() {
            assert((user_a + "#"@).is_prefix_of(user_b)) by {
                assert forall|i: int| 0 <= i < user_a.len() + 1 implies (user_a + "#"@)[i]
                    == user_b[i] by {
                    assert(a[i] == b[i]);
                }
            }
        } else if user_b.len() < user_a.len() {
            assert((user_b + "#"@).is_prefix_of(user_a)) by {
                assert forall|i: int| 0 <= i < user_b.len() + 1 implies (user_b + "#"@)[i]
                    == user_a[i] by {
                    assert(a[i] == b[i]);
                }
            }
        } else {
            assert forall|i: int| 0 <= i < user_a.len() implies user_a[i] == user_b[i] by {
                assert(a[i] == b[i]);
            }
            assert(user_a =~= user_b);
            let separated = user_a.len() as int + 1;
            assert(a.skip(separated) =~= store_a);
            assert(b.skip(separated) =~= store_b);
        }
    }
}

} // verus!
