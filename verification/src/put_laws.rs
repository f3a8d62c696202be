//! What becomes of a table when a put request is carried out to its end.

use crate::dynamodb_store::{
    default_global_version, delete_object_query, next_version_fits, no_such_key, put_object_query,
};
use crate::items::ItemView;
use crate::put::{
    delete_outcome, is_begun, transaction_conflict, written_items, PutActionView, PutRunView,
};
use crate::records::{holds_item, is_record_of, namespace_of, record_at, RecordView};
use crate::requests::{WriteReplyView, WriteView};
use crate::table::{
    admits_removal, admits_write, answer, answer_in, is_record_table, item_after, item_at,
    law_read_gives_what_is_stored, law_removal_goes_through_where_version_matches,
    law_request_changes_only_its_place, law_write_goes_through_where_version_matches,
    law_write_keeps_records, lemma_item_after, named_table, perform, perform_in, record_place,
    version_after, write_conflict, Place, TableView, Tables,
};
use crate::types::{
    DeleteObjectResponse, GetObjectRequestView, GetObjectResponseView, KeyValueView,
    PutObjectRequestView, PutObjectResponse, VssErrorView, GLOBAL_VERSION_KEY,
};
use vstd::prelude::*;

verus! {

/// Carries out a put request on a table: sends what it asks to be sent, hands the answers back,
/// and stops when it is finished or refused. The text is the service's description of a condition
/// that does not hold.
pub open spec fn carry_out(table: TableView, run: PutRunView, text: Seq<char>) -> (
    TableView,
    Result<PutObjectResponse, VssErrorView>,
)
    decreases run.total() - run.done,
{
    match run.action() {
        PutActionView::Finish(response) => (table, Ok(response)),
        PutActionView::Send(request) => {
            let (after, reply) = perform(table, request, text);
            match run.on_reply(reply) {
                Ok(next) => carry_out(after, next, text),
                Err(error) => (after, Err(error)),
            }
        },
    }
}

impl PutRunView {
    /// The records in the order in which they are done.
    pub open spec fn record(self, i: int) -> RecordView {
        if i < self.puts.len() {
            self.puts[i]
        } else {
            self.deletes[i - self.puts.len()]
        }
    }

    /// Whether a table has what the version of a record asks for.
    pub open spec fn admitted(self, table: TableView, i: int) -> bool {
        if i < self.puts.len() {
            admits_write(table, self.record(i))
        } else {
            admits_removal(table, self.record(i))
        }
    }

    /// The error where a table has not what the version of a record asks for.
    pub open spec fn refusal(self, i: int) -> VssErrorView {
        if i < self.puts.len() {
            write_conflict(self.record(i))
        } else {
            transaction_conflict()
        }
    }

    /// The item of a record once it is done: none where it was to be removed.
    pub open spec fn item_when_done(self, table: TableView, i: int) -> Option<ItemView> {
        if i < self.puts.len() {
            Some(item_after(table, self.record(i)))
        } else {
            None
        }
    }

    /// No two of the records that are not done yet are of the same place.
    pub open spec fn places_differ(self) -> bool {
        forall|i: int, j: int|
            self.done <= i < j < self.total() ==> record_place(#[trigger] self.record(i))
                != record_place(#[trigger] self.record(j))
    }

    /// Every record that is to be written has a version after its own.
    pub open spec fn versions_fit(self) -> bool {
        forall|i: int| 0 <= i < self.puts.len() ==> next_version_fits(#[trigger] self.puts[i])
    }
}

/// A table with the next record of a put request done.
pub open spec fn with_current_done(table: TableView, run: PutRunView) -> TableView {
    let place = record_place(run.current());
    if run.is_writing() {
        table.insert(place, item_after(table, run.current()))
    } else {
        table.remove(place)
    }
}

/// A table with the records of a put request done one after another, from the first that is not
/// done up to a number.
pub open spec fn with_done(table: TableView, run: PutRunView, number: int) -> TableView
    decreases number - run.done,
{
    if run.done >= number {
        table
    } else {
        with_done(with_current_done(table, run), run.advanced(), number)
    }
}

/// One step of a put request: where the table has what the version of the next record asks for,
/// the request goes on with that record done; else it ends with the conflict and the table as it
/// is.
proof fn lemma_step(table: TableView, run: PutRunView, text: Seq<char>)
    requires
        is_record_table(table),
        run.versions_fit(),
        run.done < run.total(),
    ensures
        run.record(run.done as int) == run.current(),
        run.admitted(table, run.done as int) ==> {
            &&& is_record_table(with_current_done(table, run))
            &&& carry_out(table, run, text) == carry_out(
                with_current_done(table, run),
                run.advanced(),
                text,
            )
        },
        !run.admitted(table, run.done as int) ==> {
            let (after, result) = carry_out(table, run, text);
            after == table && result == Err::<PutObjectResponse, VssErrorView>(
                run.refusal(run.done as int),
            )
        },
{
    let current = run.current();
    if run.is_writing() {
        assert(next_version_fits(run.puts[run.done as int]));
        law_write_goes_through_where_version_matches(run.table_name, table, current, text);
        law_write_keeps_records(run.table_name, table, current, text);
    } else {
        law_removal_goes_through_where_version_matches(run.table_name, table, current, text);
    }
}

/// A put request writes and removes its records one after another, each where the table, as the
/// ones before it have left it, has what its version asks for. The first for which it has not
/// ends the request with its conflict, and the table stays as the ones before it have left it.
/// Where there is no such record, the request succeeds.
pub proof fn law_put_goes_on_while_admitted(
    table: TableView,
    run: PutRunView,
    number: int,
    text: Seq<char>,
)
    requires
        is_record_table(table),
        run.versions_fit(),
        run.done <= number <= run.total(),
        forall|i: int|
            run.done <= i < number ==> #[trigger] run.admitted(with_done(table, run, i), i),
        number < run.total() ==> !run.admitted(with_done(table, run, number), number),
    ensures
        ({
            let (after, result) = carry_out(table, run, text);
            &&& is_record_table(after)
            &&& after == with_done(table, run, number)
            &&& number == run.total() ==> result == Ok::<PutObjectResponse, VssErrorView>(
                PutObjectResponse {  },
            )
            &&& number < run.total() ==> result == Err::<PutObjectResponse, VssErrorView>(
                run.refusal(number),
            )
        }),
    decreases run.total() - run.done,
{
    if run.done < run.total() {
        lemma_step(table, run, text);
        if number > run.done {
            let after = with_current_done(table, run);
            let next = run.advanced();
            assert(run.admitted(with_done(table, run, run.done as int), run.done as int));
            assert forall|i: int| next.done <= i <= next.total() implies with_done(table, run, i)
                == #[trigger] with_done(after, next, i) && next.record(i) == run.record(i) by {}
            assert forall|i: int| next.done <= i < number implies #[trigger] next.admitted(
                with_done(after, next, i),
                i,
            ) by {
                assert(run.admitted(with_done(table, run, i), i));
            }
            law_put_goes_on_while_admitted(after, next, number, text);
            assert(next.refusal(number) == run.refusal(number));
        }
    }
}

/// Whether a table is another one with the records from the first that is not done up to a number
/// done, and nothing else changed.
pub open spec fn is_done_up_to(
    run: PutRunView,
    table: TableView,
    number: int,
    after: TableView,
) -> bool {
    &&& forall|i: int|
        run.done <= i < number ==> item_at(after, record_place(#[trigger] run.record(i)))
            == run.item_when_done(table, i)
    &&& forall|place: Place|
        (forall|i: int|
            run.done <= i < number ==> record_place(#[trigger] run.record(i)) != place)
            ==> #[trigger] item_at(after, place) == item_at(table, place)
}

/// A put request writes and removes its records in order, as long as the table has what their
/// versions ask for. The first for which it has not ends the request with its conflict; that one
/// and those after it are not touched, and those before it stay done. Where there is no such
/// record, the request succeeds and every record is done.
///
/// No two of the records may be of the same place, for then the earlier one changes what the
/// later one finds.
pub proof fn law_put_is_done_up_to_first_refusal(
    table: TableView,
    run: PutRunView,
    number: int,
    text: Seq<char>,
)
    requires
        is_record_table(table),
        run.versions_fit(),
        run.places_differ(),
        run.done <= number <= run.total(),
        forall|i: int| run.done <= i < number ==> #[trigger] run.admitted(table, i),
        number < run.total() ==> !run.admitted(table, number),
    ensures
        ({
            let (after, result) = carry_out(table, run, text);
            &&& is_record_table(after)
            &&& is_done_up_to(run, table, number, after)
            &&& number == run.total() ==> result == Ok::<PutObjectResponse, VssErrorView>(
                PutObjectResponse {  },
            )
            &&& number < run.total() ==> result == Err::<PutObjectResponse, VssErrorView>(
                run.refusal(number),
            )
        }),
    decreases run.total() - run.done,
{
    let end = carry_out(table, run, text).0;
    if run.done < run.total() {
        lemma_step(table, run, text);
        if number > run.done {
            assert(run.admitted(table, run.done as int));
            let place = record_place(run.current());
            let after = with_current_done(table, run);
            let next = run.advanced();
            assert(forall|p: Place|
                p != place ==> #[trigger] item_at(after, p) == item_at(table, p));
            assert forall|i: int| next.done <= i < next.total() implies #[trigger] next.admitted(
                after,
                i,
            ) == run.admitted(table, i) && next.item_when_done(after, i) == run.item_when_done(
                table,
                i,
            ) by {
                assert(record_place(run.record(run.done as int)) != record_place(run.record(i)));
                assert(next.record(i) == run.record(i));
                let p = record_place(run.record(i));
                assert(item_at(after, p) == item_at(table, p));
            }
            assert(next.places_differ()) by {
                assert forall|i: int, j: int| next.done <= i < j < next.total() implies record_place(
                    #[trigger] next.record(i),
                ) != record_place(#[trigger] next.record(j)) by {
                    assert(record_place(run.record(i)) != record_place(run.record(j)));
                }
            }
            assert forall|i: int| next.done <= i < number implies #[trigger] next.admitted(
                after,
                i,
            ) by {
                assert(run.admitted(table, i));
            }
            law_put_is_done_up_to_first_refusal(after, next, number, text);
            assert(item_at(after, place) == run.item_when_done(table, run.done as int));
            assert forall|i: int| next.done <= i < number implies record_place(
                #[trigger] next.record(i),
            ) != place by {
                assert(record_place(run.record(run.done as int)) != record_place(run.record(i)));
            }
            assert(item_at(end, place) == item_at(after, place));
            assert forall|i: int| run.done <= i < number implies item_at(
                end,
                record_place(#[trigger] run.record(i)),
            ) == run.item_when_done(table, i) by {
                if i > run.done {
                    assert(next.record(i) == run.record(i));
                    assert(next.admitted(after, i) == run.admitted(table, i));
                    assert(item_at(end, record_place(next.record(i))) == next.item_when_done(
                        after,
                        i,
                    ));
                }
            }
            assert forall|p: Place|
                (forall|i: int|
                    run.done <= i < number ==> record_place(#[trigger] run.record(i)) != p) implies #[trigger] item_at(
                end,
                p,
            ) == item_at(table, p) by {
                assert(record_place(run.record(run.done as int)) != p);
                assert forall|i: int| next.done <= i < number implies record_place(
                    #[trigger] next.record(i),
                ) != p by {
                    assert(next.record(i) == run.record(i));
                }
                assert(item_at(end, p) == item_at(after, p));
            }
        }
    }
}

/// A record that is asked to be removed is answered with success whatever is stored, and once it
/// has been asked for, asking again changes nothing.
pub proof fn law_delete_can_be_repeated(
    table_name: Seq<char>,
    table: TableView,
    record: RecordView,
    text: Seq<char>,
)
    requires
        is_record_table(table),
    ensures
        ({
            let request = WriteView::Delete(delete_object_query(table_name, record));
            let success = Ok::<DeleteObjectResponse, VssErrorView>(DeleteObjectResponse {  });
            let (once, first) = perform(table, request, text);
            let (twice, second) = perform(once, request, text);
            &&& delete_outcome(record, first) == success
            &&& delete_outcome(record, second) == success
            &&& twice == once
        }),
{
    let request = WriteView::Delete(delete_object_query(table_name, record));
    let once = perform(table, request, text).0;
    law_removal_goes_through_where_version_matches(table_name, table, record, text);
    law_removal_goes_through_where_version_matches(table_name, once, record, text);
    assert(perform(once, request, text).0 =~= once);
}

/// What a put request asks to be written: its items, then the global version where it gives one.
pub open spec fn items_to_write(request: PutObjectRequestView) -> Seq<KeyValueView> {
    request.transaction_items + match request.global_version {
        Some(version) => seq![
            KeyValueView { key: "global_version"@, value: Seq::<u8>::empty(), version },
        ],
        None => Seq::<KeyValueView>::empty(),
    }
}

/// What a put request asks for, in the order in which it is done: what it writes, then what it
/// removes.
pub open spec fn all_items(request: PutObjectRequestView) -> Seq<KeyValueView> {
    items_to_write(request) + request.delete_items
}

/// No two items of a request are of the same key.
pub open spec fn keys_differ(request: PutObjectRequestView) -> bool {
    forall|i: int, j: int|
        0 <= i < j < all_items(request).len() ==> (#[trigger] all_items(request)[i]).key != (
        #[trigger] all_items(request)[j]).key
}

/// Whether a table has what the versions of all items of a request ask for.
pub open spec fn admits_request(
    table: TableView,
    user_token: Seq<char>,
    request: PutObjectRequestView,
) -> bool {
    &&& forall|i: int|
        0 <= i < items_to_write(request).len() ==> admits_write(
            table,
            record_at(
                user_token,
                request.store_id,
                #[trigger] items_to_write(request)[i],
                Seq::empty(),
            ),
        )
    &&& forall|i: int|
        0 <= i < request.delete_items.len() ==> admits_removal(
            table,
            record_at(
                user_token,
                request.store_id,
                #[trigger] request.delete_items[i],
                Seq::empty(),
            ),
        )
}

/// Every item that a request writes has a version after its own.
pub open spec fn versions_fit(request: PutObjectRequestView) -> bool {
    forall|i: int|
        0 <= i < items_to_write(request).len() ==> (#[trigger] items_to_write(request)[i]).version
            < i64::MAX
}

/// The records of a put request that has just begun are those of its items, in order.
proof fn lemma_records_of_items(
    table_name: Seq<char>,
    user_token: Seq<char>,
    request: PutObjectRequestView,
    run: PutRunView,
)
    requires
        is_begun(run, table_name, user_token, request),
    ensures
        run.puts.len() == items_to_write(request).len(),
        run.total() == all_items(request).len(),
        forall|i: int|
            0 <= i < run.total() ==> {
                &&& (#[trigger] run.record(i)).namespace == namespace_of(
                    user_token,
                    request.store_id,
                )
                &&& run.record(i).key == all_items(request)[i].key
                &&& run.record(i).value == all_items(request)[i].value
                &&& run.record(i).version == all_items(request)[i].version
            },
        keys_differ(request) ==> run.places_differ(),
        versions_fit(request) ==> run.versions_fit(),
{
    let written = items_to_write(request);
    let removed = request.delete_items;
    assert(written_items(request) =~= written);
    assert forall|i: int| 0 <= i < run.total() implies {
        &&& (#[trigger] run.record(i)).namespace == namespace_of(user_token, request.store_id)
        &&& run.record(i).key == all_items(request)[i].key
        &&& run.record(i).value == all_items(request)[i].value
        &&& run.record(i).version == all_items(request)[i].version
    } by {
        if i < written.len() {
            assert(is_record_of(run.puts[i], user_token, request.store_id, written[i]));
        } else {
            let j = i - written.len();
            assert(is_record_of(run.deletes[j], user_token, request.store_id, removed[j]));
        }
    }
    if keys_differ(request) {
        assert forall|i: int, j: int| run.done <= i < j < run.total() implies record_place(
            #[trigger] run.record(i),
        ) != record_place(#[trigger] run.record(j)) by {
            assert(all_items(request)[i].key != all_items(request)[j].key);
        }
    }
    if versions_fit(request) {
        assert forall|i: int| 0 <= i < run.puts.len() implies next_version_fits(
            #[trigger] run.puts[i],
        ) by {
            assert(run.record(i) == run.puts[i]);
            assert(written[i].version < i64::MAX);
        }
    }
}

/// A table has what a put request asks for where it has what each of its records asks for.
proof fn lemma_admits_records(
    table_name: Seq<char>,
    table: TableView,
    user_token: Seq<char>,
    request: PutObjectRequestView,
    run: PutRunView,
)
    requires
        is_begun(run, table_name, user_token, request),
    ensures
        admits_request(table, user_token, request) <==> forall|i: int|
            0 <= i < run.total() ==> #[trigger] run.admitted(table, i),
{
    let written = items_to_write(request);
    let removed = request.delete_items;
    let store_id = request.store_id;
    lemma_records_of_items(table_name, user_token, request, run);
    assert forall|i: int| 0 <= i < written.len() implies #[trigger] run.admitted(table, i)
        == admits_write(table, record_at(user_token, store_id, written[i], Seq::empty())) by {
        assert(run.record(i).key == all_items(request)[i].key);
    }
    assert forall|j: int| 0 <= j < removed.len() implies run.admitted(table, j + written.len())
        == admits_removal(
        table,
        record_at(user_token, store_id, #[trigger] removed[j], Seq::empty()),
    ) by {
        assert(run.record(j + written.len()).key == all_items(request)[j + written.len()].key);
    }
    if admits_request(table, user_token, request) {
        assert forall|i: int| 0 <= i < run.total() implies #[trigger] run.admitted(table, i) by {
            if i < written.len() {
                assert(admits_write(
                    table,
                    record_at(user_token, store_id, written[i], Seq::empty()),
                ));
            } else {
                let j = i - written.len();
                assert(admits_removal(
                    table,
                    record_at(user_token, store_id, removed[j], Seq::empty()),
                ));
                assert(run.admitted(table, j + written.len()));
            }
        }
    }
    if forall|i: int| 0 <= i < run.total() ==> #[trigger] run.admitted(table, i) {
        assert forall|i: int| 0 <= i < written.len() implies admits_write(
            table,
            record_at(user_token, store_id, #[trigger] written[i], Seq::empty()),
        ) by {
            assert(run.admitted(table, i));
        }
        assert forall|j: int| 0 <= j < removed.len() implies admits_removal(
            table,
            record_at(user_token, store_id, #[trigger] removed[j], Seq::empty()),
        ) by {
            assert(run.admitted(table, j + written.len()));
        }
    }
}

/// The first record, from a number on, for which a table has not what its version asks for.
proof fn lemma_first_refusal(table: TableView, run: PutRunView, from: int) -> (number: int)
    requires
        run.done <= from <= run.total(),
        forall|i: int| run.done <= i < from ==> #[trigger] run.admitted(table, i),
    ensures
        from <= number <= run.total(),
        forall|i: int| run.done <= i < number ==> #[trigger] run.admitted(table, i),
        number < run.total() ==> !run.admitted(table, number),
    decreases run.total() - from,
{
    if from < run.total() && run.admitted(table, from) {
        lemma_first_refusal(table, run, from + 1)
    } else {
        from
    }
}

/// Whether a record is the first for which a table has not what its version asks for.
pub open spec fn is_first_refusal(table: TableView, run: PutRunView, number: int) -> bool {
    &&& run.done <= number < run.total()
    &&& !run.admitted(table, number)
    &&& forall|i: int| run.done <= i < number ==> #[trigger] run.admitted(table, i)
}

/// A put request of which no two items are of the same key succeeds exactly where the table has
/// what the versions of all its items ask for. Else it ends with the conflict of the first for
/// which the table has not.
pub proof fn law_put_succeeds_where_all_versions_match(
    table_name: Seq<char>,
    table: TableView,
    user_token: Seq<char>,
    request: PutObjectRequestView,
    run: PutRunView,
    text: Seq<char>,
)
    requires
        is_record_table(table),
        is_begun(run, table_name, user_token, request),
        keys_differ(request),
        versions_fit(request),
    ensures
        ({
            let result = carry_out(table, run, text).1;
            &&& result is Ok <==> admits_request(table, user_token, request)
            &&& result matches Err(error) ==> exists|number: int|
                #[trigger] is_first_refusal(table, run, number) && error == run.refusal(number)
        }),
{
    lemma_records_of_items(table_name, user_token, request, run);
    lemma_admits_records(table_name, table, user_token, request, run);
    let number = lemma_first_refusal(table, run, 0);
    law_put_is_done_up_to_first_refusal(table, run, number, text);
    if number < run.total() {
        assert(is_first_refusal(table, run, number));
    }
}

/// What a put request that succeeded wrote is read back from then on, with its value and the
/// version after its own, as long as nothing else is written in its place; and what it removed is
/// not found.
pub proof fn law_put_reads_back(
    table_name: Seq<char>,
    table: TableView,
    user_token: Seq<char>,
    request: PutObjectRequestView,
    run: PutRunView,
    text: Seq<char>,
    later: TableView,
    i: int,
)
    requires
        is_record_table(table),
        is_begun(run, table_name, user_token, request),
        keys_differ(request),
        versions_fit(request),
        carry_out(table, run, text).1 is Ok,
        0 <= i < all_items(request).len(),
        ({
            let place = (
                namespace_of(user_token, request.store_id),
                all_items(request)[i].key,
            );
            item_at(later, place) == item_at(carry_out(table, run, text).0, place)
        }),
    ensures
        ({
            let kv = all_items(request)[i];
            answer(table_name, later, user_token, request.store_id, kv.key) == if i
                < items_to_write(request).len() {
                Ok::<GetObjectResponseView, VssErrorView>(
                    GetObjectResponseView {
                        value: Some(
                            KeyValueView { version: version_after(kv.version) as i64, ..kv },
                        ),
                    },
                )
            } else if kv.key == GLOBAL_VERSION_KEY@ {
                Ok(GetObjectResponseView { value: Some(default_global_version()) })
            } else {
                Err(no_such_key())
            }
        }),
{
    let after = carry_out(table, run, text).0;
    let record = run.record(i);
    law_put_succeeds_where_all_versions_match(table_name, table, user_token, request, run, text);
    lemma_records_of_items(table_name, user_token, request, run);
    lemma_admits_records(table_name, table, user_token, request, run);
    assert(run.admitted(table, i));
    law_put_is_done_up_to_first_refusal(table, run, run.total() as int, text);
    assert(item_at(after, record_place(record)) == run.item_when_done(table, i));
    if i < items_to_write(request).len() {
        assert(next_version_fits(run.puts[i]));
        lemma_item_after(table, record);
    }
    law_read_gives_what_is_stored(
        table_name,
        later,
        user_token,
        GetObjectRequestView { store_id: request.store_id, key: all_items(request)[i].key },
    );
}

/// Carrying out what is left of a put request changes, on any table, no place but those of the
/// records that are left.
proof fn lemma_run_changes_only_its_places(
    table: TableView,
    run: PutRunView,
    text: Seq<char>,
    place: Place,
)
    requires
        forall|i: int|
            run.done <= i < run.total() ==> record_place(#[trigger] run.record(i)) != place,
    ensures
        item_at(carry_out(table, run, text).0, place) == item_at(table, place),
    decreases run.total() - run.done,
{
    if run.done < run.total() {
        let current = run.record(run.done as int);
        assert(current == run.current());
        law_request_changes_only_its_place(run.table_name, table, current, text, place);
        let request = run.action()->Send_0;
        let after = perform(table, request, text).0;
        let next = run.advanced();
        assert forall|i: int| next.done <= i < next.total() implies record_place(
            #[trigger] next.record(i),
        ) != place by {
            assert(next.record(i) == run.record(i));
        }
        lemma_run_changes_only_its_places(after, next, text, place);
    }
}

/// A put request changes, on any table and whether or not it is refused, no record of another
/// namespace and none of its own whose key is not one of its items'.
pub proof fn law_put_changes_only_its_own_keys(
    table_name: Seq<char>,
    table: TableView,
    user_token: Seq<char>,
    request: PutObjectRequestView,
    run: PutRunView,
    text: Seq<char>,
    place: Place,
)
    requires
        is_begun(run, table_name, user_token, request),
        place.0 != namespace_of(user_token, request.store_id) || forall|i: int|
            0 <= i < all_items(request).len() ==> (#[trigger] all_items(request)[i]).key != place.1,
    ensures
        item_at(carry_out(table, run, text).0, place) == item_at(table, place),
{
    lemma_records_of_items(table_name, user_token, request, run);
    assert forall|i: int| run.done <= i < run.total() implies record_place(
        #[trigger] run.record(i),
    ) != place by {
        assert(run.record(i).key == all_items(request)[i].key);
    }
    lemma_run_changes_only_its_places(table, run, text, place);
}

/// A put request that has just begun writes a record for each of its items, in order, and one more
/// for the global version where it gives one; and it removes one for each of the others. Each
/// record has the key, the value and the version of its item, in the namespace of the user's store.
pub proof fn law_put_has_a_record_for_each_item(
    table_name: Seq<char>,
    user_token: Seq<char>,
    request: PutObjectRequestView,
    run: PutRunView,
)
    requires
        is_begun(run, table_name, user_token, request),
    ensures
        run.table_name == table_name,
        run.done == 0,
        run.puts.len() == request.transaction_items.len() + if request.global_version is Some {
            1int
        } else {
            0int
        },
        run.deletes.len() == request.delete_items.len(),
        forall|i: int|
            0 <= i < request.transaction_items.len() ==> holds_item(
                #[trigger] run.puts[i],
                user_token,
                request.store_id,
                request.transaction_items[i],
            ),
        forall|i: int|
            0 <= i < request.delete_items.len() ==> holds_item(
                #[trigger] run.deletes[i],
                user_token,
                request.store_id,
                request.delete_items[i],
            ),
        request.global_version matches Some(version) ==> holds_item(
            run.puts[request.transaction_items.len() as int],
            user_token,
            request.store_id,
            KeyValueView { key: "global_version"@, value: Seq::<u8>::empty(), version },
        ),
{
    reveal_strlit("#");
    assert("#"@ =~= seq!['#']);
    lemma_records_of_items(table_name, user_token, request, run);
    let written = items_to_write(request);
    assert forall|i: int| 0 <= i < written.len() implies holds_item(
        #[trigger] run.puts[i],
        user_token,
        request.store_id,
        written[i],
    ) by {
        assert(written_items(request) =~= written);
        assert(is_record_of(run.puts[i], user_token, request.store_id, written[i]));
    }
    assert forall|i: int| 0 <= i < request.delete_items.len() implies holds_item(
        #[trigger] run.deletes[i],
        user_token,
        request.store_id,
        request.delete_items[i],
    ) by {
        assert(is_record_of(
            run.deletes[i],
            user_token,
            request.store_id,
            request.delete_items[i],
        ));
    }
}

/// Carries out a put request on tables by name.
pub open spec fn carry_out_in(tables: Tables, run: PutRunView, text: Seq<char>) -> (
    Tables,
    Result<PutObjectResponse, VssErrorView>,
)
    decreases run.total() - run.done,
{
    match run.action() {
        PutActionView::Finish(response) => (tables, Ok(response)),
        PutActionView::Send(request) => {
            let (after, reply) = perform_in(tables, request, text);
            match run.on_reply(reply) {
                Ok(next) => carry_out_in(after, next, text),
                Err(error) => (after, Err(error)),
            }
        },
    }
}

/// A put request is carried out on the table of its backend, and changes no other.
pub proof fn law_put_goes_to_the_table_of_its_backend(
    tables: Tables,
    run: PutRunView,
    text: Seq<char>,
)
    requires
        tables.contains_key(run.table_name),
    ensures
        ({
            let (after, result) = carry_out(tables[run.table_name], run, text);
            carry_out_in(tables, run, text) == (tables.insert(run.table_name, after), result)
        }),
    decreases run.total() - run.done,
{
    let name = run.table_name;
    if run.done < run.total() {
        let request = run.action()->Send_0;
        let (after, reply) = perform(tables[name], request, text);
        assert(named_table(request) == name);
        if run.on_reply(reply) is Ok {
            let next = run.on_reply(reply)->Ok_0;
            law_put_goes_to_the_table_of_its_backend(tables.insert(name, after), next, text);
            let end = carry_out(after, next, text).0;
            assert(tables.insert(name, after).insert(name, end) =~= tables.insert(name, end));
        }
    } else {
        assert(tables.insert(name, tables[name]) =~= tables);
    }
}

/// What a client puts through a backend it reads back through a backend of the same table, as
/// long as nothing else is written in its place: every item that it asked to be written, with its
/// value and the version after its own, or the first version where it asked for none or for any
/// to be stored.
pub proof fn law_put_items_read_back_through_backend(
    tables: Tables,
    table_name: Seq<char>,
    user_token: Seq<char>,
    request: PutObjectRequestView,
    run: PutRunView,
    text: Seq<char>,
    later: Tables,
    i: int,
)
    requires
        tables.contains_key(table_name),
        is_record_table(tables[table_name]),
        is_begun(run, table_name, user_token, request),
        keys_differ(request),
        versions_fit(request),
        carry_out_in(tables, run, text).1 is Ok,
        0 <= i < request.transaction_items.len(),
        later.contains_key(table_name),
        ({
            let place = (
                namespace_of(user_token, request.store_id),
                request.transaction_items[i].key,
            );
            item_at(later[table_name], place) == item_at(
                carry_out_in(tables, run, text).0[table_name],
                place,
            )
        }),
    ensures
        ({
            let kv = request.transaction_items[i];
            let found = answer_in(later, table_name, user_token, request.store_id, kv.key, text);
            &&& found matches Ok(response) && response.value matches Some(read) && read.key
                == kv.key && read.value == kv.value && read.version == if kv.version == -1 {
                1
            } else {
                kv.version + 1
            }
        }),
{
    law_put_goes_to_the_table_of_its_backend(tables, run, text);
    assert(all_items(request)[i] == request.transaction_items[i]);
    law_put_reads_back(
        table_name,
        tables[table_name],
        user_token,
        request,
        run,
        text,
        later[table_name],
        i,
    );
}

/// A put that gives a global version raises it: the version after the one it gave is read back
/// through a backend of the same table, as long as nothing else is written in its place.
pub proof fn law_put_raises_global_version_through_backend(
    tables: Tables,
    table_name: Seq<char>,
    user_token: Seq<char>,
    request: PutObjectRequestView,
    run: PutRunView,
    text: Seq<char>,
    later: Tables,
    version: i64,
)
    requires
        tables.contains_key(table_name),
        is_record_table(tables[table_name]),
        is_begun(run, table_name, user_token, request),
        keys_differ(request),
        versions_fit(request),
        carry_out_in(tables, run, text).1 is Ok,
        request.global_version == Some(version),
        later.contains_key(table_name),
        ({
            let place = (namespace_of(user_token, request.store_id), "global_version"@);
            item_at(later[table_name], place) == item_at(
                carry_out_in(tables, run, text).0[table_name],
                place,
            )
        }),
    ensures
        ({
            let found = answer_in(
                later,
                table_name,
                user_token,
                request.store_id,
                "global_version"@,
                text,
            );
            &&& found matches Ok(response) && response.value matches Some(read) && read.key
                == "global_version"@ && read.value.len() == 0 && read.version == if version == -1 {
                1
            } else {
                version + 1
            }
        }),
{
    let i = request.transaction_items.len() as int;
    law_put_goes_to_the_table_of_its_backend(tables, run, text);
    assert(all_items(request)[i].key == "global_version"@);
    law_put_reads_back(
        table_name,
        tables[table_name],
        user_token,
        request,
        run,
        text,
        later[table_name],
        i,
    );
}

/// What a client asks a put to remove is not found any more through a backend of the same table,
/// as long as nothing is written in its place.
pub proof fn law_put_removals_are_not_found_through_backend(
    tables: Tables,
    table_name: Seq<char>,
    user_token: Seq<char>,
    request: PutObjectRequestView,
    run: PutRunView,
    text: Seq<char>,
    later: Tables,
    i: int,
)
    requires
        tables.contains_key(table_name),
        is_record_table(tables[table_name]),
        is_begun(run, table_name, user_token, request),
        keys_differ(request),
        versions_fit(request),
        carry_out_in(tables, run, text).1 is Ok,
        0 <= i < request.delete_items.len(),
        request.delete_items[i].key != "global_version"@,
        later.contains_key(table_name),
        ({
            let place = (
                namespace_of(user_token, request.store_id),
                request.delete_items[i].key,
            );
            item_at(later[table_name], place) == item_at(
                carry_out_in(tables, run, text).0[table_name],
                place,
            )
        }),
    ensures
        answer_in(
            later,
            table_name,
            user_token,
            request.store_id,
            request.delete_items[i].key,
            text,
        ) == Err::<GetObjectResponseView, VssErrorView>(
            VssErrorView::NoSuchKeyError("Requested key not found."@),
        ),
{
    let n = items_to_write(request).len() + i;
    law_put_goes_to_the_table_of_its_backend(tables, run, text);
    assert(all_items(request)[n] == request.delete_items[i]);
    law_put_reads_back(
        table_name,
        tables[table_name],
        user_token,
        request,
        run,
        text,
        later[table_name],
        n,
    );
}

/// An error of the service ends a put request with that error, whatever record it is at.
pub proof fn law_put_ends_on_failure_of_the_service(run: PutRunView, text: Seq<char>)
    requires
        run.done < run.total(),
    ensures
        run.on_reply(WriteReplyView::Failed(text)) == Err::<PutRunView, VssErrorView>(
            VssErrorView::InvalidRequestError("DynamoDB error: "@ + text),
        ),
{
}

/// The only record that a put request cannot act on is one to write from the last version there
/// is.
pub proof fn law_put_can_act_but_for_the_last_version(run: PutRunView)
    requires
        run.done <= run.total(),
    ensures
        !run.can_act() <==> run.done < run.puts.len() && run.puts[run.done as int].version
            == 0x7fff_ffff_ffff_ffff,
{
}


/// A put request takes its records in order, those to write before those to remove, and sends for
/// each the request of its version. It is finished when it has taken them all.
pub proof fn law_put_takes_its_records_in_order(run: PutRunView)
    ensures
        ({
            let writes = run.puts.len();
            let i = run.done as int;
            &&& i < writes ==> run.action() == PutActionView::Send(
                put_object_query(run.table_name, run.puts[i]),
            )
            &&& writes <= i < writes + run.deletes.len() ==> run.action() == PutActionView::Send(
                WriteView::Delete(delete_object_query(run.table_name, run.deletes[i - writes])),
            )
            &&& i >= writes + run.deletes.len() ==> run.action() == PutActionView::Finish(
                PutObjectResponse {  },
            )
        }),
{
}

/// A put request goes on to the next record where the service has done what it was sent, and
/// keeps all the rest as it is. A removal that removed nothing is a conflict, unless it was to be
/// done whatever was stored; so is a condition that did not hold.
pub proof fn law_put_goes_on_by_the_answer(
    run: PutRunView,
    old_attributes: bool,
    text: Seq<char>,
)
    requires
        run.done < run.puts.len() + run.deletes.len(),
    ensures
        ({
            let writes = run.puts.len();
            let i = run.done as int;
            let done = run.on_reply(WriteReplyView::Done { old_attributes });
            let refused = run.on_reply(WriteReplyView::ConditionFailed(text));
            let next = PutRunView {
                table_name: run.table_name,
                puts: run.puts,
                deletes: run.deletes,
                done: run.done + 1,
            };
            let service = VssErrorView::InvalidRequestError("DynamoDB error: "@ + text);
            if i < writes {
                &&& done == Ok::<PutRunView, VssErrorView>(next)
                &&& refused == Err::<PutRunView, VssErrorView>(
                    if run.puts[i].version == -1 {
                        service
                    } else if run.puts[i].version == 0 {
                        VssErrorView::ConflictError("Item already exists"@)
                    } else {
                        VssErrorView::ConflictError("Version mismatch"@)
                    },
                )
            } else {
                let conflict = VssErrorView::ConflictError(
                    "Transaction could not be completed due to a possible conflict"@,
                );
                let unconditional = run.deletes[i - writes].version == -1;
                &&& done == if old_attributes || unconditional {
                    Ok::<PutRunView, VssErrorView>(next)
                } else {
                    Err::<PutRunView, VssErrorView>(conflict)
                }
                &&& refused == Err::<PutRunView, VssErrorView>(
                    if unconditional {
                        service
                    } else {
                        conflict
                    },
                )
            }
        }),
{
}

} // verus!
