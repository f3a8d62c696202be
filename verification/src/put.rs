//! Carrying out a request that writes and removes several records, and one that removes one.
//!
//! The records are written one after another, then those to be removed are removed one after
//! another. The first that does not go through ends the request; what was done before it stays
//! done.

use crate::dynamodb_store::{
    delete_object_outcome, delete_object_query, next_version_fits, put_object_outcome,
    put_object_query, DynamoDbBackendImpl, MAX_PUT_REQUEST_ITEM_COUNT,
};
use crate::octets::empty_octets;
use crate::records::{build_vss_record, is_record_of, record_views, RecordView, VssDbRecord};
use crate::requests::{WriteReply, WriteReplyView, WriteRequest, WriteView};
use crate::text::{decimal, decimal_text};
use crate::types::{
    key_values, outcome, DeleteObjectRequest, DeleteObjectRequestView, DeleteObjectResponse,
    KeyValue, KeyValueView, PutObjectRequest, PutObjectRequestView, PutObjectResponse, VssError,
    VssErrorView, GLOBAL_VERSION_KEY, UNCONDITIONAL_VERSION,
};
use vstd::prelude::*;

verus! {

/// A put request under way: the records to write, then those to remove, and how many of them are
/// done.
pub struct PutRun {
    backend: DynamoDbBackendImpl,
    puts: Vec<VssDbRecord>,
    deletes: Vec<VssDbRecord>,
    done: usize,
}

pub struct PutRunView {
    pub table_name: Seq<char>,
    pub puts: Seq<RecordView>,
    pub deletes: Seq<RecordView>,
    pub done: nat,
}

impl View for PutRun {
    type V = PutRunView;

    closed spec fn view(&self) -> PutRunView {
        PutRunView {
            table_name: self.backend.table_name@,
            puts: record_views(self.puts@),
            deletes: record_views(self.deletes@),
            done: self.done as nat,
        }
    }
}

/// What to do next for a put request.
#[derive(Debug, PartialEq, Eq)]
pub enum PutAction {
    /// Send this, and hand the answer back.
    Send(WriteRequest),
    /// Every record is done, and this is the answer to the client.
    Finish(PutObjectResponse),
}

pub enum PutActionView {
    Send(WriteView),
    Finish(PutObjectResponse),
}

impl View for PutAction {
    type V = PutActionView;

    open spec fn view(&self) -> PutActionView {
        match self {
            PutAction::Send(request) => PutActionView::Send(request@),
            PutAction::Finish(response) => PutActionView::Finish(response@),
        }
    }
}

impl PutRunView {
    /// How many records there are, to write and to remove.
    pub open spec fn total(self) -> nat {
        self.puts.len() + self.deletes.len()
    }

    /// Whether the next record is one to write.
    pub open spec fn is_writing(self) -> bool {
        self.done < self.puts.len()
    }

    /// The next record.
    pub open spec fn current(self) -> RecordView {
        if self.is_writing() {
            self.puts[self.done as int]
        } else {
            self.deletes[self.done - self.puts.len()]
        }
    }

    /// Whether the next request can be formed: the only one that cannot is an update from the
    /// last version there is.
    pub open spec fn can_act(self) -> bool {
        self.is_writing() ==> next_version_fits(self.current())
    }

    /// What is to be done next.
    pub open spec fn action(self) -> PutActionView {
        if self.done >= self.total() {
            PutActionView::Finish(PutObjectResponse {  })
        } else if self.is_writing() {
            PutActionView::Send(put_object_query(self.table_name, self.current()))
        } else {
            PutActionView::Send(
                WriteView::Delete(delete_object_query(self.table_name, self.current())),
            )
        }
    }

    /// The request with the next record done.
    pub open spec fn advanced(self) -> PutRunView {
        PutRunView { done: self.done + 1, ..self }
    }

    /// What becomes of the request on an answer to what was sent.
    pub open spec fn on_reply(self, reply: WriteReplyView) -> Result<PutRunView, VssErrorView> {
        if self.is_writing() {
            match put_object_outcome(self.current(), reply) {
                Ok(_) => Ok(self.advanced()),
                Err(error) => Err(error),
            }
        } else {
            match delete_object_outcome(self.current(), reply) {
                Ok(deleted) => if !deleted && self.current().version != UNCONDITIONAL_VERSION {
                    Err(transaction_conflict())
                } else {
                    Ok(self.advanced())
                },
                Err(error) => Err(error),
            }
        }
    }
}

/// The error where a record to be removed was not there in the version that was asked for.
pub open spec fn transaction_conflict() -> VssErrorView {
    VssErrorView::ConflictError("Transaction could not be completed due to a possible conflict"@)
}

/// The error where a request has too many items.
pub open spec fn too_many_items() -> VssErrorView {
    VssErrorView::InvalidRequestError(
        "Number of write items per request should be less than equal to "@ + decimal(
            MAX_PUT_REQUEST_ITEM_COUNT as int,
        ),
    )
}

/// What a put request writes: its items, then the global version where it sets one.
pub open spec fn written_items(request: PutObjectRequestView) -> Seq<KeyValueView> {
    match request.global_version {
        Some(version) => request.transaction_items.push(
            KeyValueView { key: GLOBAL_VERSION_KEY@, value: Seq::empty(), version },
        ),
        None => request.transaction_items,
    }
}

/// The records are those for the items, in order, each made at some time.
pub open spec fn are_records_of(
    records: Seq<RecordView>,
    user_token: Seq<char>,
    store_id: Seq<char>,
    items: Seq<KeyValueView>,
) -> bool {
    &&& records.len() == items.len()
    &&& forall|i: int|
        0 <= i < items.len() ==> is_record_of(#[trigger] records[i], user_token, store_id, items[i])
}

/// How a put request begins: it is refused where it has too many items.
pub open spec fn put_begins(
    result: Result<PutRunView, VssErrorView>,
    table_name: Seq<char>,
    user_token: Seq<char>,
    request: PutObjectRequestView,
) -> bool {
    if request.transaction_items.len() + request.delete_items.len() > MAX_PUT_REQUEST_ITEM_COUNT {
        result == Err::<PutRunView, VssErrorView>(too_many_items())
    } else {
        result matches Ok(run) && is_begun(run, table_name, user_token, request)
    }
}

/// How a delete request begins: with the record to remove, or an error where it names none.
pub open spec fn delete_begins(
    result: Result<RecordView, VssErrorView>,
    user_token: Seq<char>,
    request: DeleteObjectRequestView,
) -> bool {
    match request.key_value {
        Some(kv) => result matches Ok(record) && is_record_of(
            record,
            user_token,
            request.store_id,
            kv,
        ),
        None => result == Err::<RecordView, VssErrorView>(
            VssErrorView::InvalidRequestError("key_value missing in DeleteObjectRequest"@),
        ),
    }
}

/// A put request that has just begun.
pub open spec fn is_begun(
    run: PutRunView,
    table_name: Seq<char>,
    user_token: Seq<char>,
    request: PutObjectRequestView,
) -> bool {
    &&& run.table_name == table_name
    &&& run.done == 0
    &&& are_records_of(run.puts, user_token, request.store_id, written_items(request))
    &&& are_records_of(run.deletes, user_token, request.store_id, request.delete_items)
}

impl PutRun {
    #[verifier::type_invariant]
    spec fn in_bounds(self) -> bool {
        &&& self.puts@.len() + self.deletes@.len() <= MAX_PUT_REQUEST_ITEM_COUNT + 1
        &&& self.done <= self.puts@.len() + self.deletes@.len()
    }

    /// Whether the next request can be formed.
    pub fn can_act(&self) -> (possible: bool)
        ensures
            possible == self@.can_act(),
    {
        if self.done < self.puts.len() {
            assert(self@.current() == self.puts@[self.done as int]@);
            self.puts[self.done].version < i64::MAX
        } else {
            true
        }
    }

    /// What to do next.
    pub fn action(&self) -> (action: PutAction)
        requires
            self@.can_act(),
        ensures
            action@ == self@.action(),
    {
        proof {
            use_type_invariant(self);
        }
        if self.done < self.puts.len() {
            assert(self@.current() == self.puts@[self.done as int]@);
            PutAction::Send(self.backend.put_object_request(&self.puts[self.done]))
        } else if self.done - self.puts.len() < self.deletes.len() {
            let i: usize = self.done - self.puts.len();
            assert(self@.current() == self.deletes@[i as int]@);
            PutAction::Send(WriteRequest::Delete(self.backend.delete_object_request(&self.deletes[i])))
        } else {
            PutAction::Finish(PutObjectResponse {  })
        }
    }

    /// Takes the answer to what was sent. Where the record did not go through, the request ends
    /// with the error, and there is nothing left to go on with.
    pub fn on_reply(self, reply: &WriteReply) -> (result: Result<PutRun, VssError>)
        requires
            self@.action() is Send,
        ensures
            outcome(result) == self@.on_reply(reply@),
    {
        proof {
            use_type_invariant(&self);
        }
        let PutRun { backend, puts, deletes, done } = self;
        if done < puts.len() {
            assert(self@.current() == puts@[done as int]@);
            match DynamoDbBackendImpl::put_object_result(&puts[done], reply) {
                Ok(_) => Ok(PutRun { backend, puts, deletes, done: done + 1 }),
                Err(error) => Err(error),
            }
        } else {
            let i: usize = done - puts.len();
            assert(self@.current() == deletes@[i as int]@);
            match DynamoDbBackendImpl::delete_object_result(&deletes[i], reply) {
                Ok(deleted) => {
                    if !deleted && deletes[i].version != UNCONDITIONAL_VERSION {
                        Err(
                            VssError::ConflictError(
                                "Transaction could not be completed due to a possible conflict".to_owned(),
                            ),
                        )
                    } else {
                        Ok(PutRun { backend, puts, deletes, done: done + 1 })
                    }
                },
                Err(error) => Err(error),
            }
        }
    }
}

/// The records for some items, in order.
fn build_records(user_token: &str, store_id: &str, items: Vec<KeyValue>) -> (records: Vec<
    VssDbRecord,
>)
    ensures
        are_records_of(record_views(records@), user_token@, store_id@, key_values(items@)),
{
    let ghost all = items@;
    let mut records: Vec<VssDbRecord> = Vec::new();
    for kv in iter: items
        invariant
            iter.seq() == all,
            records@.len() == iter.index(),
            forall|i: int|
                0 <= i < records@.len() ==> is_record_of(
                    #[trigger] records@[i]@,
                    user_token@,
                    store_id@,
                    all[i]@,
                ),
    {
        records.push(build_vss_record(user_token, store_id, kv));
    }
    assert forall|i: int| 0 <= i < key_values(all).len() implies is_record_of(
        #[trigger] record_views(records@)[i],
        user_token@,
        store_id@,
        key_values(all)[i],
    ) by {
        assert(is_record_of(records@[i]@, user_token@, store_id@, all[i]@));
    }
    records
}

impl DynamoDbBackendImpl {
    /// Begins a put request, or refuses it where it has too many items.
    pub fn begin_put(&self, user_token: &str, request: PutObjectRequest) -> (result: Result<
        PutRun,
        VssError,
    >)
        ensures
            request.transaction_items@.len() + request.delete_items@.len()
                > MAX_PUT_REQUEST_ITEM_COUNT ==> outcome(result) == Err::<PutRunView, VssErrorView>(
                too_many_items(),
            ),
            request.transaction_items@.len() + request.delete_items@.len()
                <= MAX_PUT_REQUEST_ITEM_COUNT ==> (result matches Ok(run) && is_begun(
                run@,
                self.table_name@,
                user_token@,
                request@,
            )),
            put_begins(outcome(result), self.table_name@, user_token@, request@),
    {
        let writes: usize = request.transaction_items.len();
        let removals: usize = request.delete_items.len();
        if writes > MAX_PUT_REQUEST_ITEM_COUNT || removals > MAX_PUT_REQUEST_ITEM_COUNT - writes {
            let mut message =
                "Number of write items per request should be less than equal to ".to_owned();
            message.append(decimal_text(MAX_PUT_REQUEST_ITEM_COUNT as i64).as_str());
            return Err(VssError::InvalidRequestError(message));
        }
        let ghost view = request@;
        let store_id = request.store_id;
        let mut puts = build_records(user_token, store_id.as_str(), request.transaction_items);
        let deletes = build_records(user_token, store_id.as_str(), request.delete_items);
        if let Some(version) = request.global_version {
            let ghost before = record_views(puts@);
            let kv = KeyValue {
                key: GLOBAL_VERSION_KEY.to_owned(),
                value: empty_octets(),
                version,
            };
            puts.push(build_vss_record(user_token, store_id.as_str(), kv));
            assert(record_views(puts@) =~= before.push(puts@.last()@));
        }
        assert(are_records_of(record_views(puts@), user_token@, view.store_id, written_items(view)));
        let backend = DynamoDbBackendImpl::new(self.table_name.clone());
        Ok(PutRun { backend, puts, deletes, done: 0 })
    }

    /// The record that a request asks to remove; an error where it names none.
    pub fn begin_delete(user_token: &str, request: DeleteObjectRequest) -> (result: Result<
        VssDbRecord,
        VssError,
    >)
        ensures
            match request.key_value {
                Some(kv) => result matches Ok(record) && is_record_of(
                    record@,
                    user_token@,
                    request.store_id@,
                    kv@,
                ),
                None => outcome(result) == Err::<RecordView, VssErrorView>(
                    VssErrorView::InvalidRequestError("key_value missing in DeleteObjectRequest"@),
                ),
            },
            delete_begins(outcome(result), user_token@, request@),
    {
        match request.key_value {
            Some(kv) => Ok(build_vss_record(user_token, request.store_id.as_str(), kv)),
            None => Err(
                VssError::InvalidRequestError(
                    "key_value missing in DeleteObjectRequest".to_owned(),
                ),
            ),
        }
    }

    /// What a client that asked for a record to be removed is answered: it is told of an error of
    /// the service, and not whether there was a record to remove.
    pub fn delete_result(record: &VssDbRecord, reply: &WriteReply) -> (result: Result<
        DeleteObjectResponse,
        VssError,
    >)
        ensures
            outcome(result) == delete_outcome(record@, reply@),
    {
        match Self::delete_object_result(record, reply) {
            Ok(_) => Ok(DeleteObjectResponse {  }),
            Err(error) => Err(error),
        }
    }
}

pub open spec fn delete_outcome(record: RecordView, reply: WriteReplyView) -> Result<
    DeleteObjectResponse,
    VssErrorView,
> {
    match delete_object_outcome(record, reply) {
        Ok(_) => Ok(DeleteObjectResponse {  }),
        Err(error) => Err(error),
    }
}


/// What to do next for a put request is seen with all that it says.
pub proof fn law_put_action_is_seen_whole(request: WriteRequest, response: PutObjectResponse)
    ensures
        PutAction::Send(request)@ == PutActionView::Send(request@),
        PutAction::Finish(response)@ == PutActionView::Finish(response),
{
}

} // verus!
