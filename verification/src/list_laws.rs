//! What a page of keys shows.

use crate::dynamodb_store::{get_outcome, get_query, LIST_KEY_VERSIONS_MAX_PAGE_SIZE};
use crate::items::{AttributeView, ItemView};
use crate::list::{
    global_version_outcome, listed, page_limit, page_outcome, page_query, shown, without_value,
    ListActionView, ListRunView,
};
use crate::records::{
    item_version, key_item, key_value_of, law_key_item_is_namespace_and_key,
    law_namespace_holds_user_and_store, namespace_of, text_attribute,
};
use crate::requests::{GetReplyView, QueryReplyView, QueryView};
use crate::table::{
    answer, answer_in, is_record_item, is_record_table, item_at, law_read_gives_what_is_stored,
    read_in, Place, TableView, Tables,
};
use crate::text::{comes_before, lemma_before_is_transitive, lemma_not_before_itself};
use crate::types::{
    GetObjectRequestView, KeyValueView, ListKeyVersionsRequestView, ListKeyVersionsResponseView,
    VssErrorView, GLOBAL_VERSION_KEY,
};
use vstd::prelude::*;

verus! {

/// Whether an item is one that pages show: not the global version.
pub open spec fn is_shown() -> spec_fn(ItemView) -> bool {
    |item: ItemView| text_attribute(item, "key"@) != Some(GLOBAL_VERSION_KEY@)
}

/// What a page says of an item.
pub open spec fn entry() -> spec_fn(ItemView) -> KeyValueView {
    |item: ItemView|
        KeyValueView {
            key: text_attribute(item, "key"@)->0,
            value: Seq::empty(),
            version: item_version(item),
        }
}

/// Whether every item has a key.
pub open spec fn have_keys(items: Seq<ItemView>) -> bool {
    forall|i: int| 0 <= i < items.len() ==> text_attribute(#[trigger] items[i], "key"@) is Some
}

/// A page shows the key and the version of every item, in order, but for the global version. It
/// is refused exactly where an item has no key.
pub proof fn law_page_shows_every_record_in_order(items: Seq<ItemView>)
    ensures
        have_keys(items) ==> listed(items) == Ok::<Seq<KeyValueView>, VssErrorView>(
            items.filter(is_shown()).map_values(entry()),
        ),
        !have_keys(items) ==> listed(items) == Err::<Seq<KeyValueView>, VssErrorView>(
            VssErrorView::InvalidRequestError("Missing key in DynamoDB item"@),
        ),
    decreases items.len(),
{
    reveal(Seq::filter);
    let page = items.filter(is_shown()).map_values(entry());
    if items.len() == 0 {
        assert(page =~= Seq::<KeyValueView>::empty());
    } else {
        let before = items.drop_last();
        law_page_shows_every_record_in_order(before);
        if have_keys(items) {
            assert forall|i: int| 0 <= i < before.len() implies text_attribute(
                #[trigger] before[i],
                "key"@,
            ) is Some by {
                assert(text_attribute(items[i], "key"@) is Some);
            }
            assert(text_attribute(items[items.len() - 1], "key"@) is Some);
            if is_shown()(items.last()) {
                assert(page =~= before.filter(is_shown()).map_values(entry()).push(
                    entry()(items.last()),
                ));
            }
        } else if have_keys(before) {
            let i = choose|i: int|
                0 <= i < items.len() && text_attribute(#[trigger] items[i], "key"@) is None;
            if i < before.len() {
                assert(text_attribute(before[i], "key"@) is Some);
            }
        }
    }
}

/// A page has no more entries than items that it was made from; none of them is the global
/// version, and none carries a value.
proof fn lemma_listed_entries(items: Seq<ItemView>)
    requires
        listed(items) is Ok,
    ensures
        listed(items)->Ok_0.len() <= items.len(),
        forall|i: int|
            0 <= i < listed(items)->Ok_0.len() ==> (#[trigger] listed(items)->Ok_0[i]).value.len()
                == 0 && listed(items)->Ok_0[i].key != GLOBAL_VERSION_KEY@,
    decreases items.len(),
{
    if items.len() > 0 {
        lemma_listed_entries(items.drop_last());
    }
}

/// A page never has more entries than was asked for, nor more than the largest page; none of them
/// is the global version, and none carries a value.
///
/// A page size below zero is left out: no page is that small, and the service refuses to be asked
/// for it.
pub proof fn law_page_is_bounded(
    page_size: Option<i32>,
    global_version: Option<i64>,
    reply: QueryReplyView,
)
    requires
        page_size matches Some(size) ==> size >= 0,
        page_outcome(page_size, global_version, reply) is Ok,
    ensures
        ({
            let page = page_outcome(page_size, global_version, reply)->Ok_0;
            &&& page.key_versions.len() <= LIST_KEY_VERSIONS_MAX_PAGE_SIZE
            &&& page_size matches Some(size) ==> page.key_versions.len() <= size
            &&& page.global_version == global_version
            &&& forall|i: int|
                0 <= i < page.key_versions.len() ==> (#[trigger] page.key_versions[i]).value.len()
                    == 0 && page.key_versions[i].key != GLOBAL_VERSION_KEY@
        }),
{
    let items = shown(reply->Page_0, page_limit(page_size));
    lemma_listed_entries(items);
}

/// Where the records of a store fit on one page, that page shows them all, in order, and says
/// that there is no further one: by the empty token, or by no token where it shows nothing.
pub proof fn law_one_page_shows_all(
    page_size: Option<i32>,
    global_version: Option<i64>,
    items: Seq<ItemView>,
)
    requires
        items.len() <= page_limit(page_size),
        have_keys(items),
    ensures
        ({
            let entries = items.filter(is_shown()).map_values(entry());
            page_outcome(page_size, global_version, QueryReplyView::Page(items)) == Ok::<
                ListKeyVersionsResponseView,
                VssErrorView,
            >(
                ListKeyVersionsResponseView {
                    key_versions: entries,
                    next_page_token: if entries.len() > 0 {
                        Some(Seq::empty())
                    } else {
                        None
                    },
                    global_version,
                },
            )
        }),
{
    law_page_shows_every_record_in_order(items);
}

/// Where there are more records than a page shows, the token that it gives is the key of the
/// first that it does not show, and the query for the page of that token begins after that
/// record.
pub proof fn law_token_leads_past_first_unshown_record(
    table_name: Seq<char>,
    user_token: Seq<char>,
    request: ListKeyVersionsRequestView,
    global_version: Option<i64>,
    items: Seq<ItemView>,
)
    requires
        0 <= page_limit(request.page_size) < items.len(),
        have_keys(items),
    ensures
        ({
            let limit = page_limit(request.page_size);
            let page = page_outcome(
                request.page_size,
                global_version,
                QueryReplyView::Page(items),
            );
            let first_unshown = text_attribute(items[limit], "key"@)->0;
            let following = page_query(
                table_name,
                user_token,
                ListKeyVersionsRequestView { page_token: page->Ok_0.next_page_token, ..request },
            );
            &&& page is Ok
            &&& page->Ok_0.key_versions == items.take(limit).filter(is_shown()).map_values(entry())
            &&& page->Ok_0.next_page_token == Some(first_unshown)
            &&& following.exclusive_start_key == Some(
                key_item(namespace_of(user_token, request.store_id), first_unshown),
            )
        }),
{
    let limit = page_limit(request.page_size);
    let front = items.take(limit);
    assert forall|i: int| 0 <= i < front.len() implies text_attribute(
        #[trigger] front[i],
        "key"@,
    ) is Some by {
        assert(text_attribute(items[i], "key"@) is Some);
    }
    law_page_shows_every_record_in_order(front);
    assert(text_attribute(items[limit], "key"@) is Some);
}

/// The key of an item.
pub open spec fn key_of(item: ItemView) -> Seq<char> {
    text_attribute(item, "key"@)->0
}

/// Whether items answer a query in order: each has a key, the keys ascend, and they come after the
/// key that the query starts from.
pub open spec fn answers_in_order(query: QueryView, items: Seq<ItemView>) -> bool {
    &&& have_keys(items)
    &&& forall|i: int, j: int|
        0 <= i < j < items.len() ==> comes_before(
            key_of(#[trigger] items[i]),
            key_of(#[trigger] items[j]),
        )
    &&& query.exclusive_start_key matches Some(start) ==> forall|i: int|
        0 <= i < items.len() ==> comes_before(key_of(start), key_of(#[trigger] items[i]))
}

/// Whether the keys of the entries ascend.
pub open spec fn ascend(entries: Seq<KeyValueView>) -> bool {
    forall|i: int, j: int|
        0 <= i < j < entries.len() ==> comes_before(
            (#[trigger] entries[i]).key,
            (#[trigger] entries[j]).key,
        )
}

/// A page of items whose keys ascend has entries whose keys ascend.
proof fn lemma_listed_ascend(items: Seq<ItemView>)
    requires
        listed(items) is Ok,
        forall|i: int, j: int|
            0 <= i < j < items.len() ==> comes_before(
                key_of(#[trigger] items[i]),
                key_of(#[trigger] items[j]),
            ),
    ensures
        ascend(listed(items)->Ok_0),
    decreases items.len(),
{
    if items.len() > 0 {
        let before = items.drop_last();
        let entries = listed(items)->Ok_0;
        let earlier = listed(before)->Ok_0;
        lemma_listed_ascend(before);
        assert forall|i: int, j: int| 0 <= i < j < entries.len() implies comes_before(
            (#[trigger] entries[i]).key,
            (#[trigger] entries[j]).key,
        ) by {
            assert(entries[i] == earlier[i]);
            if j < earlier.len() {
                assert(entries[j] == earlier[j]);
            } else {
                let n = lemma_entry_has_item(before, i);
                assert(comes_before(key_of(items[n]), key_of(items[items.len() - 1])));
            }
        }
    }
}

/// Two consecutive pages, of a store of which the service answers the queries in the order of the
/// keys: the keys of the first page come before its token and those of the second after it, so
/// that over both the keys ascend and none comes twice.
pub proof fn law_consecutive_pages_do_not_overlap(
    table_name: Seq<char>,
    user_token: Seq<char>,
    request: ListKeyVersionsRequestView,
    first_version: Option<i64>,
    second_version: Option<i64>,
    first_items: Seq<ItemView>,
    second_items: Seq<ItemView>,
)
    requires
        0 <= page_limit(request.page_size) < first_items.len(),
        answers_in_order(page_query(table_name, user_token, request), first_items),
        ({
            let token = page_outcome(
                request.page_size,
                first_version,
                QueryReplyView::Page(first_items),
            )->Ok_0.next_page_token;
            answers_in_order(
                page_query(
                    table_name,
                    user_token,
                    ListKeyVersionsRequestView { page_token: token, ..request },
                ),
                second_items,
            )
        }),
    ensures
        ({
            let first = page_outcome(
                request.page_size,
                first_version,
                QueryReplyView::Page(first_items),
            );
            let second = page_outcome(
                request.page_size,
                second_version,
                QueryReplyView::Page(second_items),
            );
            let token = first->Ok_0.next_page_token->0;
            let entries = first->Ok_0.key_versions + second->Ok_0.key_versions;
            &&& first is Ok
            &&& first->Ok_0.next_page_token is Some
            &&& second is Ok
            &&& forall|i: int|
                0 <= i < first->Ok_0.key_versions.len() ==> comes_before(
                    (#[trigger] first->Ok_0.key_versions[i]).key,
                    token,
                )
            &&& forall|i: int|
                0 <= i < second->Ok_0.key_versions.len() ==> comes_before(
                    token,
                    (#[trigger] second->Ok_0.key_versions[i]).key,
                )
            &&& ascend(entries)
            &&& forall|i: int, j: int|
                0 <= i < j < entries.len() ==> (#[trigger] entries[i]).key != (
                #[trigger] entries[j]).key
        }),
{
    let limit = page_limit(request.page_size);
    let front = shown(first_items, limit);
    let back = shown(second_items, limit);
    let token = key_of(first_items[limit]);
    law_token_leads_past_first_unshown_record(
        table_name,
        user_token,
        request,
        first_version,
        first_items,
    );
    assert forall|i: int| 0 <= i < back.len() implies text_attribute(
        #[trigger] back[i],
        "key"@,
    ) is Some by {
        assert(text_attribute(second_items[i], "key"@) is Some);
    }
    law_page_shows_every_record_in_order(back);
    law_page_shows_every_record_in_order(front);
    let first = listed(front)->Ok_0;
    let second = listed(back)->Ok_0;
    lemma_listed_ascend(front);
    lemma_listed_ascend(back);
    assert forall|i: int| 0 <= i < first.len() implies comes_before(
        (#[trigger] first[i]).key,
        token,
    ) by {
        let n = lemma_entry_has_item(front, i);
        assert(comes_before(key_of(first_items[n]), key_of(first_items[limit])));
    }
    assert forall|i: int| 0 <= i < second.len() implies comes_before(
        token,
        (#[trigger] second[i]).key,
    ) by {
        let n = lemma_entry_has_item(back, i);
        let start = key_item(namespace_of(user_token, request.store_id), token);
        assert(key_of(start) == token);
        assert(comes_before(token, key_of(second_items[n])));
    }
    let entries = first + second;
    assert forall|i: int, j: int| 0 <= i < j < entries.len() implies comes_before(
        (#[trigger] entries[i]).key,
        (#[trigger] entries[j]).key,
    ) && entries[i].key != entries[j].key by {
        if j < first.len() {
            assert(comes_before(first[i].key, first[j].key));
        } else if i >= first.len() {
            assert(comes_before(second[i - first.len()].key, second[j - first.len()].key));
        } else {
            assert(comes_before(first[i].key, token));
            assert(comes_before(token, second[j - first.len()].key));
            lemma_before_is_transitive(first[i].key, token, second[j - first.len()].key);
        }
        lemma_not_before_itself(entries[i].key);
    }
}

/// Records of the store have keys, so that no page of them is refused.
pub proof fn law_page_of_records_is_not_refused(
    page_size: Option<i32>,
    global_version: Option<i64>,
    items: Seq<ItemView>,
    places: Seq<Place>,
)
    requires
        places.len() == items.len(),
        forall|i: int| 0 <= i < items.len() ==> is_record_item(#[trigger] items[i], places[i]),
    ensures
        page_outcome(page_size, global_version, QueryReplyView::Page(items)) is Ok,
{
    let front = shown(items, page_limit(page_size));
    assert forall|i: int| 0 <= i < front.len() implies text_attribute(
        #[trigger] front[i],
        "key"@,
    ) is Some by {
        assert(is_record_item(items[i], places[i]));
    }
    law_page_shows_every_record_in_order(front);
}

/// A page agrees with what is read key by key: of the records of a store that it was made from,
/// each entry has the version in which its key is read.
pub proof fn law_page_agrees_with_reads(
    table_name: Seq<char>,
    table: TableView,
    user_token: Seq<char>,
    request: ListKeyVersionsRequestView,
    global_version: Option<i64>,
    items: Seq<ItemView>,
    i: int,
)
    requires
        is_record_table(table),
        forall|j: int|
            0 <= j < items.len() ==> is_item_of(
                table,
                namespace_of(user_token, request.store_id),
                #[trigger] items[j],
            ),
        page_outcome(request.page_size, global_version, QueryReplyView::Page(items)) matches Ok(
            page,
        ) && 0 <= i < page.key_versions.len(),
    ensures
        ({
            let page = page_outcome(
                request.page_size,
                global_version,
                QueryReplyView::Page(items),
            )->Ok_0;
            let found = page.key_versions[i];
            let read = answer(table_name, table, user_token, request.store_id, found.key);
            read matches Ok(response) && response.value is Some && response.value->0.key
                == found.key && response.value->0.version == found.version
        }),
{
    let namespace = namespace_of(user_token, request.store_id);
    let front = shown(items, page_limit(request.page_size));
    assert forall|j: int| 0 <= j < front.len() implies is_item_of(
        table,
        namespace,
        #[trigger] front[j],
    ) by {
        assert(is_item_of(table, namespace, items[j]));
    }
    let j = lemma_entry_has_item(front, i);
    assert(is_item_of(table, namespace, front[j]));
    law_read_gives_what_is_stored(
        table_name,
        table,
        user_token,
        GetObjectRequestView { store_id: request.store_id, key: listed(front)->Ok_0[i].key },
    );
}

/// Whether an item is stored in a namespace, under its own key.
pub open spec fn is_item_of(table: TableView, namespace: Seq<char>, item: ItemView) -> bool {
    text_attribute(item, "key"@) matches Some(key) && item_at(table, (namespace, key)) == Some(item)
}

/// Every entry of a page is made from one of the items.
proof fn lemma_entry_has_item(items: Seq<ItemView>, i: int) -> (n: int)
    requires
        listed(items) is Ok,
        0 <= i < listed(items)->Ok_0.len(),
    ensures
        0 <= n < items.len(),
        key_value_of(items[n]) is Ok,
        without_value(key_value_of(items[n])->Ok_0) == listed(items)->Ok_0[i],
    decreases items.len(),
{
    let before = items.drop_last();
    if i < listed(before)->Ok_0.len() {
        lemma_entry_has_item(before, i)
    } else {
        items.len() - 1
    }
}

/// The first page of a listing reads the global version and shows it; a page that is asked for by
/// a token does neither.
pub proof fn law_global_version_on_first_page_only(
    table_name: Seq<char>,
    user_token: Seq<char>,
    request: ListKeyVersionsRequestView,
    version: GetReplyView,
    reply: QueryReplyView,
)
    ensures
        ({
            let begun = ListRunView::begun(table_name, user_token, request);
            if request.page_token is None {
                &&& begun.action() is GetGlobalVersion
                &&& begun.on_global_version(version) matches Ok(run) ==> {
                    &&& run.action() is Query
                    &&& run.on_page(reply) matches Ok(page) ==> page.global_version is Some
                        && Ok::<i64, VssErrorView>(page.global_version->0)
                        == global_version_outcome(version)
                }
            } else {
                &&& begun.action() is Query
                &&& begun.on_page(reply) matches Ok(page) ==> page.global_version is None
            }
        }),
{
}

// ---------------------------------------------------------------------------------------------
// What a page is asked for by, and what it is made of
// ---------------------------------------------------------------------------------------------

/// How many records a page that is asked for in a size shows at most: that many, and a hundred
/// where none is asked for or more are.
pub proof fn law_page_shows_up_to_a_hundred(size: i32)
    ensures
        page_limit(None) == 100,
        size <= 100 ==> page_limit(Some(size)) == size,
        size > 100 ==> page_limit(Some(size)) == 100,
{
}

/// The query for a page, of whatever page and prefix, is for the namespace of the user's store in
/// the table of the backend, and for one item more than the page shows. It leaves out the keys up
/// to the token, exactly where there is one, and those without the prefix, exactly where there is
/// one.
pub proof fn law_page_query_asks_for_one_more_than_is_shown(
    table_name: Seq<char>,
    user_token: Seq<char>,
    request: ListKeyVersionsRequestView,
)
    ensures
        ({
            let query = page_query(table_name, user_token, request);
            let namespace = user_token + seq!['#'] + request.store_id;
            let names = query.expression_attribute_names;
            let values = query.expression_attribute_values;
            &&& query.table_name == table_name
            &&& query.limit == 1 + match request.page_size {
                Some(size) => if size <= 100 {
                    size as int
                } else {
                    100
                },
                None => 100,
            }
            &&& query.key_condition_expression == "#namespace = :namespace"@
            &&& names["#namespace"@] == "namespace"@
            &&& values[":namespace"@] == AttributeView::S(namespace)
            &&& request.page_token is None ==> query.exclusive_start_key is None
            &&& request.page_token matches Some(token) ==> query.exclusive_start_key == Some(
                key_item(namespace, token),
            )
            &&& request.key_prefix is None ==> {
                &&& query.filter_expression is None
                &&& names.dom() == set!["#namespace"@]
                &&& values.dom() == set![":namespace"@]
            }
            &&& request.key_prefix matches Some(prefix) ==> {
                &&& query.filter_expression == Some("begins_with(#key, :key_prefix)"@)
                &&& names.dom() == set!["#namespace"@, "#key"@]
                &&& names["#key"@] == "key"@
                &&& values.dom() == set![":namespace"@, ":key_prefix"@]
                &&& values[":key_prefix"@] == AttributeView::S(prefix)
            }
        }),
{
    reveal_strlit("#namespace");
    reveal_strlit("#key");
    reveal_strlit(":namespace");
    reveal_strlit(":key_prefix");
    assert("#namespace"@.len() != "#key"@.len());
    assert(":namespace"@.len() != ":key_prefix"@.len());
    law_namespace_holds_user_and_store(user_token, request.store_id);
    let query = page_query(table_name, user_token, request);
    let names = query.expression_attribute_names;
    let values = query.expression_attribute_values;
    if request.key_prefix is None {
        assert(names.dom() =~= set!["#namespace"@]);
        assert(values.dom() =~= set![":namespace"@]);
    } else {
        assert(names.dom() =~= set!["#namespace"@, "#key"@]);
        assert(values.dom() =~= set![":namespace"@, ":key_prefix"@]);
    }
}

/// A page is made of the items that the service answered with: the first of them, as many as it
/// shows, and the key of the one after these as its token. Where there is none after these, the
/// token is empty if the page is not, and there is no token if it is. A size below zero cuts
/// nothing off. The page is refused where one of the first items has no key, and where the service
/// failed.
pub proof fn law_page_is_made_of_the_first_items(
    page_size: Option<i32>,
    global_version: Option<i64>,
    items: Seq<ItemView>,
    text: Seq<char>,
)
    ensures
        ({
            let result = page_outcome(page_size, global_version, QueryReplyView::Page(items));
            let number = match page_size {
                Some(size) => if size <= 100 {
                    size as int
                } else {
                    100
                },
                None => 100,
            };
            let more = 0 <= number < items.len();
            let front = if more {
                items.take(number)
            } else {
                items
            };
            let entries = front.filter(is_shown()).map_values(entry());
            if have_keys(front) {
                &&& result is Ok
                &&& result->Ok_0.key_versions == entries
                &&& result->Ok_0.global_version == global_version
                &&& result->Ok_0.next_page_token == if more && text_attribute(
                    items[number],
                    "key"@,
                ) is Some {
                    text_attribute(items[number], "key"@)
                } else if entries.len() > 0 {
                    Some(Seq::<char>::empty())
                } else {
                    None
                }
            } else {
                result == Err::<ListKeyVersionsResponseView, VssErrorView>(
                    VssErrorView::InvalidRequestError("Missing key in DynamoDB item"@),
                )
            }
        }),
        page_outcome(page_size, global_version, QueryReplyView::Failed(text)) == Err::<
            ListKeyVersionsResponseView,
            VssErrorView,
        >(VssErrorView::InvalidRequestError("DynamoDB error: "@ + text)),
{
    law_page_shows_every_record_in_order(shown(items, page_limit(page_size)));
}

/// The steps of a listing. For the first page the global version of the user's store is read from
/// the table of the backend, and then the page; for a page that is asked for by a token, the page
/// alone. The page is that of the request, with the global version that was read, if one was.
pub proof fn law_listing_takes_its_steps(
    table_name: Seq<char>,
    user_token: Seq<char>,
    request: ListKeyVersionsRequestView,
    version: GetReplyView,
    reply: QueryReplyView,
)
    ensures
        ({
            let begun = ListRunView::begun(table_name, user_token, request);
            let query = page_query(table_name, user_token, request);
            let asked = GetObjectRequestView {
                store_id: request.store_id,
                key: "global_version"@,
            };
            if request.page_token is None {
                &&& begun.action() == ListActionView::GetGlobalVersion(
                    get_query(table_name, user_token, asked),
                )
                &&& match get_outcome("global_version"@, version) {
                    Ok(response) => {
                        let next = begun.on_global_version(version);
                        &&& next is Ok
                        &&& next->Ok_0.action() == ListActionView::Query(query)
                        &&& next->Ok_0.on_page(reply) == page_outcome(
                            request.page_size,
                            Some(response.value->0.version),
                            reply,
                        )
                    },
                    Err(error) => begun.on_global_version(version) == Err::<
                        ListRunView,
                        VssErrorView,
                    >(error),
                }
            } else {
                &&& begun.action() == ListActionView::Query(query)
                &&& begun.on_page(reply) == page_outcome(request.page_size, None, reply)
            }
        }),
{
}

// ---------------------------------------------------------------------------------------------
// Pages of a table
// ---------------------------------------------------------------------------------------------

/// Whether a query is about the item at a place: it is in the namespace that the query gives, and
/// after the key that the query starts from.
pub open spec fn selects(query: QueryView, place: Place) -> bool {
    &&& query.key_condition_expression == "#namespace = :namespace"@
    &&& query.expression_attribute_names["#namespace"@] == "namespace"@
    &&& query.expression_attribute_values[":namespace"@] == AttributeView::S(place.0)
    &&& query.exclusive_start_key matches Some(start) ==> comes_before(key_of(start), place.1)
}

/// Whether an item passes the filter of a query.
pub open spec fn passes(query: QueryView) -> spec_fn(ItemView) -> bool {
    |item: ItemView|
        query.filter_expression matches Some(filter) ==> {
            &&& filter == "begins_with(#key, :key_prefix)"@
            &&& query.expression_attribute_names["#key"@] == "key"@
            &&& query.expression_attribute_values[":key_prefix"@] matches AttributeView::S(prefix)
                && prefix.is_prefix_of(key_of(item))
        }
}

/// Whether items are those of a table that a query is about: all of them, each under its own key,
/// in the order of the keys.
pub open spec fn are_selected(table: TableView, query: QueryView, items: Seq<ItemView>) -> bool {
    let namespace = query.expression_attribute_values[":namespace"@]->S_0;
    &&& answers_in_order(query, items)
    &&& forall|i: int|
        0 <= i < items.len() ==> is_item_of(table, namespace, #[trigger] items[i]) && selects(
            query,
            (namespace, key_of(items[i])),
        )
    &&& forall|place: Place| #[trigger]
        table.contains_key(place) && selects(query, place) ==> items.contains(table[place])
}

/// What the service answers a query with, out of the items that it is about: of the first ones, as
/// many as the limit says, those that pass the filter.
pub open spec fn service_answer(query: QueryView, items: Seq<ItemView>) -> Seq<ItemView> {
    let first = if 0 <= query.limit < items.len() {
        items.take(query.limit)
    } else {
        items
    };
    first.filter(passes(query))
}

/// What passes a filter was there before it.
proof fn lemma_filtered_was_there(
    items: Seq<ItemView>,
    pred: spec_fn(ItemView) -> bool,
    i: int,
) -> (n: int)
    requires
        0 <= i < items.filter(pred).len(),
    ensures
        0 <= n < items.len(),
        items[n] == items.filter(pred)[i],
        pred(items[n]),
    decreases items.len(),
{
    reveal(Seq::filter);
    let before = items.drop_last();
    if i < before.filter(pred).len() {
        let n = lemma_filtered_was_there(before, pred, i);
        assert(items[n] == before[n]);
        n
    } else {
        items.len() - 1
    }
}

/// A filter that all pass leaves all.
proof fn lemma_all_pass(items: Seq<ItemView>, pred: spec_fn(ItemView) -> bool)
    requires
        forall|i: int| 0 <= i < items.len() ==> pred(#[trigger] items[i]),
    ensures
        items.filter(pred) == items,
    decreases items.len(),
{
    reveal(Seq::filter);
    if items.len() > 0 {
        let before = items.drop_last();
        assert forall|i: int| 0 <= i < before.len() implies pred(#[trigger] before[i]) by {
            assert(pred(items[i]));
        }
        lemma_all_pass(before, pred);
        assert(pred(items[items.len() - 1]));
        assert(before.push(items.last()) =~= items);
    } else {
        assert(items.filter(pred) =~= items);
    }
}

/// A page shows nothing but what was asked for: each entry is of a record of the user's store, in
/// the version in which it is stored, after the token where there is one, with the prefix where
/// there is one, and not of the global version; and it carries no value.
pub proof fn law_page_shows_only_what_is_asked_for(
    table_name: Seq<char>,
    table: TableView,
    user_token: Seq<char>,
    request: ListKeyVersionsRequestView,
    global_version: Option<i64>,
    items: Seq<ItemView>,
    i: int,
)
    requires
        are_selected(table, page_query(table_name, user_token, request), items),
        ({
            let answer = service_answer(page_query(table_name, user_token, request), items);
            let page = page_outcome(
                request.page_size,
                global_version,
                QueryReplyView::Page(answer),
            );
            page is Ok && 0 <= i < page->Ok_0.key_versions.len()
        }),
    ensures
        ({
            let answer = service_answer(page_query(table_name, user_token, request), items);
            let page = page_outcome(
                request.page_size,
                global_version,
                QueryReplyView::Page(answer),
            )->Ok_0;
            let found = page.key_versions[i];
            let place = (user_token + seq!['#'] + request.store_id, found.key);
            &&& table.contains_key(place)
            &&& found.version == item_version(table[place])
            &&& found.value.len() == 0
            &&& found.key != "global_version"@
            &&& request.page_token matches Some(token) ==> comes_before(token, found.key)
            &&& request.key_prefix matches Some(prefix) ==> prefix.is_prefix_of(found.key)
        }),
{
    let query = page_query(table_name, user_token, request);
    let answer = service_answer(query, items);
    let first = if 0 <= query.limit < items.len() {
        items.take(query.limit)
    } else {
        items
    };
    let front = shown(answer, page_limit(request.page_size));
    law_page_query_asks_for_one_more_than_is_shown(table_name, user_token, request);
    lemma_listed_entries(front);
    let n = lemma_entry_has_item(front, i);
    assert(front[n] == answer[n]);
    let m = lemma_filtered_was_there(first, passes(query), n);
    assert(first[m] == items[m]);
    assert(passes(query)(items[m]));
    let namespace = user_token + seq!['#'] + request.store_id;
    assert(is_item_of(table, namespace, items[m]));
    assert(listed(front)->Ok_0[i].key != GLOBAL_VERSION_KEY@);
    if request.page_token is Some {
        law_key_item_is_namespace_and_key(namespace, request.page_token->0);
        assert(comes_before(request.page_token->0, key_of(items[m])));
    }
}

/// Nothing is left out where a page says that there is no further one. Every record of the user's
/// store that comes after the token, if there is one, is either shown on the page, or is the one
/// that the page gives as its token, or comes after that one; so that where the token that the
/// page gives is empty, or there is none, every record is shown. The global version is on no page.
///
/// The listing is one without a prefix, for the service counts what a prefix leaves out. No key is
/// empty: the service has none that is.
pub proof fn law_last_page_leaves_nothing_out(
    table_name: Seq<char>,
    table: TableView,
    user_token: Seq<char>,
    request: ListKeyVersionsRequestView,
    global_version: Option<i64>,
    items: Seq<ItemView>,
    key: Seq<char>,
)
    requires
        request.key_prefix is None,
        request.page_size matches Some(size) ==> size >= 0,
        are_selected(table, page_query(table_name, user_token, request), items),
        forall|i: int| 0 <= i < items.len() ==> key_of(#[trigger] items[i]).len() > 0,
        key != "global_version"@,
        table.contains_key((user_token + seq!['#'] + request.store_id, key)),
        text_attribute(
            table[(user_token + seq!['#'] + request.store_id, key)],
            "key"@,
        ) == Some(key),
        request.page_token matches Some(token) ==> comes_before(token, key),
    ensures
        ({
            let answer = service_answer(page_query(table_name, user_token, request), items);
            let page = page_outcome(
                request.page_size,
                global_version,
                QueryReplyView::Page(answer),
            );
            let item = table[(user_token + seq!['#'] + request.store_id, key)];
            let entry = KeyValueView {
                key,
                value: Seq::<u8>::empty(),
                version: item_version(item),
            };
            &&& page is Ok
            &&& page->Ok_0.key_versions.contains(entry) || (
            page->Ok_0.next_page_token matches Some(token) && token.len() > 0 && (token == key
                || comes_before(token, key)))
        }),
{
    let query = page_query(table_name, user_token, request);
    let namespace = user_token + seq!['#'] + request.store_id;
    let place = (namespace, key);
    let item = table[place];
    let limit = page_limit(request.page_size);
    law_page_query_asks_for_one_more_than_is_shown(table_name, user_token, request);
    if request.page_token is Some {
        law_key_item_is_namespace_and_key(namespace, request.page_token->0);
    }
    let first = if 0 <= query.limit < items.len() {
        items.take(query.limit)
    } else {
        items
    };
    assert forall|i: int| 0 <= i < first.len() implies passes(query)(#[trigger] first[i]) by {}
    lemma_all_pass(first, passes(query));
    let answer = service_answer(query, items);
    assert(answer == first);
    assert(have_keys(answer)) by {
        assert forall|i: int| 0 <= i < answer.len() implies text_attribute(
            #[trigger] answer[i],
            "key"@,
        ) is Some by {
            assert(text_attribute(items[i], "key"@) is Some);
        }
    }
    let front = shown(answer, limit);
    assert(have_keys(front)) by {
        assert forall|i: int| 0 <= i < front.len() implies text_attribute(
            #[trigger] front[i],
            "key"@,
        ) is Some by {
            assert(text_attribute(answer[i], "key"@) is Some);
        }
    }
    law_page_is_made_of_the_first_items(request.page_size, global_version, answer, Seq::empty());
    law_page_shows_every_record_in_order(front);
    assert(selects(query, place));
    assert(items.contains(item));
    let n = choose|n: int| 0 <= n < items.len() && items[n] == item;
    if limit < items.len() && n >= limit {
        assert(answer[limit] == items[limit]);
        assert(text_attribute(items[limit], "key"@) is Some);
        assert(key_of(items[limit]).len() > 0);
        if n > limit {
            assert(comes_before(key_of(items[limit]), key_of(items[n])));
        }
    } else {
        assert(front[n] == items[n]);
        front.lemma_filter_contains(is_shown(), n);
        let filtered = front.filter(is_shown());
        let m = choose|m: int| 0 <= m < filtered.len() && filtered[m] == front[n];
        let entries = filtered.map_values(entry());
        assert(entries[m] == entry()(item));
        assert(entries.contains(entry()(item)));
    }
}

/// The first page of a listing shows the global version that is read through the same backend.
pub proof fn law_first_page_shows_global_version_that_is_read(
    tables: Tables,
    table_name: Seq<char>,
    user_token: Seq<char>,
    request: ListKeyVersionsRequestView,
    reply: QueryReplyView,
    text: Seq<char>,
)
    requires
        request.page_token is None,
    ensures
        ({
            let begun = ListRunView::begun(table_name, user_token, request);
            let read = answer_in(
                tables,
                table_name,
                user_token,
                request.store_id,
                "global_version"@,
                text,
            );
            &&& begun.action() matches ListActionView::GetGlobalVersion(query) && match read {
                Ok(response) => begun.on_global_version(read_in(tables, query, text)) matches Ok(
                    run,
                ) && (run.on_page(reply) matches Ok(page) ==> page.global_version == Some(
                    response.value->0.version,
                )),
                Err(error) => begun.on_global_version(read_in(tables, query, text)) == Err::<
                    ListRunView,
                    VssErrorView,
                >(error),
            }
        }),
{
}

} // verus!
