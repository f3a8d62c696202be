//! Listing the keys of a store with their versions, page by page.

use crate::dynamodb_store::{
    get_outcome, get_query, service_error, DynamoDbBackendImpl, LIST_KEY_VERSIONS_MAX_PAGE_SIZE,
};
use crate::items::{item_views, AttributeValue, AttributeView, Item, ItemView, Names};
use crate::octets::empty_octets;
use crate::records::{
    build_key_item, create_namespace, get_text_attribute, item_to_key_value, key_item, key_value_of,
    namespace_of, text_attribute,
};
use crate::requests::{
    GetItemRequest, GetItemView, GetReply, GetReplyView, QueryReply, QueryReplyView, QueryRequest,
    QueryView,
};
use crate::types::{
    key_values, outcome, GetObjectRequest, GetObjectRequestView, KeyValue, KeyValueView,
    ListKeyVersionsRequest, ListKeyVersionsRequestView, ListKeyVersionsResponse,
    ListKeyVersionsResponseView, VssError, VssErrorView, GLOBAL_VERSION_KEY,
};
use vstd::prelude::*;

verus! {

/// How many records a page shows at most.
pub open spec fn page_limit(page_size: Option<i32>) -> int {
    match page_size {
        Some(size) => if size < LIST_KEY_VERSIONS_MAX_PAGE_SIZE {
            size as int
        } else {
            LIST_KEY_VERSIONS_MAX_PAGE_SIZE as int
        },
        None => LIST_KEY_VERSIONS_MAX_PAGE_SIZE as int,
    }
}

fn compute_page_limit(page_size: Option<i32>) -> (limit: i32)
    ensures
        limit == page_limit(page_size),
{
    match page_size {
        Some(size) => if size < LIST_KEY_VERSIONS_MAX_PAGE_SIZE {
            size
        } else {
            LIST_KEY_VERSIONS_MAX_PAGE_SIZE
        },
        None => LIST_KEY_VERSIONS_MAX_PAGE_SIZE,
    }
}

/// The request that reads the global version of a store.
pub open spec fn global_version_query(
    table_name: Seq<char>,
    user_token: Seq<char>,
    store_id: Seq<char>,
) -> GetItemView {
    get_query(
        table_name,
        user_token,
        GetObjectRequestView { store_id, key: GLOBAL_VERSION_KEY@ },
    )
}

/// The global version, as the answer to the request that reads it gives it.
pub open spec fn global_version_outcome(reply: GetReplyView) -> Result<i64, VssErrorView> {
    match get_outcome(GLOBAL_VERSION_KEY@, reply) {
        Ok(response) => Ok(response.value->0.version),
        Err(error) => Err(error),
    }
}

/// The query for a page. It asks for one item more than the page shows, to see whether there are
/// more.
pub open spec fn page_query(
    table_name: Seq<char>,
    user_token: Seq<char>,
    request: ListKeyVersionsRequestView,
) -> QueryView {
    let namespace = namespace_of(user_token, request.store_id);
    let names = Map::<Seq<char>, Seq<char>>::empty().insert("#namespace"@, "namespace"@);
    let values = Map::<Seq<char>, AttributeView>::empty().insert(
        ":namespace"@,
        AttributeView::S(namespace),
    );
    QueryView {
        table_name,
        key_condition_expression: "#namespace = :namespace"@,
        filter_expression: match request.key_prefix {
            Some(_) => Some("begins_with(#key, :key_prefix)"@),
            None => None,
        },
        expression_attribute_names: match request.key_prefix {
            Some(_) => names.insert("#key"@, "key"@),
            None => names,
        },
        expression_attribute_values: match request.key_prefix {
            Some(prefix) => values.insert(":key_prefix"@, AttributeView::S(prefix)),
            None => values,
        },
        exclusive_start_key: match request.page_token {
            Some(token) => Some(key_item(namespace, token)),
            None => None,
        },
        limit: page_limit(request.page_size) + 1,
    }
}

/// The items that a page shows. A limit below zero cuts nothing off.
pub open spec fn shown(items: Seq<ItemView>, limit: int) -> Seq<ItemView> {
    if 0 <= limit < items.len() {
        items.take(limit)
    } else {
        items
    }
}

/// What a page says of a record: its key and its version, and no value.
pub open spec fn without_value(kv: KeyValueView) -> KeyValueView {
    KeyValueView { key: kv.key, value: Seq::empty(), version: kv.version }
}

/// The keys and versions of some items, in order and without the global version; the error of
/// the first item that has no key.
pub open spec fn listed(items: Seq<ItemView>) -> Result<Seq<KeyValueView>, VssErrorView>
    decreases items.len(),
{
    if items.len() == 0 {
        Ok(Seq::empty())
    } else {
        match listed(items.drop_last()) {
            Ok(before) => match key_value_of(items.last()) {
                Ok(kv) => if kv.key == GLOBAL_VERSION_KEY@ {
                    Ok(before)
                } else {
                    Ok(before.push(without_value(kv)))
                },
                Err(error) => Err(error),
            },
            Err(error) => Err(error),
        }
    }
}

/// The token for the page after this one: the key of the first item that is not shown; the empty
/// text where every item is shown and the page is not empty; none where it is.
pub open spec fn next_page_token(
    items: Seq<ItemView>,
    limit: int,
    key_versions: Seq<KeyValueView>,
) -> Option<Seq<char>> {
    let more = if 0 <= limit < items.len() {
        text_attribute(items[limit], "key"@)
    } else {
        None
    };
    if more is None && key_versions.len() > 0 {
        Some(Seq::empty())
    } else {
        more
    }
}

/// The page that is made of the answer to the query.
pub open spec fn page_outcome(
    page_size: Option<i32>,
    global_version: Option<i64>,
    reply: QueryReplyView,
) -> Result<ListKeyVersionsResponseView, VssErrorView> {
    let limit = page_limit(page_size);
    match reply {
        QueryReplyView::Page(items) => match listed(shown(items, limit)) {
            Ok(key_versions) => Ok(
                ListKeyVersionsResponseView {
                    key_versions,
                    next_page_token: next_page_token(items, limit, key_versions),
                    global_version,
                },
            ),
            Err(error) => Err(error),
        },
        QueryReplyView::Failed(text) => Err(service_error(text)),
    }
}

/// A list request under way.
pub struct ListRun {
    backend: DynamoDbBackendImpl,
    user_token: String,
    request: ListKeyVersionsRequest,
    global_version: Option<i64>,
}

pub struct ListRunView {
    pub table_name: Seq<char>,
    pub user_token: Seq<char>,
    pub request: ListKeyVersionsRequestView,
    pub global_version: Option<i64>,
}

impl View for ListRun {
    type V = ListRunView;

    closed spec fn view(&self) -> ListRunView {
        ListRunView {
            table_name: self.backend.table_name@,
            user_token: self.user_token@,
            request: self.request@,
            global_version: self.global_version,
        }
    }
}

/// What to do next for a list request.
#[derive(Debug, PartialEq, Eq)]
pub enum ListAction {
    /// Send this, which reads the global version, and hand the answer back.
    GetGlobalVersion(GetItemRequest),
    /// Send this, which reads the page, and hand the answer back.
    Query(QueryRequest),
}

pub enum ListActionView {
    GetGlobalVersion(GetItemView),
    Query(QueryView),
}

impl View for ListAction {
    type V = ListActionView;

    open spec fn view(&self) -> ListActionView {
        match self {
            ListAction::GetGlobalVersion(request) => ListActionView::GetGlobalVersion(request@),
            ListAction::Query(request) => ListActionView::Query(request@),
        }
    }
}

impl ListRunView {
    /// A list request that has just begun.
    pub open spec fn begun(
        table_name: Seq<char>,
        user_token: Seq<char>,
        request: ListKeyVersionsRequestView,
    ) -> ListRunView {
        ListRunView { table_name, user_token, request, global_version: None }
    }

    /// What is to be done next. The global version is read for the first page only.
    pub open spec fn action(self) -> ListActionView {
        if self.request.page_token is None && self.global_version is None {
            ListActionView::GetGlobalVersion(
                global_version_query(self.table_name, self.user_token, self.request.store_id),
            )
        } else {
            ListActionView::Query(page_query(self.table_name, self.user_token, self.request))
        }
    }

    /// What becomes of the request on the answer that gives the global version.
    pub open spec fn on_global_version(self, reply: GetReplyView) -> Result<
        ListRunView,
        VssErrorView,
    > {
        match global_version_outcome(reply) {
            Ok(version) => Ok(ListRunView { global_version: Some(version), ..self }),
            Err(error) => Err(error),
        }
    }

    /// What the client is answered on the answer that gives the page.
    pub open spec fn on_page(self, reply: QueryReplyView) -> Result<
        ListKeyVersionsResponseView,
        VssErrorView,
    > {
        page_outcome(self.request.page_size, self.global_version, reply)
    }
}

/// The key versions of the first items, as many as a page shows.
fn list_items(items: &Vec<Item>, limit: i32) -> (result: Result<Vec<KeyValue>, VssError>)
    ensures
        match result {
            Ok(key_versions) => listed(shown(item_views(items@), limit as int)) == Ok::<
                Seq<KeyValueView>,
                VssErrorView,
            >(key_values(key_versions@)),
            Err(error) => listed(shown(item_views(items@), limit as int)) == Err::<
                Seq<KeyValueView>,
                VssErrorView,
            >(error@),
        },
{
    let ghost views = item_views(items@);
    let count: usize = if limit >= 0 && (limit as usize) < items.len() {
        limit as usize
    } else {
        items.len()
    };
    let ghost all = shown(views, limit as int);
    assert(all =~= views.take(count as int));
    let mut key_versions: Vec<KeyValue> = Vec::new();
    let mut i: usize = 0;
    assert(views.take(0) =~= Seq::<ItemView>::empty());
    assert(key_values(key_versions@) =~= Seq::<KeyValueView>::empty());
    while i < count
        invariant
            i <= count <= items@.len(),
            views == item_views(items@),
            listed(views.take(i as int)) == Ok::<Seq<KeyValueView>, VssErrorView>(
                key_values(key_versions@),
            ),
            all == shown(views, limit as int),
            all == views.take(count as int),
        decreases count - i,
    {
        let ghost before = key_values(key_versions@);
        proof {
            assert(views.take(i + 1).drop_last() =~= views.take(i as int));
            assert(views.take(i + 1).last() == items@[i as int]@);
        }
        match item_to_key_value(&items[i]) {
            Ok(kv) => {
                if kv.key != GLOBAL_VERSION_KEY.to_owned() {
                    key_versions.push(
                        KeyValue { key: kv.key, value: empty_octets(), version: kv.version },
                    );
                    assert(key_values(key_versions@) =~= before.push(key_versions@.last()@));
                }
            },
            Err(error) => {
                proof {
                    assert(all.take(i + 1) =~= views.take(i + 1));
                    assert(listed(all.take(i + 1)) == Err::<Seq<KeyValueView>, VssErrorView>(error@));
                    lemma_listed_error(all, i + 1);
                }
                return Err(error);
            },
        }
        i = i + 1;
    }
    Ok(key_versions)
}

/// An error among the first items is the error of all.
proof fn lemma_listed_error(items: Seq<ItemView>, n: int)
    requires
        0 <= n <= items.len(),
        listed(items.take(n)) is Err,
    ensures
        listed(items) == listed(items.take(n)),
    decreases items.len(),
{
    if n == items.len() {
        assert(items.take(n) =~= items);
    } else {
        assert(items.drop_last().take(n) =~= items.take(n));
        lemma_listed_error(items.drop_last(), n);
    }
}

/// Makes the page of the answer to the query.
pub fn build_page(page_size: Option<i32>, global_version: Option<i64>, reply: &QueryReply) -> (result:
    Result<ListKeyVersionsResponse, VssError>)
    ensures
        outcome(result) == page_outcome(page_size, global_version, reply@),
{
    let limit: i32 = compute_page_limit(page_size);
    let items = match reply {
        QueryReply::Page(items) => items,
        QueryReply::Failed(text) => {
            return Err(DynamoDbBackendImpl::service_failure(text));
        },
    };
    let key_versions = match list_items(items, limit) {
        Ok(key_versions) => key_versions,
        Err(error) => {
            return Err(error);
        },
    };
    let mut next_page_token: Option<String> = None;
    if limit >= 0 && (limit as usize) < items.len() {
        assert(item_views(items@)[limit as int] == items@[limit as int]@);
        if let Some(key) = get_text_attribute(&items[limit as usize], "key") {
            next_page_token = Some(key.clone());
        }
    }
    if next_page_token.is_none() && key_versions.len() > 0 {
        next_page_token = Some(String::new());
    }
    Ok(ListKeyVersionsResponse { key_versions, next_page_token, global_version })
}

impl ListRun {
    /// What to do next.
    pub fn action(&self) -> (action: ListAction)
        ensures
            action@ == self@.action(),
    {
        if self.request.page_token.is_none() && self.global_version.is_none() {
            let request = GetObjectRequest {
                store_id: self.request.store_id.clone(),
                key: GLOBAL_VERSION_KEY.to_owned(),
            };
            ListAction::GetGlobalVersion(
                self.backend.get_request(self.user_token.as_str(), &request),
            )
        } else {
            ListAction::Query(
                self.backend.page_request(self.user_token.as_str(), &self.request),
            )
        }
    }

    /// Takes the answer that gives the global version.
    pub fn on_global_version(self, reply: &GetReply) -> (result: Result<ListRun, VssError>)
        requires
            self@.action() is GetGlobalVersion,
        ensures
            outcome(result) == self@.on_global_version(reply@),
    {
        let key = GLOBAL_VERSION_KEY.to_owned();
        match DynamoDbBackendImpl::get_result(&key, reply) {
            Ok(response) => {
                let version: i64 = match response.value {
                    Some(kv) => kv.version,
                    None => 0,
                };
                Ok(
                    ListRun {
                        backend: self.backend,
                        user_token: self.user_token,
                        request: self.request,
                        global_version: Some(version),
                    },
                )
            },
            Err(error) => Err(error),
        }
    }

    /// Takes the answer that gives the page, and gives the answer to the client.
    pub fn on_page(self, reply: &QueryReply) -> (result: Result<ListKeyVersionsResponse, VssError>)
        requires
            self@.action() is Query,
        ensures
            outcome(result) == self@.on_page(reply@),
    {
        build_page(self.request.page_size, self.global_version, reply)
    }
}

impl DynamoDbBackendImpl {
    /// Begins a list request.
    pub fn begin_list(&self, user_token: &str, request: ListKeyVersionsRequest) -> (run: ListRun)
        ensures
            run@ == ListRunView::begun(self.table_name@, user_token@, request@),
    {
        ListRun {
            backend: DynamoDbBackendImpl::new(self.table_name.clone()),
            user_token: user_token.to_owned(),
            request,
            global_version: None,
        }
    }

    /// The query for a page.
    pub fn page_request(&self, user_token: &str, request: &ListKeyVersionsRequest) -> (query:
        QueryRequest)
        ensures
            query@ == page_query(self.table_name@, user_token@, request@),
    {
        let namespace = create_namespace(user_token, request.store_id.as_str());
        let mut names = Names::new();
        names.bind("#namespace", "namespace");
        let mut values = Item::new();
        values.insert(":namespace", AttributeValue::S(namespace.clone()));
        let mut filter_expression: Option<String> = None;
        if let Some(prefix) = &request.key_prefix {
            filter_expression = Some("begins_with(#key, :key_prefix)".to_owned());
            names.bind("#key", "key");
            values.insert(":key_prefix", AttributeValue::S(prefix.clone()));
        }
        let mut exclusive_start_key: Option<Item> = None;
        if let Some(token) = &request.page_token {
            exclusive_start_key = Some(build_key_item(&namespace, token));
        }
        QueryRequest {
            table_name: self.table_name.clone(),
            key_condition_expression: "#namespace = :namespace".to_owned(),
            filter_expression,
            expression_attribute_names: names,
            expression_attribute_values: values,
            exclusive_start_key,
            limit: compute_page_limit(request.page_size) + 1,
        }
    }
}


/// What to do next for a list request is seen with all that it says.
pub proof fn law_list_action_is_seen_whole(get: GetItemRequest, query: QueryRequest)
    ensures
        ListAction::GetGlobalVersion(get)@ == ListActionView::GetGlobalVersion(get@),
        ListAction::Query(query)@ == ListActionView::Query(query@),
{
}

} // verus!
