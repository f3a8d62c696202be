//! What the store asks of the table service, and what the service answers.

use crate::items::{Item, ItemView, Names};
use crate::types::text_option;
use vstd::prelude::*;

verus! {

/// Asks for an item to be stored in place of any that has its key, where the condition holds of
/// that one.
#[derive(Debug, PartialEq, Eq)]
pub struct PutItemRequest {
    pub table_name: String,
    pub item: Item,
    pub condition_expression: Option<String>,
    pub expression_attribute_names: Names,
}

pub struct PutItemView {
    pub table_name: Seq<char>,
    pub item: ItemView,
    pub condition_expression: Option<Seq<char>>,
    pub expression_attribute_names: Map<Seq<char>, Seq<char>>,
}

impl View for PutItemRequest {
    type V = PutItemView;

    open spec fn view(&self) -> PutItemView {
        PutItemView {
            table_name: self.table_name@,
            item: self.item@,
            condition_expression: text_option(self.condition_expression),
            expression_attribute_names: self.expression_attribute_names@,
        }
    }
}

/// Asks for some attributes of an item to be set, where the condition holds of the item.
#[derive(Debug, PartialEq, Eq)]
pub struct UpdateItemRequest {
    pub table_name: String,
    pub key: Item,
    pub update_expression: String,
    pub condition_expression: String,
    pub expression_attribute_names: Names,
    pub expression_attribute_values: Item,
}

pub struct UpdateItemView {
    pub table_name: Seq<char>,
    pub key: ItemView,
    pub update_expression: Seq<char>,
    pub condition_expression: Seq<char>,
    pub expression_attribute_names: Map<Seq<char>, Seq<char>>,
    pub expression_attribute_values: ItemView,
}

impl View for UpdateItemRequest {
    type V = UpdateItemView;

    open spec fn view(&self) -> UpdateItemView {
        UpdateItemView {
            table_name: self.table_name@,
            key: self.key@,
            update_expression: self.update_expression@,
            condition_expression: self.condition_expression@,
            expression_attribute_names: self.expression_attribute_names@,
            expression_attribute_values: self.expression_attribute_values@,
        }
    }
}

/// Asks for an item to be removed, where the condition holds of it, and for the attributes that
/// `return_values` names to be returned.
#[derive(Debug, PartialEq, Eq)]
pub struct DeleteItemRequest {
    pub table_name: String,
    pub key: Item,
    pub condition_expression: Option<String>,
    pub expression_attribute_names: Names,
    pub expression_attribute_values: Item,
    pub return_values: String,
}

pub struct DeleteItemView {
    pub table_name: Seq<char>,
    pub key: ItemView,
    pub condition_expression: Option<Seq<char>>,
    pub expression_attribute_names: Map<Seq<char>, Seq<char>>,
    pub expression_attribute_values: ItemView,
    pub return_values: Seq<char>,
}

impl View for DeleteItemRequest {
    type V = DeleteItemView;

    open spec fn view(&self) -> DeleteItemView {
        DeleteItemView {
            table_name: self.table_name@,
            key: self.key@,
            condition_expression: text_option(self.condition_expression),
            expression_attribute_names: self.expression_attribute_names@,
            expression_attribute_values: self.expression_attribute_values@,
            return_values: self.return_values@,
        }
    }
}

/// A request that changes the table.
#[derive(Debug, PartialEq, Eq)]
pub enum WriteRequest {
    Put(PutItemRequest),
    Update(UpdateItemRequest),
    Delete(DeleteItemRequest),
}

pub enum WriteView {
    Put(PutItemView),
    Update(UpdateItemView),
    Delete(DeleteItemView),
}

impl View for WriteRequest {
    type V = WriteView;

    open spec fn view(&self) -> WriteView {
        match self {
            WriteRequest::Put(request) => WriteView::Put(request@),
            WriteRequest::Update(request) => WriteView::Update(request@),
            WriteRequest::Delete(request) => WriteView::Delete(request@),
        }
    }
}

/// The answer to a request that changes the table. The texts are the service's description of
/// the error.
#[derive(Debug, PartialEq, Eq)]
pub enum WriteReply {
    /// The change was made; whether the attributes of an earlier item came back.
    Done { old_attributes: bool },
    /// The condition did not hold, and nothing was changed.
    ConditionFailed(String),
    /// Any other error.
    Failed(String),
}

pub enum WriteReplyView {
    Done { old_attributes: bool },
    ConditionFailed(Seq<char>),
    Failed(Seq<char>),
}

impl View for WriteReply {
    type V = WriteReplyView;

    open spec fn view(&self) -> WriteReplyView {
        match self {
            WriteReply::Done { old_attributes } => WriteReplyView::Done {
                old_attributes: *old_attributes,
            },
            WriteReply::ConditionFailed(text) => WriteReplyView::ConditionFailed(text@),
            WriteReply::Failed(text) => WriteReplyView::Failed(text@),
        }
    }
}

/// Asks for an item by its key.
#[derive(Debug, PartialEq, Eq)]
pub struct GetItemRequest {
    pub table_name: String,
    pub key: Item,
}

pub struct GetItemView {
    pub table_name: Seq<char>,
    pub key: ItemView,
}

impl View for GetItemRequest {
    type V = GetItemView;

    open spec fn view(&self) -> GetItemView {
        GetItemView { table_name: self.table_name@, key: self.key@ }
    }
}

/// The answer to a request for an item. The text is the service's description of the error.
#[derive(Debug, PartialEq, Eq)]
pub enum GetReply {
    Found(Item),
    Missing,
    Failed(String),
}

pub enum GetReplyView {
    Found(ItemView),
    Missing,
    Failed(Seq<char>),
}

impl View for GetReply {
    type V = GetReplyView;

    open spec fn view(&self) -> GetReplyView {
        match self {
            GetReply::Found(item) => GetReplyView::Found(item@),
            GetReply::Missing => GetReplyView::Missing,
            GetReply::Failed(text) => GetReplyView::Failed(text@),
        }
    }
}

/// Asks for the items that share the first part of the key, at most `limit` of them, from after
/// the start key on.
#[derive(Debug, PartialEq, Eq)]
pub struct QueryRequest {
    pub table_name: String,
    pub key_condition_expression: String,
    pub filter_expression: Option<String>,
    pub expression_attribute_names: Names,
    pub expression_attribute_values: Item,
    pub exclusive_start_key: Option<Item>,
    pub limit: i32,
}

pub struct QueryView {
    pub table_name: Seq<char>,
    pub key_condition_expression: Seq<char>,
    pub filter_expression: Option<Seq<char>>,
    pub expression_attribute_names: Map<Seq<char>, Seq<char>>,
    pub expression_attribute_values: ItemView,
    pub exclusive_start_key: Option<ItemView>,
    pub limit: int,
}

impl View for QueryRequest {
    type V = QueryView;

    open spec fn view(&self) -> QueryView {
        QueryView {
            table_name: self.table_name@,
            key_condition_expression: self.key_condition_expression@,
            filter_expression: text_option(self.filter_expression),
            expression_attribute_names: self.expression_attribute_names@,
            expression_attribute_values: self.expression_attribute_values@,
            exclusive_start_key: match self.exclusive_start_key {
                Some(key) => Some(key@),
                None => None,
            },
            limit: self.limit as int,
        }
    }
}

/// The answer to a query. The text is the service's description of the error.
#[derive(Debug, PartialEq, Eq)]
pub enum QueryReply {
    Page(Vec<Item>),
    Failed(String),
}

pub enum QueryReplyView {
    Page(Seq<ItemView>),
    Failed(Seq<char>),
}

impl View for QueryReply {
    type V = QueryReplyView;

    open spec fn view(&self) -> QueryReplyView {
        match self {
            QueryReply::Page(items) => QueryReplyView::Page(crate::items::item_views(items@)),
            QueryReply::Failed(text) => QueryReplyView::Failed(text@),
        }
    }
}


/// A request that changes the table is seen with all that it says.
pub proof fn law_write_request_is_seen_whole(
    put: PutItemRequest,
    update: UpdateItemRequest,
    delete: DeleteItemRequest,
)
    ensures
        put@.table_name == put.table_name@,
        put@.item == put.item@,
        put@.condition_expression == text_option(put.condition_expression),
        put@.expression_attribute_names == put.expression_attribute_names@,
        update@.table_name == update.table_name@,
        update@.key == update.key@,
        update@.update_expression == update.update_expression@,
        update@.condition_expression == update.condition_expression@,
        update@.expression_attribute_names == update.expression_attribute_names@,
        update@.expression_attribute_values == update.expression_attribute_values@,
        delete@.table_name == delete.table_name@,
        delete@.key == delete.key@,
        delete@.condition_expression == text_option(delete.condition_expression),
        delete@.expression_attribute_names == delete.expression_attribute_names@,
        delete@.expression_attribute_values == delete.expression_attribute_values@,
        delete@.return_values == delete.return_values@,
        WriteRequest::Put(put)@ == WriteView::Put(put@),
        WriteRequest::Update(update)@ == WriteView::Update(update@),
        WriteRequest::Delete(delete)@ == WriteView::Delete(delete@),
{
}

/// A request that reads the table is seen with all that it says.
pub proof fn law_read_request_is_seen_whole(get: GetItemRequest, query: QueryRequest)
    ensures
        get@.table_name == get.table_name@,
        get@.key == get.key@,
        query@.table_name == query.table_name@,
        query@.key_condition_expression == query.key_condition_expression@,
        query@.filter_expression == text_option(query.filter_expression),
        query@.expression_attribute_names == query.expression_attribute_names@,
        query@.expression_attribute_values == query.expression_attribute_values@,
        query.exclusive_start_key is None <==> query@.exclusive_start_key is None,
        query.exclusive_start_key matches Some(key) ==> query@.exclusive_start_key == Some(key@),
        query@.limit == query.limit,
{
}

/// An answer of the service is seen as it was given.
pub proof fn law_reply_is_seen_whole(
    old_attributes: bool,
    text: String,
    item: Item,
    items: Vec<Item>,
)
    ensures
        (WriteReply::Done { old_attributes })@ == (WriteReplyView::Done { old_attributes }),
        WriteReply::ConditionFailed(text)@ == WriteReplyView::ConditionFailed(text@),
        WriteReply::Failed(text)@ == WriteReplyView::Failed(text@),
        GetReply::Found(item)@ == GetReplyView::Found(item@),
        GetReply::Missing@ == GetReplyView::Missing,
        GetReply::Failed(text)@ == GetReplyView::Failed(text@),
        QueryReply::Page(items)@ == QueryReplyView::Page(crate::items::item_views(items@)),
        QueryReply::Failed(text)@ == QueryReplyView::Failed(text@),
{
}

} // verus!
