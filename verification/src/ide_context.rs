//! The store of the most recent synced context, and the search filter that
//! is derived from it.

use vstd::prelude::*;
use crate::search_filter::is_set;
use crate::sync_data::{TaskSyncData, TaskSyncView};

verus! {

/// `serde_json::Value`, a JSON value. What it holds is known only through
/// [`json_text_object`].
#[verifier::external_type_specification]
#[verifier::external_body]
pub struct ExJsonValue(serde_json::Value);

/// The members of a JSON object whose members are all strings, each name
/// with its text; `None` for every other JSON value.
pub uninterp spec fn json_text_object(value: serde_json::Value) -> Option<
    Map<Seq<char>, Seq<char>>,
>;

/// Makes a JSON object out of `serde_json::Map::new`.
///
/// Trusted: the object has no members.
#[verifier::external_body]
fn json_empty_object() -> (object: serde_json::Value)
    ensures
        json_text_object(object) == Some(Map::<Seq<char>, Seq<char>>::empty()),
{
    serde_json::Value::Object(serde_json::Map::new())
}

/// Sets the member `name` of a JSON object to the string `text` with
/// `serde_json::Map::insert`, on the map that `Value::as_object_mut` gives.
///
/// Trusted: in an object of strings the member is added, or replaced where
/// the name was taken, and every other member stays as it was.
#[verifier::external_body]
fn json_insert_text(object: &mut serde_json::Value, name: &str, text: &str)
    ensures
        json_text_object(*old(object)) is Some ==> json_text_object(*final(object)) == Some(
            json_text_object(*old(object))->Some_0.insert(name@, text@),
        ),
{
    if let Some(members) = object.as_object_mut() {
        members.insert(name.to_owned(), serde_json::Value::String(text.to_owned()));
    }
}

/// The holder of the context that the last successful sync delivered. It is
/// empty until a sync succeeds and after it was cleared, and it is only ever
/// replaced or emptied as a whole.
#[derive(Debug, PartialEq, Eq)]
pub struct IdeContext {
    pub sync_data: Option<TaskSyncData>,
}

impl View for IdeContext {
    type V = Option<TaskSyncView>;

    open spec fn view(&self) -> Option<TaskSyncView> {
        match self.sync_data {
            Some(data) => Some(data@),
            None => None,
        }
    }
}

/// The mathematical value of an optional context.
pub open spec fn context_view(context: Option<TaskSyncData>) -> Option<TaskSyncView> {
    match context {
        Some(data) => Some(data@),
        None => None,
    }
}

/// `filter` with the member `name` added, where `text` is set; `filter` as
/// it is where `text` is missing or empty.
pub open spec fn spec_with_member(
    filter: Map<Seq<char>, Seq<char>>,
    name: Seq<char>,
    text: Option<Seq<char>>,
) -> Map<Seq<char>, Seq<char>> {
    if is_set(text) {
        filter.insert(name, text->Some_0)
    } else {
        filter
    }
}

/// The filter by which a search is narrowed to `context`: tasks only, and
/// of its account, product, board and task, each as far as the context has
/// one. An identifier that is empty is unset and is left out.
pub open spec fn spec_context_filter(context: TaskSyncView) -> Map<Seq<char>, Seq<char>> {
    let kind = map!["type"@ => "tasks"@];
    let account = spec_with_member(kind, "account_id"@, Some(context.account_id));
    let product = spec_with_member(account, "product_id"@, Some(context.product_id));
    let board = spec_with_member(product, "board_id"@, Some(context.board_id));
    spec_with_member(board, "task_id"@, context.task_id)
}

fn insert_where_set(filter: &mut serde_json::Value, name: &str, text: &str)
    ensures
        json_text_object(*old(filter)) is Some ==> json_text_object(*final(filter)) == Some(
            spec_with_member(json_text_object(*old(filter))->Some_0, name@, Some(text@)),
        ),
{
    if !text.is_empty() {
        json_insert_text(filter, name, text);
    }
}

impl IdeContext {
    /// The store after it was emptied.
    pub open spec fn spec_clear(self) -> IdeContext {
        IdeContext { sync_data: None }
    }

    /// The store after `data` was put into it.
    pub open spec fn spec_set(self, data: TaskSyncData) -> IdeContext {
        IdeContext { sync_data: Some(data) }
    }

    /// An empty store.
    pub fn init() -> (store: IdeContext)
        ensures
            store@ is None,
    {
        IdeContext { sync_data: None }
    }

    /// A copy of the context that the store holds, if it holds one.
    pub fn get_sync_data(&self) -> (data: Option<TaskSyncData>)
        ensures
            data == self.sync_data,
            context_view(data) == self@,
    {
        match &self.sync_data {
            Some(data) => Some(data.clone()),
            None => None,
        }
    }

    /// Replaces what the store holds by `data`.
    pub fn set_sync_data(&mut self, data: TaskSyncData)
        ensures
            *final(self) == old(self).spec_set(data),
            final(self)@ == Some(data@),
    {
        self.sync_data = Some(data);
    }

    /// Empties the store.
    pub fn clear_sync_data(&mut self)
        ensures
            *final(self) == old(self).spec_clear(),
            final(self)@ is None,
    {
        self.sync_data = None;
    }

    /// The search filter of the context that the store holds, as a JSON
    /// object of strings; `None` where the store is empty. An identifier
    /// that the context does not have, or has as the empty text, is no
    /// member of the object.
    pub fn get_context_filter(&self) -> (filter: Option<serde_json::Value>)
        ensures
            filter is Some <==> self@ is Some,
            filter is Some ==> json_text_object(filter->Some_0) == Some(
                spec_context_filter(self@->Some_0),
            ),
    {
        match &self.sync_data {
            None => None,
            Some(data) => {
                let mut filter = json_empty_object();
                json_insert_text(&mut filter, "type", "tasks");
                assert(json_text_object(filter)->Some_0 =~= map!["type"@ => "tasks"@]);
                insert_where_set(&mut filter, "account_id", data.account_id.as_str());
                insert_where_set(&mut filter, "product_id", data.product_id.as_str());
                insert_where_set(&mut filter, "board_id", data.board_id.as_str());
                if let Some(task) = &data.task_id {
                    insert_where_set(&mut filter, "task_id", task.as_str());
                }
                Some(filter)
            },
        }
    }
}

/// The members of the context filter: the kind always, and each identifier
/// exactly where the context has it set, with the context's text as its
/// value. Nothing else is a member.
pub proof fn lemma_context_filter_members(context: TaskSyncView)
    ensures
        forall|name: Seq<char>| #[trigger]
            spec_context_filter(context).contains_key(name) <==> {
                ||| name == "type"@
                ||| name == "account_id"@ && context.account_id.len() > 0
                ||| name == "product_id"@ && context.product_id.len() > 0
                ||| name == "board_id"@ && context.board_id.len() > 0
                ||| name == "task_id"@ && is_set(context.task_id)
            },
        spec_context_filter(context).contains_key("type"@),
        spec_context_filter(context).contains_key("account_id"@) <==> context.account_id.len()
            > 0,
        spec_context_filter(context).contains_key("product_id"@) <==> context.product_id.len()
            > 0,
        spec_context_filter(context).contains_key("board_id"@) <==> context.board_id.len() > 0,
        spec_context_filter(context).contains_key("task_id"@) <==> is_set(context.task_id),
        spec_context_filter(context)["type"@] == "tasks"@,
        context.account_id.len() > 0 ==> spec_context_filter(context)["account_id"@]
            == context.account_id,
        context.product_id.len() > 0 ==> spec_context_filter(context)["product_id"@]
            == context.product_id,
        context.board_id.len() > 0 ==> spec_context_filter(context)["board_id"@]
            == context.board_id,
        is_set(context.task_id) ==> spec_context_filter(context)["task_id"@]
            == context.task_id->Some_0,
{
    reveal_strlit("type");
    reveal_strlit("account_id");
    reveal_strlit("product_id");
    reveal_strlit("board_id");
    reveal_strlit("task_id");
    assert("type"@.len() == 4);
    assert("account_id"@.len() == 10 && "account_id"@[0] == 'a');
    assert("product_id"@.len() == 10 && "product_id"@[0] == 'p');
    assert("board_id"@.len() == 8);
    assert("task_id"@.len() == 7);
}

/// Clearing is idempotent: a store that was cleared is empty, and clearing
/// it once more leaves it as it is.
pub proof fn lemma_clear_idempotent(store: IdeContext)
    ensures
        store.spec_clear()@ is None,
        store.spec_clear().spec_clear() == store.spec_clear(),
{
}

/// The store holds what was put into it last, whatever it held before.
pub proof fn lemma_last_write_wins(store: IdeContext, first: TaskSyncData, second: TaskSyncData)
    ensures
        store.spec_set(second)@ == Some(second@),
        store.spec_set(first).spec_set(second) == store.spec_set(second),
        store.spec_clear().spec_set(second) == store.spec_set(second),
        store.spec_set(first).spec_clear() == store.spec_clear(),
{
}

} // verus!
