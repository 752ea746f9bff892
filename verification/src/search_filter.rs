//! Search filters, and how a filter inherits the synced context.

use vstd::prelude::*;
use vstd::string::StringExecFns;
use crate::sync_data::{TaskSyncData, TaskSyncView, clone_text, text_view};

verus! {

/// What narrows a search. Every field is optional; one that is `None` is
/// left out of the request.
#[derive(Debug, PartialEq, Eq)]
pub struct SearchFilter {
    /// The kind of content to search: "conversations", "tasks",
    /// "compressed" or "all".
    pub search_type: Option<String>,
    /// What to extract: "work_item", "big_bet" or "auto".
    pub content_type: Option<String>,
    /// A thread to search within.
    pub thread_id: Option<String>,
    pub account_id: Option<String>,
    pub product_id: Option<String>,
    pub board_id: Option<String>,
    pub task_id: Option<String>,
}

/// The mathematical value of a [`SearchFilter`].
pub struct SearchFilterView {
    pub search_type: Option<Seq<char>>,
    pub content_type: Option<Seq<char>>,
    pub thread_id: Option<Seq<char>>,
    pub account_id: Option<Seq<char>>,
    pub product_id: Option<Seq<char>>,
    pub board_id: Option<Seq<char>>,
    pub task_id: Option<Seq<char>>,
}

impl View for SearchFilter {
    type V = SearchFilterView;

    open spec fn view(&self) -> SearchFilterView {
        SearchFilterView {
            search_type: text_view(self.search_type),
            content_type: text_view(self.content_type),
            thread_id: text_view(self.thread_id),
            account_id: text_view(self.account_id),
            product_id: text_view(self.product_id),
            board_id: text_view(self.board_id),
            task_id: text_view(self.task_id),
        }
    }
}

impl Clone for SearchFilter {
    fn clone(&self) -> (copy: Self)
        ensures
            copy == *self,
    {
        SearchFilter {
            search_type: clone_text(&self.search_type),
            content_type: clone_text(&self.content_type),
            thread_id: clone_text(&self.thread_id),
            account_id: clone_text(&self.account_id),
            product_id: clone_text(&self.product_id),
            board_id: clone_text(&self.board_id),
            task_id: clone_text(&self.task_id),
        }
    }
}

/// The mathematical value of an optional filter.
pub open spec fn filter_view(filter: Option<SearchFilter>) -> Option<SearchFilterView> {
    match filter {
        Some(filter) => Some(filter@),
        None => None,
    }
}

/// The mathematical value of an optional context.
pub open spec fn ambient_view(ambient: Option<TaskSyncData>) -> Option<TaskSyncView> {
    match ambient {
        Some(context) => Some(context@),
        None => None,
    }
}

/// The filter that narrows nothing.
pub open spec fn spec_empty_filter() -> SearchFilterView {
    SearchFilterView {
        search_type: None,
        content_type: None,
        thread_id: None,
        account_id: None,
        product_id: None,
        board_id: None,
        task_id: None,
    }
}

/// Whether a field has a value. The empty text counts as none.
pub open spec fn is_set(field: Option<Seq<char>>) -> bool {
    field is Some && field->Some_0.len() > 0
}

/// Whether a field takes its value from the context: the caller left it
/// unset and the context has one.
pub open spec fn spec_inherits(own: Option<Seq<char>>, ambient: Option<Seq<char>>) -> bool {
    !is_set(own) && is_set(ambient)
}

/// A field after the merge: the context's value where it is inherited, else
/// what the caller wrote.
pub open spec fn spec_inherit(own: Option<Seq<char>>, ambient: Option<Seq<char>>) -> Option<
    Seq<char>,
> {
    if spec_inherits(own, ambient) {
        ambient
    } else {
        own
    }
}

/// Whether merging `ambient` into `own` brings in any field.
pub open spec fn spec_inherits_any(own: SearchFilterView, ambient: TaskSyncView) -> bool {
    spec_inherits(own.account_id, Some(ambient.account_id)) || spec_inherits(
        own.product_id,
        Some(ambient.product_id),
    ) || spec_inherits(own.board_id, Some(ambient.board_id)) || spec_inherits(
        own.task_id,
        ambient.task_id,
    )
}

/// The filter `own` overlaid on the context `ambient`.
pub open spec fn spec_overlay(own: SearchFilterView, ambient: TaskSyncView) -> SearchFilterView {
    SearchFilterView {
        search_type: own.search_type,
        content_type: if spec_inherits_any(own, ambient) && own.content_type is None {
            Some("auto"@)
        } else {
            own.content_type
        },
        thread_id: own.thread_id,
        account_id: spec_inherit(own.account_id, Some(ambient.account_id)),
        product_id: spec_inherit(own.product_id, Some(ambient.product_id)),
        board_id: spec_inherit(own.board_id, Some(ambient.board_id)),
        task_id: spec_inherit(own.task_id, ambient.task_id),
    }
}

/// The filter that a search is sent with, for what the caller asked and the
/// context that is synced.
///
/// Without a context it is the caller's filter, or the empty one. With a
/// context, each of the account, product, board and task keeps the
/// caller's value where the caller set one and takes the context's value
/// otherwise; and where anything was taken and the caller named no content
/// type, the content type is "auto".
pub open spec fn spec_merge(
    caller_filter: Option<SearchFilterView>,
    ambient: Option<TaskSyncView>,
) -> SearchFilterView {
    let own = match caller_filter {
        Some(filter) => filter,
        None => spec_empty_filter(),
    };
    match ambient {
        Some(context) => spec_overlay(own, context),
        None => own,
    }
}

fn has_text(field: &Option<String>) -> (set: bool)
    ensures
        set == is_set(text_view(*field)),
{
    match field {
        Some(text) => !text.as_str().is_empty(),
        None => false,
    }
}

fn inherit(own: Option<String>, ambient: Option<String>) -> (merged: (Option<String>, bool))
    ensures
        text_view(merged.0) == spec_inherit(text_view(own), text_view(ambient)),
        merged.1 == spec_inherits(text_view(own), text_view(ambient)),
{
    if !has_text(&own) && has_text(&ambient) {
        (ambient, true)
    } else {
        (own, false)
    }
}

impl SearchFilter {
    /// The filter that narrows nothing.
    pub fn empty() -> (filter: SearchFilter)
        ensures
            filter@ == spec_empty_filter(),
    {
        SearchFilter {
            search_type: None,
            content_type: None,
            thread_id: None,
            account_id: None,
            product_id: None,
            board_id: None,
            task_id: None,
        }
    }

    /// Merges the filter that a caller supplied with the synced context.
    pub fn merge(
        caller_filter: Option<SearchFilter>,
        ambient: Option<TaskSyncData>,
    ) -> (merged: SearchFilter)
        ensures
            merged@ == spec_merge(filter_view(caller_filter), ambient_view(ambient)),
    {
        let own = match caller_filter {
            Some(filter) => filter,
            None => SearchFilter::empty(),
        };
        match ambient {
            None => own,
            Some(context) => {
                let (account_id, account_taken) = inherit(own.account_id, Some(context.account_id));
                let (product_id, product_taken) = inherit(own.product_id, Some(context.product_id));
                let (board_id, board_taken) = inherit(own.board_id, Some(context.board_id));
                let (task_id, task_taken) = inherit(own.task_id, context.task_id);
                let taken = account_taken || product_taken || board_taken || task_taken;
                let content_type = if taken && own.content_type.is_none() {
                    Some(String::from_str("auto"))
                } else {
                    own.content_type
                };
                SearchFilter {
                    search_type: own.search_type,
                    content_type,
                    thread_id: own.thread_id,
                    account_id,
                    product_id,
                    board_id,
                    task_id,
                }
            },
        }
    }
}

/// Merge precedence: what the caller set stays, and what the caller left
/// unset is filled from the context where the context has it. A task is
/// never made up: without one in the context the caller's stays as it was.
pub proof fn lemma_merge_precedence(own: SearchFilterView, ambient: TaskSyncView)
    ensures
        is_set(own.account_id) ==> spec_merge(Some(own), Some(ambient)).account_id
            == own.account_id,
        is_set(own.product_id) ==> spec_merge(Some(own), Some(ambient)).product_id
            == own.product_id,
        is_set(own.board_id) ==> spec_merge(Some(own), Some(ambient)).board_id == own.board_id,
        is_set(own.task_id) ==> spec_merge(Some(own), Some(ambient)).task_id == own.task_id,
        !is_set(own.account_id) && ambient.account_id.len() > 0 ==> spec_merge(
            Some(own),
            Some(ambient),
        ).account_id == Some(ambient.account_id),
        !is_set(own.product_id) && ambient.product_id.len() > 0 ==> spec_merge(
            Some(own),
            Some(ambient),
        ).product_id == Some(ambient.product_id),
        !is_set(own.board_id) && ambient.board_id.len() > 0 ==> spec_merge(
            Some(own),
            Some(ambient),
        ).board_id == Some(ambient.board_id),
        !is_set(own.task_id) && is_set(ambient.task_id) ==> spec_merge(
            Some(own),
            Some(ambient),
        ).task_id == ambient.task_id,
        ambient.task_id is None ==> spec_merge(Some(own), Some(ambient)).task_id == own.task_id,
        spec_merge(Some(own), Some(ambient)).search_type == own.search_type,
        spec_merge(Some(own), Some(ambient)).thread_id == own.thread_id,
{
}

/// An empty caller filter takes everything that the context has, and with
/// it the content type "auto".
pub proof fn lemma_merge_fills_empty_filter(ambient: TaskSyncView)
    requires
        ambient.account_id.len() > 0,
        ambient.product_id.len() > 0,
        ambient.board_id.len() > 0,
    ensures
        spec_merge(None, Some(ambient)) == (SearchFilterView {
            search_type: None,
            content_type: Some("auto"@),
            thread_id: None,
            account_id: Some(ambient.account_id),
            product_id: Some(ambient.product_id),
            board_id: Some(ambient.board_id),
            task_id: if is_set(ambient.task_id) {
                ambient.task_id
            } else {
                None
            },
        }),
{
}

/// Where the merge takes nothing from the context, the filter is the
/// caller's.
pub proof fn lemma_merge_without_gain(own: SearchFilterView, ambient: Option<TaskSyncView>)
    requires
        ambient is Some ==> !spec_inherits_any(own, ambient->Some_0),
    ensures
        spec_merge(Some(own), ambient) == own,
{
}

/// Only the four identifiers of the context reach the filter: its names,
/// descriptions and time of synchronisation never do.
pub proof fn lemma_merge_reads_identifiers_only(
    caller_filter: Option<SearchFilterView>,
    ambient: TaskSyncView,
    other: TaskSyncView,
)
    requires
        ambient.account_id == other.account_id,
        ambient.product_id == other.product_id,
        ambient.board_id == other.board_id,
        ambient.task_id == other.task_id,
    ensures
        spec_merge(caller_filter, Some(ambient)) == spec_merge(caller_filter, Some(other)),
{
}

/// Merging is idempotent: a merged filter takes nothing more from the same
/// context.
pub proof fn lemma_merge_idempotent(
    caller_filter: Option<SearchFilterView>,
    ambient: Option<TaskSyncView>,
)
    ensures
        spec_merge(Some(spec_merge(caller_filter, ambient)), ambient) == spec_merge(
            caller_filter,
            ambient,
        ),
{
}

} // verus!
