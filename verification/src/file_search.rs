//! What a search is asked with: the input as the caller wrote it, whether it
//! can be run, how it is announced, and what is sent in its place once the
//! synced context is taken into account.

use vstd::prelude::*;
use vstd::string::StringExecFns;
use crate::search_filter::{
    SearchFilter,
    SearchFilterView,
    ambient_view,
    filter_view,
    spec_merge,
};
use crate::sync_data::{TaskSyncData, TaskSyncView, clone_text, text_view};

verus! {

/// The input of a search.
#[derive(Debug, PartialEq, Eq)]
pub struct FileSearchToolInput {
    /// The query to find relevant content by.
    pub query: Option<String>,
    /// The greatest number of results to return.
    pub limit: Option<u32>,
    /// What narrows the search.
    pub filter: Option<SearchFilter>,
}

/// The mathematical value of a [`FileSearchToolInput`].
pub struct FileSearchInputView {
    pub query: Option<Seq<char>>,
    pub limit: Option<u32>,
    pub filter: Option<SearchFilterView>,
}

impl View for FileSearchToolInput {
    type V = FileSearchInputView;

    open spec fn view(&self) -> FileSearchInputView {
        FileSearchInputView {
            query: text_view(self.query),
            limit: self.limit,
            filter: filter_view(self.filter),
        }
    }
}

impl Clone for FileSearchToolInput {
    fn clone(&self) -> (copy: Self)
        ensures
            copy == *self,
    {
        FileSearchToolInput {
            query: clone_text(&self.query),
            limit: self.limit,
            filter: match &self.filter {
                Some(filter) => Some(filter.clone()),
                None => None,
            },
        }
    }
}

/// Why an input cannot be run.
#[derive(Clone, Copy, Debug, PartialEq, Eq, Structural)]
pub enum InputError {
    /// The input names neither a query nor a thread.
    NothingToSearch,
}

impl InputError {
    /// The error in words.
    pub fn message(&self) -> (text: String)
        ensures
            text@ == "Either 'query' or 'filter.thread_id' must be provided"@,
    {
        String::from_str("Either 'query' or 'filter.thread_id' must be provided")
    }
}

/// The thread that an input names, if it names one.
pub open spec fn spec_thread(input: FileSearchInputView) -> Option<Seq<char>> {
    match input.filter {
        Some(filter) => filter.thread_id,
        None => None,
    }
}

/// Whether an input can be run: it has a query, or its filter names a thread.
pub open spec fn spec_searchable(input: FileSearchInputView) -> bool {
    input.query is Some || spec_thread(input) is Some
}

/// How a search is announced while it runs.
pub open spec fn spec_ui_text(input: FileSearchInputView) -> Seq<char> {
    match input.query {
        Some(query) => "Searching for \""@ + query + "\""@,
        None => match input.filter {
            Some(filter) => match filter.thread_id {
                Some(thread) => "Searching thread "@ + thread,
                None => match filter.search_type {
                    Some(kind) => "Searching "@ + kind + " content"@,
                    None => "Searching content"@,
                },
            },
            None => "Searching content"@,
        },
    }
}

/// What is sent for `input` when `ambient` is the synced context: the same
/// query and limit, with the merged filter in place of the caller's. Without
/// a context the input is sent as it is.
pub open spec fn spec_in_context(
    input: FileSearchInputView,
    ambient: Option<TaskSyncView>,
) -> FileSearchInputView {
    match ambient {
        Some(_) => FileSearchInputView {
            query: input.query,
            limit: input.limit,
            filter: Some(spec_merge(input.filter, ambient)),
        },
        None => input,
    }
}

impl FileSearchToolInput {
    /// Checks that there is something to search for.
    pub fn validate(&self) -> (checked: Result<(), InputError>)
        ensures
            checked is Ok <==> spec_searchable(self@),
            checked is Err ==> checked == Err::<(), InputError>(InputError::NothingToSearch),
    {
        if self.query.is_some() {
            return Ok(());
        }
        match &self.filter {
            Some(filter) => {
                if filter.thread_id.is_some() {
                    Ok(())
                } else {
                    Err(InputError::NothingToSearch)
                }
            },
            None => Err(InputError::NothingToSearch),
        }
    }

    /// The line that announces the search.
    pub fn ui_text(&self) -> (text: String)
        ensures
            text@ == spec_ui_text(self@),
    {
        if let Some(query) = &self.query {
            let mut text = String::from_str("Searching for \"");
            text.append(query.as_str());
            text.append("\"");
            return text;
        }
        if let Some(filter) = &self.filter {
            if let Some(thread) = &filter.thread_id {
                let mut text = String::from_str("Searching thread ");
                text.append(thread.as_str());
                return text;
            }
            if let Some(kind) = &filter.search_type {
                let mut text = String::from_str("Searching ");
                text.append(kind.as_str());
                text.append(" content");
                return text;
            }
        }
        String::from_str("Searching content")
    }

    /// The input that is sent when `ambient` is the synced context.
    pub fn in_context(self, ambient: Option<TaskSyncData>) -> (sent: FileSearchToolInput)
        ensures
            sent@ == spec_in_context(self@, ambient_view(ambient)),
    {
        match ambient {
            Some(context) => FileSearchToolInput {
                query: self.query,
                limit: self.limit,
                filter: Some(SearchFilter::merge(self.filter, Some(context))),
            },
            None => self,
        }
    }
}

/// The path of the search endpoint.
pub const SEARCH_PATH: &'static str = "/api/v1/search";

/// The value of the `Authorization` header that carries a bearer token.
pub open spec fn spec_authorization(token: Seq<char>) -> Seq<char> {
    "Bearer "@ + token
}

/// Words the `Authorization` header for the bearer token `token`.
pub fn authorization(token: &str) -> (header: String)
    ensures
        header@ == spec_authorization(token@),
{
    let mut header = String::from_str("Bearer ");
    header.append(token);
    header
}

/// The line that announces an input that could not be read.
pub const UNREADABLE_INPUT_TEXT: &'static str = "Search content";

} // verus!
