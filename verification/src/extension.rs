//! What an installed extension provides, and which extension stands behind
//! a context server.

use vstd::prelude::*;
use vstd::string::StringExecFns;

verus! {

/// What an extension provides: the context servers by their identifiers,
/// everything else by its count.
#[derive(Debug, PartialEq, Eq)]
pub struct ExtensionContents {
    pub context_servers: Vec<String>,
    pub themes: usize,
    pub icon_themes: usize,
    pub languages: usize,
    pub grammars: usize,
    pub language_servers: usize,
    pub slash_commands: usize,
    pub indexed_docs_providers: usize,
    pub has_snippets: bool,
    pub debug_locators: usize,
}

/// An extension that is installed.
#[derive(Debug, PartialEq, Eq)]
pub struct InstalledExtension {
    pub id: String,
    pub contents: ExtensionContents,
}

/// Whether one context server is all that an extension provides.
pub open spec fn spec_only_context_server(contents: ExtensionContents) -> bool {
    &&& contents.context_servers.len() == 1
    &&& contents.themes == 0
    &&& contents.icon_themes == 0
    &&& contents.languages == 0
    &&& contents.grammars == 0
    &&& contents.language_servers == 0
    &&& contents.slash_commands == 0
    &&& contents.indexed_docs_providers == 0
    &&& !contents.has_snippets
    &&& contents.debug_locators == 0
}

/// Whether an extension provides the context server `id`.
pub open spec fn spec_provides(contents: ExtensionContents, id: Seq<char>) -> bool {
    exists|i: int| 0 <= i < contents.context_servers.len() && (#[trigger] contents.context_servers[i])@ == id
}

/// Whether one context server is all that an extension provides, so that
/// removing the server may remove the extension with it.
pub fn extension_only_provides_context_server(contents: &ExtensionContents) -> (only: bool)
    ensures
        only == spec_only_context_server(*contents),
{
    contents.context_servers.len() == 1 && contents.themes == 0 && contents.icon_themes == 0
        && contents.languages == 0 && contents.grammars == 0 && contents.language_servers == 0
        && contents.slash_commands == 0 && contents.indexed_docs_providers == 0
        && !contents.has_snippets && contents.debug_locators == 0
}

/// Whether an extension provides the context server `id`.
pub fn provides_context_server(contents: &ExtensionContents, id: &str) -> (provided: bool)
    ensures
        provided == spec_provides(*contents, id@),
{
    let wanted = String::from_str(id);
    let mut i: usize = 0;
    while i < contents.context_servers.len()
        invariant
            i <= contents.context_servers.len(),
            wanted@ == id@,
            forall|j: int| 0 <= j < i ==> (#[trigger] contents.context_servers[j])@ != id@,
        decreases contents.context_servers.len() - i,
    {
        if contents.context_servers[i] == wanted {
            return true;
        }
        i = i + 1;
    }
    false
}

/// The place in `installed` of the first extension that provides the context
/// server `id`; `None` where no installed extension does.
pub fn resolve_extension_for_context_server(
    id: &str,
    installed: &Vec<InstalledExtension>,
) -> (found: Option<usize>)
    ensures
        match found {
            Some(at) => {
                &&& at < installed.len()
                &&& spec_provides(installed[at as int].contents, id@)
                &&& forall|j: int|
                    0 <= j < at ==> !spec_provides((#[trigger] installed[j]).contents, id@)
            },
            None => forall|j: int|
                0 <= j < installed.len() ==> !spec_provides((#[trigger] installed[j]).contents, id@),
        },
{
    let mut at: usize = 0;
    while at < installed.len()
        invariant
            at <= installed.len(),
            forall|j: int| 0 <= j < at ==> !spec_provides((#[trigger] installed[j]).contents, id@),
        decreases installed.len() - at,
    {
        if provides_context_server(&installed[at].contents, id) {
            return Some(at);
        }
        at = at + 1;
    }
    None
}

/// What removing a context server does to the extension behind it.
#[derive(Clone, Copy, Debug, PartialEq, Eq, Structural)]
pub enum ExtensionRemoval {
    /// No extension is touched.
    Keep,
    /// The extension at this place in the list is uninstalled.
    Uninstall(usize),
    /// The extension at this place provides more than the server: the user
    /// is asked before it is uninstalled.
    Ask(usize),
}

/// Decides what removing the context server `id` does to the installed
/// extensions: nothing where the server does not come from an extension or
/// none provides it; else the first extension that provides it is
/// uninstalled where the server is all it provides, and asked about
/// otherwise.
pub fn plan_extension_removal(
    provided_by_extension: bool,
    id: &str,
    installed: &Vec<InstalledExtension>,
) -> (plan: ExtensionRemoval)
    ensures
        plan is Keep <==> !provided_by_extension || forall|j: int|
            0 <= j < installed.len() ==> !spec_provides((#[trigger] installed[j]).contents, id@),
        match plan {
            ExtensionRemoval::Keep => true,
            ExtensionRemoval::Uninstall(at) => {
                &&& at < installed.len()
                &&& spec_provides(installed[at as int].contents, id@)
                &&& forall|j: int|
                    0 <= j < at ==> !spec_provides((#[trigger] installed[j]).contents, id@)
                &&& spec_only_context_server(installed[at as int].contents)
            },
            ExtensionRemoval::Ask(at) => {
                &&& at < installed.len()
                &&& spec_provides(installed[at as int].contents, id@)
                &&& forall|j: int|
                    0 <= j < at ==> !spec_provides((#[trigger] installed[j]).contents, id@)
                &&& !spec_only_context_server(installed[at as int].contents)
            },
        },
{
    if !provided_by_extension {
        return ExtensionRemoval::Keep;
    }
    match resolve_extension_for_context_server(id, installed) {
        Some(at) => {
            if extension_only_provides_context_server(&installed[at].contents) {
                ExtensionRemoval::Uninstall(at)
            } else {
                ExtensionRemoval::Ask(at)
            }
        },
        None => ExtensionRemoval::Keep,
    }
}

/// The question that is put to the user before an extension that provides
/// more than the server is uninstalled.
pub open spec fn spec_removal_question(id: Seq<char>) -> Seq<char> {
    "The "@ + id
        + " extension provides more than just the MCP server. Proceed to uninstall anyway?"@
}

/// Words the question for the context server `id`.
pub fn removal_question(id: &str) -> (question: String)
    ensures
        question@ == spec_removal_question(id@),
{
    let mut question = String::from_str("The ");
    question.append(id);
    question.append(
        " extension provides more than just the MCP server. Proceed to uninstall anyway?",
    );
    question
}

} // verus!
