//! The payload of one successful synchronisation.

use vstd::prelude::*;

verus! {

/// What a piece of optional text is, as a sequence of characters.
pub open spec fn text_view(text: Option<String>) -> Option<Seq<char>> {
    match text {
        Some(s) => Some(s@),
        None => None,
    }
}

/// A copy of an optional text.
pub fn clone_text(text: &Option<String>) -> (copy: Option<String>)
    ensures
        copy == *text,
{
    match text {
        Some(s) => Some(s.clone()),
        None => None,
    }
}

/// The account, product, board and task that the user is working on, as the
/// browser delivered them.
///
/// The three identifiers `account_id`, `product_id` and `board_id` are always
/// held together; an empty string stands for one that was not delivered.
/// `synced_at` counts seconds since the Unix epoch.
#[derive(Debug, PartialEq, Eq)]
pub struct TaskSyncData {
    pub account_id: String,
    pub account_name: String,
    pub product_id: String,
    pub product_name: String,
    pub board_id: String,
    pub big_bet: Option<String>,
    pub big_bet_description: Option<String>,
    pub task_id: Option<String>,
    pub work_item: Option<String>,
    pub work_item_description: Option<String>,
    pub synced_at: Option<u64>,
}

/// The mathematical value of a [`TaskSyncData`].
pub struct TaskSyncView {
    pub account_id: Seq<char>,
    pub account_name: Seq<char>,
    pub product_id: Seq<char>,
    pub product_name: Seq<char>,
    pub board_id: Seq<char>,
    pub big_bet: Option<Seq<char>>,
    pub big_bet_description: Option<Seq<char>>,
    pub task_id: Option<Seq<char>>,
    pub work_item: Option<Seq<char>>,
    pub work_item_description: Option<Seq<char>>,
    pub synced_at: Option<u64>,
}

impl View for TaskSyncData {
    type V = TaskSyncView;

    open spec fn view(&self) -> TaskSyncView {
        TaskSyncView {
            account_id: self.account_id@,
            account_name: self.account_name@,
            product_id: self.product_id@,
            product_name: self.product_name@,
            board_id: self.board_id@,
            big_bet: text_view(self.big_bet),
            big_bet_description: text_view(self.big_bet_description),
            task_id: text_view(self.task_id),
            work_item: text_view(self.work_item),
            work_item_description: text_view(self.work_item_description),
            synced_at: self.synced_at,
        }
    }
}

impl Clone for TaskSyncData {
    fn clone(&self) -> (copy: Self)
        ensures
            copy == *self,
    {
        TaskSyncData {
            account_id: self.account_id.clone(),
            account_name: self.account_name.clone(),
            product_id: self.product_id.clone(),
            product_name: self.product_name.clone(),
            board_id: self.board_id.clone(),
            big_bet: clone_text(&self.big_bet),
            big_bet_description: clone_text(&self.big_bet_description),
            task_id: clone_text(&self.task_id),
            work_item: clone_text(&self.work_item),
            work_item_description: clone_text(&self.work_item_description),
            synced_at: self.synced_at,
        }
    }
}

} // verus!
