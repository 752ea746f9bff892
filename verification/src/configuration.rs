//! The part of the configuration panel that shows the synced task.

use vstd::prelude::*;
use crate::ide_context::IdeContext;
use crate::sync_data::{TaskSyncData, TaskSyncView};

verus! {

/// What the panel knows of the synced task: the context that it shows and
/// whether its section is open.
#[derive(Debug, PartialEq, Eq)]
pub struct AgentConfiguration {
    pub task_sync_expanded: bool,
    pub task_sync_data: Option<TaskSyncData>,
}

/// What a store that may not be set up yet holds.
pub open spec fn stored_view(store: Option<IdeContext>) -> Option<TaskSyncView> {
    match store {
        Some(store) => store@,
        None => None,
    }
}

impl AgentConfiguration {
    /// A panel with nothing synced; its section is open and invites a sync.
    pub fn new() -> (panel: AgentConfiguration)
        ensures
            panel.task_sync_expanded,
            panel.task_sync_data is None,
    {
        AgentConfiguration { task_sync_expanded: true, task_sync_data: None }
    }

    /// Takes in the context of a successful sync: the panel shows it, the
    /// store holds it (the store is set up first where it was not), and the
    /// section closes.
    pub fn update_sync_data(&mut self, data: TaskSyncData, store: &mut Option<IdeContext>)
        ensures
            final(self).task_sync_data == Some(data),
            !final(self).task_sync_expanded,
            *final(store) is Some,
            stored_view(*final(store)) == Some(data@),
    {
        self.task_sync_data = Some(data.clone());
        let mut context = match store.take() {
            Some(context) => context,
            None => IdeContext::init(),
        };
        context.set_sync_data(data);
        *store = Some(context);
        self.task_sync_expanded = false;
    }

    /// Opens the section where it is closed, and closes it where it is open.
    pub fn toggle_task_sync(&mut self)
        ensures
            final(self).task_sync_expanded == !old(self).task_sync_expanded,
            final(self).task_sync_data == old(self).task_sync_data,
    {
        self.task_sync_expanded = !self.task_sync_expanded;
    }

    /// Forgets the synced task: the panel shows none, a store that is set up
    /// is emptied, and the section opens again.
    pub fn clear_task_sync(&mut self, store: &mut Option<IdeContext>)
        ensures
            final(self).task_sync_data is None,
            final(self).task_sync_expanded,
            *final(store) is Some <==> *old(store) is Some,
            stored_view(*final(store)) is None,
    {
        self.task_sync_data = None;
        if let Some(mut context) = store.take() {
            context.clear_sync_data();
            *store = Some(context);
        }
        self.task_sync_expanded = true;
    }
}

} // verus!
