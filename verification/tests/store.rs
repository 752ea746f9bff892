use task_sync::configuration::AgentConfiguration;
use task_sync::{IdeContext, TaskSyncData};

fn context(task: Option<&str>) -> TaskSyncData {
    TaskSyncData {
        account_id: "a1".to_string(),
        account_name: "Acme".to_string(),
        product_id: "p1".to_string(),
        product_name: "Widgets".to_string(),
        board_id: "b1".to_string(),
        big_bet: Some("Bet".to_string()),
        big_bet_description: None,
        task_id: task.map(|id| id.to_string()),
        work_item: task.map(|_| "Fix bug".to_string()),
        work_item_description: None,
        synced_at: Some(12),
    }
}

fn text(value: &str) -> serde_json::Value {
    serde_json::Value::String(value.to_string())
}

#[test]
fn store_is_empty_at_first() {
    let store = IdeContext::init();
    assert_eq!(store.get_sync_data(), None);
    assert_eq!(store.get_context_filter(), None);
}

#[test]
fn store_returns_what_was_set() {
    let mut store = IdeContext::init();
    store.set_sync_data(context(Some("t1")));
    assert_eq!(store.get_sync_data(), Some(context(Some("t1"))));
    assert_eq!(store.get_sync_data(), Some(context(Some("t1"))));
}

#[test]
fn store_replaces_as_a_whole() {
    let mut store = IdeContext::init();
    store.set_sync_data(context(Some("t1")));
    store.set_sync_data(context(None));
    assert_eq!(store.get_sync_data(), Some(context(None)));
}

#[test]
fn store_clear_is_idempotent() {
    let mut store = IdeContext::init();
    store.set_sync_data(context(Some("t1")));
    store.clear_sync_data();
    assert_eq!(store.get_sync_data(), None);
    store.clear_sync_data();
    assert_eq!(store.get_sync_data(), None);
    assert_eq!(store, IdeContext::init());
}

#[test]
fn store_clear_of_an_empty_store() {
    let mut store = IdeContext::init();
    store.clear_sync_data();
    assert_eq!(store.get_sync_data(), None);
}

#[test]
fn store_snapshot_does_not_follow_later_writes() {
    let mut store = IdeContext::init();
    store.set_sync_data(context(Some("t1")));
    let snapshot = store.get_sync_data();
    store.clear_sync_data();
    assert_eq!(snapshot, Some(context(Some("t1"))));
}

#[test]
fn context_filter_of_a_task() {
    let mut store = IdeContext::init();
    store.set_sync_data(context(Some("t1")));
    let mut members = serde_json::Map::new();
    members.insert("type".to_string(), text("tasks"));
    members.insert("account_id".to_string(), text("a1"));
    members.insert("product_id".to_string(), text("p1"));
    members.insert("board_id".to_string(), text("b1"));
    members.insert("task_id".to_string(), text("t1"));
    assert_eq!(store.get_context_filter(), Some(serde_json::Value::Object(members)));
}

#[test]
fn context_filter_of_a_board() {
    let mut store = IdeContext::init();
    store.set_sync_data(context(None));
    let filter = store.get_context_filter().unwrap();
    let members = filter.as_object().unwrap();
    assert_eq!(members.len(), 4);
    assert_eq!(members.get("type"), Some(&text("tasks")));
    assert_eq!(members.get("account_id"), Some(&text("a1")));
    assert_eq!(members.get("product_id"), Some(&text("p1")));
    assert_eq!(members.get("board_id"), Some(&text("b1")));
    assert_eq!(members.get("task_id"), None);
}

#[test]
fn context_filter_is_written_as_json() {
    let mut store = IdeContext::init();
    store.set_sync_data(context(Some("t1")));
    let written = serde_json::to_string(&store.get_context_filter().unwrap()).unwrap();
    assert_eq!(
        written,
        "{\"type\":\"tasks\",\"account_id\":\"a1\",\"product_id\":\"p1\",\"board_id\":\"b1\",\"task_id\":\"t1\"}"
    );
}

#[test]
fn panel_starts_open_and_empty() {
    let panel = AgentConfiguration::new();
    assert!(panel.task_sync_expanded);
    assert_eq!(panel.task_sync_data, None);
}

#[test]
fn panel_update_fills_the_store_and_closes() {
    let mut panel = AgentConfiguration::new();
    let mut store = Some(IdeContext::init());
    panel.update_sync_data(context(Some("t1")), &mut store);
    assert_eq!(panel.task_sync_data, Some(context(Some("t1"))));
    assert!(!panel.task_sync_expanded);
    assert_eq!(store.unwrap().get_sync_data(), Some(context(Some("t1"))));
}

#[test]
fn panel_update_sets_up_a_missing_store() {
    let mut panel = AgentConfiguration::new();
    let mut store: Option<IdeContext> = None;
    panel.update_sync_data(context(None), &mut store);
    assert_eq!(store.unwrap().get_sync_data(), Some(context(None)));
}

#[test]
fn panel_clear_empties_the_store_and_opens() {
    let mut panel = AgentConfiguration::new();
    let mut store = Some(IdeContext::init());
    panel.update_sync_data(context(Some("t1")), &mut store);
    panel.clear_task_sync(&mut store);
    assert_eq!(panel.task_sync_data, None);
    assert!(panel.task_sync_expanded);
    assert_eq!(store, Some(IdeContext::init()));
    panel.clear_task_sync(&mut store);
    assert_eq!(store, Some(IdeContext::init()));
}

#[test]
fn panel_clear_leaves_a_missing_store_missing() {
    let mut panel = AgentConfiguration::new();
    let mut store: Option<IdeContext> = None;
    panel.clear_task_sync(&mut store);
    assert_eq!(store, None);
    assert!(panel.task_sync_expanded);
}

#[test]
fn panel_toggle_flips_the_section() {
    let mut panel = AgentConfiguration::new();
    panel.toggle_task_sync();
    assert!(!panel.task_sync_expanded);
    panel.toggle_task_sync();
    assert!(panel.task_sync_expanded);
    assert_eq!(panel.task_sync_data, None);
}

#[test]
fn context_filter_leaves_out_an_empty_board() {
    let mut data = context(Some("t1"));
    data.board_id = String::new();
    let mut store = IdeContext::init();
    store.set_sync_data(data);
    let mut members = serde_json::Map::new();
    members.insert("type".to_string(), text("tasks"));
    members.insert("account_id".to_string(), text("a1"));
    members.insert("product_id".to_string(), text("p1"));
    members.insert("task_id".to_string(), text("t1"));
    assert_eq!(store.get_context_filter(), Some(serde_json::Value::Object(members)));
}

#[test]
fn context_filter_leaves_out_an_empty_account_and_product() {
    let mut data = context(None);
    data.account_id = String::new();
    data.product_id = String::new();
    let mut store = IdeContext::init();
    store.set_sync_data(data);
    let filter = store.get_context_filter().unwrap();
    let members = filter.as_object().unwrap();
    assert_eq!(members.len(), 2);
    assert_eq!(members.get("type"), Some(&text("tasks")));
    assert_eq!(members.get("board_id"), Some(&text("b1")));
    assert_eq!(members.get("account_id"), None);
    assert_eq!(members.get("product_id"), None);
}

#[test]
fn context_filter_leaves_out_an_empty_task() {
    let mut store = IdeContext::init();
    store.set_sync_data(context(Some("")));
    let filter = store.get_context_filter().unwrap();
    let members = filter.as_object().unwrap();
    assert_eq!(members.len(), 4);
    assert_eq!(members.get("task_id"), None);
}

#[test]
fn context_filter_of_a_context_without_identifiers() {
    let mut data = context(None);
    data.account_id = String::new();
    data.product_id = String::new();
    data.board_id = String::new();
    let mut store = IdeContext::init();
    store.set_sync_data(data);
    let written = serde_json::to_string(&store.get_context_filter().unwrap()).unwrap();
    assert_eq!(written, "{\"type\":\"tasks\"}");
}
