use task_sync::callback::parse_callback;
use task_sync::configuration::AgentConfiguration;
use task_sync::error::{AuthError, SyncError, SyncFailure};
use task_sync::listener::{CallbackListener, ListenerAction, ListenerEvent};
use task_sync::orchestrator::{
    SyncAction, SyncEvent, SyncOrchestrator, SyncState, SIGN_IN_LABEL, SIGN_IN_MESSAGE,
    SIGN_IN_URL,
};
use task_sync::{IdeContext, TaskSyncData};

fn token(text: &str) -> SyncEvent {
    SyncEvent::TokenIssued { token: text.to_string() }
}

#[test]
fn sign_in_remedy_texts() {
    assert_eq!(
        SIGN_IN_MESSAGE,
        "Unable to sync task. Please ensure you're signed in to Oppla and try again."
    );
    assert_eq!(SIGN_IN_LABEL, "Sign In");
    assert_eq!(SIGN_IN_URL, "https://app.oppla.ai/auth/sign-in");
}

#[test]
fn attempt_starts_by_acquiring_a_token() {
    let attempt = SyncOrchestrator::new();
    assert_eq!(attempt.state, SyncState::AcquiringToken);
    assert!(!attempt.is_settled());
}

#[test]
fn attempt_binds_the_listener_once_it_has_a_token() {
    let mut attempt = SyncOrchestrator::new();
    assert_eq!(attempt.step(token("tok123")), SyncAction::BindListener);
    assert_eq!(attempt.state, SyncState::ListenerBound { token: "tok123".to_string() });
}

#[test]
fn attempt_opens_the_browser_once_the_listener_is_bound() {
    let mut attempt = SyncOrchestrator::new();
    attempt.step(token("tok123"));
    let action = attempt.step(SyncEvent::ListenerReady { port: 54321 });
    assert_eq!(
        action,
        SyncAction::OpenBrowser {
            url: "https://app.oppla.ai/home/ide?token=tok123&callback_port=54321".to_string()
        }
    );
    assert_eq!(attempt.state, SyncState::AwaitingCallback);
}

#[test]
fn attempt_offers_sign_in_when_the_token_is_refused() {
    let mut attempt = SyncOrchestrator::new();
    let action = attempt.step(SyncEvent::TokenRefused { error: AuthError::NotSignedIn });
    assert_eq!(action, SyncAction::OfferSignIn);
    assert_eq!(
        attempt.state,
        SyncState::Failed { failure: SyncFailure::Auth(AuthError::NotSignedIn) }
    );
    assert!(attempt.is_settled());

    let mut attempt = SyncOrchestrator::new();
    let action = attempt.step(SyncEvent::TokenRefused { error: AuthError::Network });
    assert_eq!(action, SyncAction::OfferSignIn);
    assert_eq!(attempt.state, SyncState::Failed { failure: SyncFailure::Auth(AuthError::Network) });
}

#[test]
fn attempt_fails_in_silence_when_the_wait_times_out() {
    let mut attempt = SyncOrchestrator::new();
    attempt.step(token("t"));
    attempt.step(SyncEvent::ListenerReady { port: 1 });
    let action = attempt.step(SyncEvent::CallbackSettled { outcome: Err(SyncError::Timeout) });
    assert_eq!(action, SyncAction::Nothing);
    assert_eq!(attempt.state, SyncState::Failed { failure: SyncFailure::Sync(SyncError::Timeout) });
    assert!(attempt.is_settled());
}

#[test]
fn attempt_publishes_the_context_of_the_callback() {
    let context = parse_callback("/?account_id=a1&board_id=b1", 5).unwrap();
    let mut attempt = SyncOrchestrator::new();
    attempt.step(token("t"));
    attempt.step(SyncEvent::ListenerReady { port: 1 });
    let action = attempt.step(SyncEvent::CallbackSettled { outcome: Ok(context.clone()) });
    assert_eq!(action, SyncAction::Publish { context: context.clone() });
    assert_eq!(attempt.state, SyncState::Completed { context });
    assert!(attempt.is_settled());
}

#[test]
fn attempt_ignores_events_out_of_turn() {
    let mut attempt = SyncOrchestrator::new();
    assert_eq!(attempt.step(SyncEvent::ListenerReady { port: 9 }), SyncAction::Nothing);
    assert_eq!(attempt.state, SyncState::AcquiringToken);
    let settled = SyncEvent::CallbackSettled { outcome: Err(SyncError::Timeout) };
    assert_eq!(attempt.step(settled), SyncAction::Nothing);
    assert_eq!(attempt.state, SyncState::AcquiringToken);

    attempt.step(token("first"));
    assert_eq!(attempt.step(token("second")), SyncAction::Nothing);
    assert_eq!(attempt.state, SyncState::ListenerBound { token: "first".to_string() });
    let refused = SyncEvent::TokenRefused { error: AuthError::Network };
    assert_eq!(attempt.step(refused), SyncAction::Nothing);
    assert_eq!(attempt.state, SyncState::ListenerBound { token: "first".to_string() });
}

#[test]
fn attempt_that_is_over_stays_as_it_is() {
    let mut attempt = SyncOrchestrator::new();
    attempt.step(SyncEvent::TokenRefused { error: AuthError::NotSignedIn });
    assert_eq!(attempt.step(token("late")), SyncAction::Nothing);
    assert_eq!(attempt.step(SyncEvent::ListenerReady { port: 2 }), SyncAction::Nothing);
    assert_eq!(
        attempt.state,
        SyncState::Failed { failure: SyncFailure::Auth(AuthError::NotSignedIn) }
    );
}

#[test]
fn sync_from_token_to_store() {
    let port: u16 = 49200;
    let mut store: Option<IdeContext> = Some(IdeContext::init());
    let mut panel = AgentConfiguration::new();
    let mut attempt = SyncOrchestrator::new();

    assert_eq!(attempt.step(token("tok123")), SyncAction::BindListener);
    let mut listener = CallbackListener::new(300);
    let action = attempt.step(SyncEvent::ListenerReady { port });
    assert_eq!(
        action,
        SyncAction::OpenBrowser {
            url: format!("https://app.oppla.ai/home/ide?token=tok123&callback_port={}", port)
        }
    );

    assert_eq!(listener.action(), ListenerAction::Poll);
    assert_eq!(listener.step(ListenerEvent::Silence).action, ListenerAction::Poll);
    let request = ListenerEvent::Request {
        target: "/?account_id=a1&product_id=p1&board_id=b1&task_id=t1&task_name=Fix+bug"
            .to_string(),
        now: 1_700_000_000,
    };
    assert_eq!(listener.step(request).action, ListenerAction::Respond);
    assert_eq!(listener.step(ListenerEvent::Responded { delivered: true }).action, ListenerAction::Stop);

    let outcome = listener.outcome().unwrap();
    let action = attempt.step(SyncEvent::CallbackSettled { outcome });
    let expected = TaskSyncData {
        account_id: "a1".to_string(),
        account_name: String::new(),
        product_id: "p1".to_string(),
        product_name: String::new(),
        board_id: "b1".to_string(),
        big_bet: None,
        big_bet_description: None,
        task_id: Some("t1".to_string()),
        work_item: Some("Fix bug".to_string()),
        work_item_description: None,
        synced_at: Some(1_700_000_000),
    };
    match action {
        SyncAction::Publish { context } => {
            assert_eq!(context, expected);
            panel.update_sync_data(context, &mut store);
        }
        other => panic!("unexpected action {:?}", other),
    }
    assert_eq!(store.unwrap().get_sync_data(), Some(expected.clone()));
    assert_eq!(panel.task_sync_data, Some(expected));
    assert!(!panel.task_sync_expanded);
}

#[test]
fn last_attempt_to_settle_wins() {
    let mut store: Option<IdeContext> = Some(IdeContext::init());
    let mut panel = AgentConfiguration::new();
    let mut first = SyncOrchestrator::new();
    let mut second = SyncOrchestrator::new();
    for attempt in [&mut first, &mut second] {
        attempt.step(token("t"));
        attempt.step(SyncEvent::ListenerReady { port: 1 });
    }
    let early = parse_callback("/?board_id=early", 1).unwrap();
    let late = parse_callback("/?board_id=late", 2).unwrap();
    if let SyncAction::Publish { context } =
        second.step(SyncEvent::CallbackSettled { outcome: Ok(early) })
    {
        panel.update_sync_data(context, &mut store);
    }
    if let SyncAction::Publish { context } =
        first.step(SyncEvent::CallbackSettled { outcome: Ok(late.clone()) })
    {
        panel.update_sync_data(context, &mut store);
    }
    assert_eq!(store.unwrap().get_sync_data(), Some(late));
}

#[test]
fn attempt_fails_in_silence_when_the_listener_cannot_be_bound() {
    let mut store: Option<IdeContext> = Some(IdeContext::init());
    let mut panel = AgentConfiguration::new();
    let before = parse_callback("/?board_id=before", 1).unwrap();
    panel.update_sync_data(before.clone(), &mut store);

    let mut attempt = SyncOrchestrator::new();
    assert_eq!(attempt.step(token("tok123")), SyncAction::BindListener);
    assert_eq!(attempt.step(SyncEvent::ListenerUnavailable), SyncAction::Nothing);
    assert_eq!(attempt.state, SyncState::Failed { failure: SyncFailure::Bind });
    assert!(attempt.is_settled());

    assert_eq!(attempt.step(SyncEvent::ListenerReady { port: 1 }), SyncAction::Nothing);
    assert_eq!(attempt.state, SyncState::Failed { failure: SyncFailure::Bind });
    assert_eq!(store.unwrap().get_sync_data(), Some(before.clone()));
    assert_eq!(panel.task_sync_data, Some(before));
}

#[test]
fn attempt_ignores_a_failed_bind_out_of_turn() {
    let mut attempt = SyncOrchestrator::new();
    assert_eq!(attempt.step(SyncEvent::ListenerUnavailable), SyncAction::Nothing);
    assert_eq!(attempt.state, SyncState::AcquiringToken);
    attempt.step(token("t"));
    attempt.step(SyncEvent::ListenerReady { port: 1 });
    assert_eq!(attempt.step(SyncEvent::ListenerUnavailable), SyncAction::Nothing);
    assert_eq!(attempt.state, SyncState::AwaitingCallback);
}
