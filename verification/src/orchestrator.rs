//! One synchronisation attempt from end to end, as a state machine: acquire
//! a token, bind the listener, hand over to the browser, await the callback,
//! publish. The caller does the outside work that each action names and
//! reports back what came of it.

use vstd::prelude::*;
use crate::error::{AuthError, SyncError, SyncFailure};
use crate::handoff::{handoff_url, spec_handoff_url};
use crate::sync_data::{TaskSyncData, TaskSyncView};

verus! {

/// What the user is told when no token could be had.
pub const SIGN_IN_MESSAGE: &'static str =
    "Unable to sync task. Please ensure you're signed in to Oppla and try again.";

/// The label of the remedy that is offered with [`SIGN_IN_MESSAGE`].
pub const SIGN_IN_LABEL: &'static str = "Sign In";

/// The page that the remedy opens.
pub const SIGN_IN_URL: &'static str = "https://app.oppla.ai/auth/sign-in";

/// Where an attempt stands.
#[derive(Debug, PartialEq, Eq)]
pub enum SyncState {
    /// The token was asked for.
    AcquiringToken,
    /// The token is here and the listener is being bound.
    ListenerBound { token: String },
    /// The browser has the URL; the listener waits.
    AwaitingCallback,
    /// The callback came and its context was handed out for publication.
    Completed { context: TaskSyncData },
    /// The attempt ended without a context.
    Failed { failure: SyncFailure },
}

/// The mathematical value of a [`SyncState`].
pub enum SyncStateView {
    AcquiringToken,
    ListenerBound { token: Seq<char> },
    AwaitingCallback,
    Completed { context: TaskSyncView },
    Failed { failure: SyncFailure },
}

impl View for SyncState {
    type V = SyncStateView;

    open spec fn view(&self) -> SyncStateView {
        match *self {
            SyncState::AcquiringToken => SyncStateView::AcquiringToken,
            SyncState::ListenerBound { token } => SyncStateView::ListenerBound { token: token@ },
            SyncState::AwaitingCallback => SyncStateView::AwaitingCallback,
            SyncState::Completed { context } => SyncStateView::Completed { context: context@ },
            SyncState::Failed { failure } => SyncStateView::Failed { failure },
        }
    }
}

/// What the caller reports to the orchestrator.
#[derive(Debug, PartialEq, Eq)]
pub enum SyncEvent {
    /// The issuer gave a token.
    TokenIssued { token: String },
    /// The issuer gave none.
    TokenRefused { error: AuthError },
    /// The listener is bound to `port`.
    ListenerReady { port: u16 },
    /// The listener could not be bound.
    ListenerUnavailable,
    /// The listener's wait is over.
    CallbackSettled { outcome: Result<TaskSyncData, SyncError> },
}

/// The mathematical value of a [`SyncEvent`].
pub enum SyncEventView {
    TokenIssued { token: Seq<char> },
    TokenRefused { error: AuthError },
    ListenerReady { port: u16 },
    ListenerUnavailable,
    CallbackSettled { outcome: Result<TaskSyncView, SyncError> },
}

impl View for SyncEvent {
    type V = SyncEventView;

    open spec fn view(&self) -> SyncEventView {
        match *self {
            SyncEvent::TokenIssued { token } => SyncEventView::TokenIssued { token: token@ },
            SyncEvent::TokenRefused { error } => SyncEventView::TokenRefused { error },
            SyncEvent::ListenerReady { port } => SyncEventView::ListenerReady { port },
            SyncEvent::ListenerUnavailable => SyncEventView::ListenerUnavailable,
            SyncEvent::CallbackSettled { outcome } => SyncEventView::CallbackSettled {
                outcome: match outcome {
                    Ok(context) => Ok(context@),
                    Err(error) => Err(error),
                },
            },
        }
    }
}

/// What the orchestrator asks of the caller.
#[derive(Debug, PartialEq, Eq)]
pub enum SyncAction {
    /// Bind the listener and report its port, or that it could not be bound.
    BindListener,
    /// Open `url` in the browser, whether or not that succeeds, then run the
    /// listener off the calling thread and report how its wait ended.
    OpenBrowser { url: String },
    /// Put `context` into the store.
    Publish { context: TaskSyncData },
    /// Show [`SIGN_IN_MESSAGE`] with the remedy that opens [`SIGN_IN_URL`].
    OfferSignIn,
    /// Nothing is to be done.
    Nothing,
}

/// The mathematical value of a [`SyncAction`].
pub enum SyncActionView {
    BindListener,
    OpenBrowser { url: Seq<char> },
    Publish { context: TaskSyncView },
    OfferSignIn,
    Nothing,
}

impl View for SyncAction {
    type V = SyncActionView;

    open spec fn view(&self) -> SyncActionView {
        match *self {
            SyncAction::BindListener => SyncActionView::BindListener,
            SyncAction::OpenBrowser { url } => SyncActionView::OpenBrowser { url: url@ },
            SyncAction::Publish { context } => SyncActionView::Publish { context: context@ },
            SyncAction::OfferSignIn => SyncActionView::OfferSignIn,
            SyncAction::Nothing => SyncActionView::Nothing,
        }
    }
}

/// The state that follows `state` on `event`. An event that the state does
/// not wait for changes nothing.
pub open spec fn spec_sync_next(state: SyncStateView, event: SyncEventView) -> SyncStateView {
    match (state, event) {
        (SyncStateView::AcquiringToken, SyncEventView::TokenIssued { token }) => {
            SyncStateView::ListenerBound { token }
        },
        (SyncStateView::AcquiringToken, SyncEventView::TokenRefused { error }) => {
            SyncStateView::Failed { failure: SyncFailure::Auth(error) }
        },
        (SyncStateView::ListenerBound { .. }, SyncEventView::ListenerReady { .. }) => {
            SyncStateView::AwaitingCallback
        },
        (SyncStateView::ListenerBound { .. }, SyncEventView::ListenerUnavailable) => {
            SyncStateView::Failed { failure: SyncFailure::Bind }
        },
        (SyncStateView::AwaitingCallback, SyncEventView::CallbackSettled { outcome }) => {
            match outcome {
                Ok(context) => SyncStateView::Completed { context },
                Err(error) => SyncStateView::Failed { failure: SyncFailure::Sync(error) },
            }
        },
        _ => state,
    }
}

/// What is asked of the caller when `event` comes in `state`.
///
/// A refused token calls for the sign-in remedy. A listener that could not
/// be bound and a failed wait call for nothing: the attempt ends in silence,
/// with no URL handed over and nothing to publish.
pub open spec fn spec_sync_action(state: SyncStateView, event: SyncEventView) -> SyncActionView {
    match (state, event) {
        (SyncStateView::AcquiringToken, SyncEventView::TokenIssued { .. }) => {
            SyncActionView::BindListener
        },
        (SyncStateView::AcquiringToken, SyncEventView::TokenRefused { .. }) => {
            SyncActionView::OfferSignIn
        },
        (SyncStateView::ListenerBound { token }, SyncEventView::ListenerReady { port }) => {
            SyncActionView::OpenBrowser { url: spec_handoff_url(token, port) }
        },
        (SyncStateView::AwaitingCallback, SyncEventView::CallbackSettled { outcome }) => {
            match outcome {
                Ok(context) => SyncActionView::Publish { context },
                Err(_) => SyncActionView::Nothing,
            }
        },
        _ => SyncActionView::Nothing,
    }
}

/// How far an attempt has come.
pub open spec fn spec_progress(state: SyncStateView) -> nat {
    match state {
        SyncStateView::AcquiringToken => 0,
        SyncStateView::ListenerBound { .. } => 1,
        SyncStateView::AwaitingCallback => 2,
        SyncStateView::Completed { .. } => 3,
        SyncStateView::Failed { .. } => 3,
    }
}

/// One synchronisation attempt. It begins with the request for a token,
/// which the caller makes on creating it.
#[derive(Debug, PartialEq, Eq)]
pub struct SyncOrchestrator {
    pub state: SyncState,
}

impl View for SyncOrchestrator {
    type V = SyncStateView;

    open spec fn view(&self) -> SyncStateView {
        self.state@
    }
}

impl SyncOrchestrator {
    /// An attempt that waits for its token.
    pub fn new() -> (attempt: SyncOrchestrator)
        ensures
            attempt@ == SyncStateView::AcquiringToken,
    {
        SyncOrchestrator { state: SyncState::AcquiringToken }
    }

    /// Takes in what happened and says what to do next.
    pub fn step(&mut self, event: SyncEvent) -> (action: SyncAction)
        ensures
            final(self)@ == spec_sync_next(old(self)@, event@),
            action@ == spec_sync_action(old(self)@, event@),
    {
        let mut state = SyncState::AwaitingCallback;
        std::mem::swap(&mut self.state, &mut state);
        let (next, action) = match (state, event) {
            (SyncState::AcquiringToken, SyncEvent::TokenIssued { token }) => (
                SyncState::ListenerBound { token },
                SyncAction::BindListener,
            ),
            (SyncState::AcquiringToken, SyncEvent::TokenRefused { error }) => (
                SyncState::Failed { failure: SyncFailure::Auth(error) },
                SyncAction::OfferSignIn,
            ),
            (SyncState::ListenerBound { token }, SyncEvent::ListenerReady { port }) => {
                let url = handoff_url(token.as_str(), port);
                (SyncState::AwaitingCallback, SyncAction::OpenBrowser { url })
            },
            (SyncState::ListenerBound { .. }, SyncEvent::ListenerUnavailable) => (
                SyncState::Failed { failure: SyncFailure::Bind },
                SyncAction::Nothing,
            ),
            (SyncState::AwaitingCallback, SyncEvent::CallbackSettled { outcome }) => {
                match outcome {
                    Ok(context) => {
                        let published = context.clone();
                        (SyncState::Completed { context }, SyncAction::Publish {
                            context: published,
                        })
                    },
                    Err(error) => (
                        SyncState::Failed { failure: SyncFailure::Sync(error) },
                        SyncAction::Nothing,
                    ),
                }
            },
            (state, _) => (state, SyncAction::Nothing),
        };
        self.state = next;
        action
    }

    /// Whether the attempt is over.
    pub fn is_settled(&self) -> (settled: bool)
        ensures
            settled == (spec_progress(self@) == 3),
    {
        match &self.state {
            SyncState::Completed { .. } => true,
            SyncState::Failed { .. } => true,
            _ => false,
        }
    }
}

/// The steps of an attempt come in one order: the listener is bound only on
/// a token, the browser is opened only once the listener is bound, and a
/// context is published only on a callback that was awaited.
pub proof fn lemma_steps_in_order(state: SyncStateView, event: SyncEventView)
    ensures
        spec_sync_action(state, event) is BindListener ==> state is AcquiringToken
            && spec_sync_next(state, event) is ListenerBound,
        spec_sync_action(state, event) is OpenBrowser ==> state is ListenerBound && spec_sync_next(
            state,
            event,
        ) is AwaitingCallback,
        spec_sync_action(state, event) is Publish ==> state is AwaitingCallback && spec_sync_next(
            state,
            event,
        ) is Completed,
        spec_sync_action(state, event) is OfferSignIn ==> state is AcquiringToken && spec_sync_next(
            state,
            event,
        ) is Failed,
{
}

/// An attempt never goes back, moves by one step at a time unless it fails,
/// and stays where it is once it is over.
pub proof fn lemma_no_way_back(state: SyncStateView, event: SyncEventView)
    ensures
        spec_progress(spec_sync_next(state, event)) >= spec_progress(state),
        spec_sync_next(state, event) != state ==> spec_progress(spec_sync_next(state, event))
            == spec_progress(state) + 1 || spec_sync_next(state, event) is Failed,
        spec_progress(state) == 3 ==> spec_sync_next(state, event) == state && spec_sync_action(
            state,
            event,
        ) is Nothing,
{
}

/// An attempt that fails hands nothing out: no URL goes to the browser and
/// no context to the store. This holds of a listener that cannot be bound
/// as of every other failure.
pub proof fn lemma_failure_hands_nothing_out(state: SyncStateView, event: SyncEventView)
    requires
        spec_sync_next(state, event) is Failed,
    ensures
        !(spec_sync_action(state, event) is OpenBrowser),
        !(spec_sync_action(state, event) is Publish),
        !(spec_sync_action(state, event) is BindListener),
{
}

/// A listener that cannot be bound ends the attempt: it fails for want of a
/// port, whatever the token, and asks for nothing more.
pub proof fn lemma_failed_bind_ends_attempt(token: Seq<char>)
    ensures
        spec_sync_next(SyncStateView::ListenerBound { token }, SyncEventView::ListenerUnavailable)
            == (SyncStateView::Failed { failure: SyncFailure::Bind }),
        spec_sync_action(SyncStateView::ListenerBound { token }, SyncEventView::ListenerUnavailable)
            is Nothing,
{
}

/// What is published is the context of the callback, and the attempt ends
/// holding it.
pub proof fn lemma_publishes_callback(context: TaskSyncView)
    ensures
        spec_sync_action(
            SyncStateView::AwaitingCallback,
            SyncEventView::CallbackSettled { outcome: Ok(context) },
        ) == (SyncActionView::Publish { context }),
        spec_sync_next(
            SyncStateView::AwaitingCallback,
            SyncEventView::CallbackSettled { outcome: Ok(context) },
        ) == (SyncStateView::Completed { context }),
{
}

} // verus!
