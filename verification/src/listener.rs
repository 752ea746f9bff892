//! The wait for the callback, as a state machine. The caller owns the socket:
//! it performs each action that the machine asks for and reports back what
//! happened.

use vstd::prelude::*;
use crate::callback::{parse_callback, parsed_view, spec_parse_callback};
use crate::error::SyncError;
use crate::sync_data::{TaskSyncData, TaskSyncView};

verus! {

/// The address that the listener binds: the loopback interface, with a port
/// of the system's choosing.
pub const LISTEN_ADDRESS: &'static str = "127.0.0.1:0";

/// How many polls a listener makes before it gives up.
pub const POLL_BUDGET: u64 = 300;

/// How long one poll waits for a request, in seconds.
pub const POLL_SECONDS: u64 = 1;

/// The status of the answer to a callback.
pub const RESPONSE_STATUS: u16 = 200;

/// The content type of the answer to a callback.
pub const RESPONSE_CONTENT_TYPE: &'static str = "text/html";

/// The page that answers a callback: it tells the user that the flow is
/// complete and tries to close the tab.
pub const RESPONSE_BODY: &'static str =
    "<!DOCTYPE html>\n<html>\n<head>\n    <title>Sync Complete</title>\n    <script>window.close();</script>\n</head>\n<body>\n    <h1>Sync Complete!</h1>\n    <p>You can close this tab and return to Oppla IDE.</p>\n</body>\n</html>";

/// Where a listener stands.
#[derive(Debug, PartialEq, Eq)]
pub enum ListenerState {
    /// No valid callback has come yet; `remaining` polls are left, the one
    /// under way included.
    Waiting { remaining: u64 },
    /// A receive failed, and the time of the poll that it cut short is sat
    /// out; `remaining` polls are left, that one included.
    Resting { remaining: u64 },
    /// A valid callback came and has yet to be answered.
    Responding { context: TaskSyncData },
    /// The callback was answered, or the answer failed: either way its
    /// context is the result.
    Completed { context: TaskSyncData },
    /// The budget ran out.
    TimedOut,
}

/// The mathematical value of a [`ListenerState`].
pub enum ListenerView {
    Waiting { remaining: u64 },
    Resting { remaining: u64 },
    Responding { context: TaskSyncView },
    Completed { context: TaskSyncView },
    TimedOut,
}

impl View for ListenerState {
    type V = ListenerView;

    open spec fn view(&self) -> ListenerView {
        match *self {
            ListenerState::Waiting { remaining } => ListenerView::Waiting { remaining },
            ListenerState::Resting { remaining } => ListenerView::Resting { remaining },
            ListenerState::Responding { context } => ListenerView::Responding {
                context: context@,
            },
            ListenerState::Completed { context } => ListenerView::Completed { context: context@ },
            ListenerState::TimedOut => ListenerView::TimedOut,
        }
    }
}

/// What the caller reports to the listener.
#[derive(Debug, PartialEq, Eq)]
pub enum ListenerEvent {
    /// A poll, or a rest, lasted its full time and brought no request.
    Silence,
    /// A poll ended early because the socket failed to receive.
    ReceiveFailed,
    /// A request came in at time `now`, in seconds since the Unix epoch;
    /// `target` is its path and query.
    Request { target: String, now: u64 },
    /// The answer was written to the browser, or could not be.
    Responded { delivered: bool },
}

/// The mathematical value of a [`ListenerEvent`].
pub enum ListenerEventView {
    Silence,
    ReceiveFailed,
    Request { target: Seq<char>, now: u64 },
    Responded { delivered: bool },
}

impl View for ListenerEvent {
    type V = ListenerEventView;

    open spec fn view(&self) -> ListenerEventView {
        match *self {
            ListenerEvent::Silence => ListenerEventView::Silence,
            ListenerEvent::ReceiveFailed => ListenerEventView::ReceiveFailed,
            ListenerEvent::Request { target, now } => ListenerEventView::Request {
                target: target@,
                now,
            },
            ListenerEvent::Responded { delivered } => ListenerEventView::Responded { delivered },
        }
    }
}

/// What the listener asks of the caller.
#[derive(Clone, Copy, Debug, PartialEq, Eq, Structural)]
pub enum ListenerAction {
    /// Wait up to [`POLL_SECONDS`] for a request and report what came.
    Poll,
    /// Let [`POLL_SECONDS`] pass without receiving, then report silence.
    Rest,
    /// Answer the request with [`RESPONSE_BODY`] and report whether that
    /// succeeded.
    Respond,
    /// Release the socket: the wait is over.
    Stop,
}

/// What a step of the listener gives back.
#[derive(Clone, Copy, Debug, PartialEq, Eq, Structural)]
pub struct ListenerStep {
    /// What the caller is to do next.
    pub action: ListenerAction,
    /// What went wrong in this step without ending the wait, for the log.
    pub notice: Option<SyncError>,
}

/// The state of a listener that may poll `budget` times.
pub open spec fn spec_new_listener(budget: u64) -> ListenerView {
    if budget == 0 {
        ListenerView::TimedOut
    } else {
        ListenerView::Waiting { remaining: budget }
    }
}

/// The state after one poll is used up.
pub open spec fn spec_poll_spent(remaining: u64) -> ListenerView {
    if remaining <= 1 {
        ListenerView::TimedOut
    } else {
        ListenerView::Waiting { remaining: (remaining - 1) as u64 }
    }
}

/// The state that follows `state` on `event`.
///
/// While waiting, a request that reads as a callback is captured; silence,
/// and a request that does not read as one, use up a poll. A receive that
/// failed uses up none by itself: it costs a rest as long as a poll, and the
/// silence at the end of that rest uses up the poll, so that the budget
/// never runs out sooner than its polls take. A captured context becomes
/// the result as soon as the answer was attempted. Events that the state
/// does not wait for change nothing.
pub open spec fn spec_listener_step(state: ListenerView, event: ListenerEventView) -> ListenerView {
    match state {
        ListenerView::Waiting { remaining } => match event {
            ListenerEventView::Silence => spec_poll_spent(remaining),
            ListenerEventView::ReceiveFailed => ListenerView::Resting { remaining },
            ListenerEventView::Request { target, now } => match spec_parse_callback(target, now) {
                Ok(context) => ListenerView::Responding { context },
                Err(_) => spec_poll_spent(remaining),
            },
            ListenerEventView::Responded { .. } => state,
        },
        ListenerView::Resting { remaining } => match event {
            ListenerEventView::Silence => spec_poll_spent(remaining),
            _ => state,
        },
        ListenerView::Responding { context } => match event {
            ListenerEventView::Responded { .. } => ListenerView::Completed { context },
            _ => state,
        },
        _ => state,
    }
}

/// What goes wrong when `event` comes in `state`, short of ending the wait:
/// a request that does not read as a callback, or an answer that could not
/// be written.
pub open spec fn spec_listener_notice(state: ListenerView, event: ListenerEventView) -> Option<
    SyncError,
> {
    match (state, event) {
        (ListenerView::Waiting { .. }, ListenerEventView::Request { target, now }) => {
            if spec_parse_callback(target, now) is Err {
                Some(SyncError::ParseFailure)
            } else {
                None
            }
        },
        (ListenerView::Responding { .. }, ListenerEventView::Responded { delivered }) => {
            if delivered {
                None
            } else {
                Some(SyncError::RespondFailure)
            }
        },
        _ => None,
    }
}

/// What a listener in `state` asks for.
pub open spec fn spec_listener_action(state: ListenerView) -> ListenerAction {
    match state {
        ListenerView::Waiting { .. } => ListenerAction::Poll,
        ListenerView::Resting { .. } => ListenerAction::Rest,
        ListenerView::Responding { .. } => ListenerAction::Respond,
        _ => ListenerAction::Stop,
    }
}

/// The result of a listener in `state`, once it has one.
pub open spec fn spec_listener_outcome(state: ListenerView) -> Option<
    Result<TaskSyncView, SyncError>,
> {
    match state {
        ListenerView::Completed { context } => Some(Ok(context)),
        ListenerView::TimedOut => Some(Err(SyncError::Timeout)),
        _ => None,
    }
}

/// The wait for one callback.
#[derive(Debug, PartialEq, Eq)]
pub struct CallbackListener {
    pub state: ListenerState,
}

impl View for CallbackListener {
    type V = ListenerView;

    open spec fn view(&self) -> ListenerView {
        self.state@
    }
}

impl CallbackListener {
    /// A listener that gives up after `budget` polls.
    pub fn new(budget: u64) -> (listener: CallbackListener)
        ensures
            listener@ == spec_new_listener(budget),
    {
        if budget == 0 {
            CallbackListener { state: ListenerState::TimedOut }
        } else {
            CallbackListener { state: ListenerState::Waiting { remaining: budget } }
        }
    }

    /// What the caller is to do next.
    pub fn action(&self) -> (action: ListenerAction)
        ensures
            action == spec_listener_action(self@),
    {
        match &self.state {
            ListenerState::Waiting { .. } => ListenerAction::Poll,
            ListenerState::Resting { .. } => ListenerAction::Rest,
            ListenerState::Responding { .. } => ListenerAction::Respond,
            _ => ListenerAction::Stop,
        }
    }

    /// Takes in what happened and says what to do next.
    pub fn step(&mut self, event: ListenerEvent) -> (step: ListenerStep)
        ensures
            final(self)@ == spec_listener_step(old(self)@, event@),
            step.action == spec_listener_action(final(self)@),
            step.notice == spec_listener_notice(old(self)@, event@),
    {
        let mut state = ListenerState::TimedOut;
        std::mem::swap(&mut self.state, &mut state);
        let (next, notice) = match state {
            ListenerState::Waiting { remaining } => match event {
                ListenerEvent::Silence => (poll_spent(remaining), None),
                ListenerEvent::ReceiveFailed => (ListenerState::Resting { remaining }, None),
                ListenerEvent::Request { target, now } => match parse_callback(
                    target.as_str(),
                    now,
                ) {
                    Ok(context) => (ListenerState::Responding { context }, None),
                    Err(error) => (poll_spent(remaining), Some(error)),
                },
                ListenerEvent::Responded { .. } => (ListenerState::Waiting { remaining }, None),
            },
            ListenerState::Resting { remaining } => match event {
                ListenerEvent::Silence => (poll_spent(remaining), None),
                _ => (ListenerState::Resting { remaining }, None),
            },
            ListenerState::Responding { context } => match event {
                ListenerEvent::Responded { delivered } => (
                    ListenerState::Completed { context },
                    if delivered {
                        None
                    } else {
                        Some(SyncError::RespondFailure)
                    },
                ),
                _ => (ListenerState::Responding { context }, None),
            },
            ListenerState::Completed { context } => (ListenerState::Completed { context }, None),
            ListenerState::TimedOut => (ListenerState::TimedOut, None),
        };
        self.state = next;
        ListenerStep { action: self.action(), notice }
    }

    /// The result of the wait, once it is over: the context of the callback,
    /// or [`SyncError::Timeout`].
    pub fn outcome(&self) -> (outcome: Option<Result<TaskSyncData, SyncError>>)
        ensures
            outcome is Some <==> spec_listener_outcome(self@) is Some,
            outcome is Some ==> parsed_view(outcome->Some_0) == spec_listener_outcome(
                self@,
            )->Some_0,
    {
        match &self.state {
            ListenerState::Completed { context } => Some(Ok(context.clone())),
            ListenerState::TimedOut => Some(Err(SyncError::Timeout)),
            _ => None,
        }
    }
}

fn poll_spent(remaining: u64) -> (state: ListenerState)
    ensures
        state@ == spec_poll_spent(remaining),
{
    if remaining <= 1 {
        ListenerState::TimedOut
    } else {
        ListenerState::Waiting { remaining: remaining - 1 }
    }
}

/// The state of a listener with `budget` polls after `polls` polls that all
/// ended in silence.
pub open spec fn spec_after_silence(budget: u64, polls: nat) -> ListenerView
    decreases polls,
{
    if polls == 0 {
        spec_new_listener(budget)
    } else {
        spec_listener_step(
            spec_after_silence(budget, (polls - 1) as nat),
            ListenerEventView::Silence,
        )
    }
}

/// Timeout boundary: a listener that never receives a request is still
/// waiting after every poll short of its budget, has timed out when the
/// budget is used up, and stays so.
pub proof fn lemma_timeout_boundary(budget: u64, polls: nat)
    ensures
        polls < budget ==> spec_after_silence(budget, polls) == (ListenerView::Waiting {
            remaining: (budget - polls) as u64,
        }),
        polls >= budget ==> spec_after_silence(budget, polls) == ListenerView::TimedOut,
        polls < budget ==> spec_listener_outcome(spec_after_silence(budget, polls)) is None,
        polls >= budget ==> spec_listener_outcome(spec_after_silence(budget, polls)) == Some(
            Err::<TaskSyncView, SyncError>(SyncError::Timeout),
        ),
    decreases polls,
{
    if polls > 0 {
        lemma_timeout_boundary(budget, (polls - 1) as nat);
    }
}

/// The state that `state` comes to through `events`, taken in turn.
pub open spec fn spec_listener_run(state: ListenerView, events: Seq<ListenerEventView>) -> ListenerView
    decreases events.len(),
{
    if events.len() == 0 {
        state
    } else {
        spec_listener_step(spec_listener_run(state, events.drop_last()), events.last())
    }
}

/// How many of `events` are silences: the polls and rests that lasted their
/// full time.
pub open spec fn spec_silences(events: Seq<ListenerEventView>) -> nat
    decreases events.len(),
{
    if events.len() == 0 {
        0
    } else if events.last() is Silence {
        spec_silences(events.drop_last()) + 1
    } else {
        spec_silences(events.drop_last())
    }
}

/// Whether a state has `remaining` polls left and no callback yet.
pub open spec fn spec_polls_left(state: ListenerView, remaining: int) -> bool {
    match state {
        ListenerView::Waiting { remaining: left } => left == remaining,
        ListenerView::Resting { remaining: left } => left == remaining,
        _ => false,
    }
}

/// Timeout boundary, with receives that fail: a listener to which no
/// request comes times out when as many polls and rests have lasted their
/// full time as its budget allows, not before, and stays so. A receive that
/// failed brings the timeout no nearer.
pub proof fn lemma_timeout_counts_full_waits(budget: u64, events: Seq<ListenerEventView>)
    requires
        forall|i: int|
            0 <= i < events.len() ==> (#[trigger] events[i]) is Silence || events[i]
                is ReceiveFailed,
    ensures
        spec_silences(events) < budget ==> spec_polls_left(
            spec_listener_run(spec_new_listener(budget), events),
            budget - spec_silences(events),
        ),
        spec_silences(events) < budget ==> spec_listener_outcome(
            spec_listener_run(spec_new_listener(budget), events),
        ) is None,
        spec_silences(events) >= budget ==> spec_listener_run(spec_new_listener(budget), events)
            == ListenerView::TimedOut,
    decreases events.len(),
{
    if events.len() > 0 {
        let before = events.drop_last();
        assert forall|i: int| 0 <= i < before.len() implies (#[trigger] before[i]) is Silence
            || before[i] is ReceiveFailed by {
            assert(before[i] == events[i]);
        }
        lemma_timeout_counts_full_waits(budget, before);
        assert(events.last() == events[events.len() - 1]);
    }
}

/// To a listener that polls, a request that does not read as a callback
/// counts as silence: it uses up a poll and never ends the wait by itself.
pub proof fn lemma_unreadable_request_is_silence(state: ListenerView, target: Seq<char>, now: u64)
    requires
        spec_parse_callback(target, now) is Err,
        state is Waiting,
    ensures
        spec_listener_step(state, ListenerEventView::Request { target, now })
            == spec_listener_step(state, ListenerEventView::Silence),
{
}

/// The context of a listener that has captured a callback, or has ended
/// with one.
pub open spec fn spec_captured(state: ListenerView) -> Option<TaskSyncView> {
    match state {
        ListenerView::Responding { context } => Some(context),
        ListenerView::Completed { context } => Some(context),
        _ => None,
    }
}

/// A listener takes one callback: once a context is captured, nothing that
/// comes later replaces it.
pub proof fn lemma_first_callback_stays(state: ListenerView, event: ListenerEventView)
    requires
        spec_captured(state) is Some,
    ensures
        spec_captured(spec_listener_step(state, event)) == spec_captured(state),
{
}

/// Whether the answer reaches the browser does not change the result.
pub proof fn lemma_answer_does_not_change_result(context: TaskSyncView, delivered: bool)
    ensures
        spec_listener_outcome(
            spec_listener_step(
                ListenerView::Responding { context },
                ListenerEventView::Responded { delivered },
            ),
        ) == Some(Ok::<TaskSyncView, SyncError>(context)),
{
}

} // verus!
