//! The star worker as a state machine. The worker handles one request at a
//! time: it asks for the message, then for the star, then replies. Each call
//! of `step` takes the state and what has just happened, and says what state
//! follows and what to do next. Performing the action, and waiting for its
//! outcome, is left to the caller.

use vstd::prelude::*;
use vstd::string::*;
use crate::reply::{
    apology_reply, apology_text, ephemeral_response, penned_reply, penned_text,
    unavailable_text, unexpected_text, SlashCommandResponse, SlashCommandResponseView,
};
use crate::request::{StarRequest, StarRequestView};

verus! {

/// A message as the chat platform returns it.
#[derive(Debug, Clone, PartialEq, Eq)]
pub enum ChatMessage {
    /// An ordinary message, with its text if it has one.
    Standard { text: Option<String> },
    /// Any other kind of message.
    Other,
}

/// A message as plain values.
pub enum ChatMessageView {
    Standard { text: Option<Seq<char>> },
    Other,
}

impl View for ChatMessage {
    type V = ChatMessageView;

    open spec fn view(&self) -> ChatMessageView {
        match *self {
            ChatMessage::Standard { text: Some(text) } => ChatMessageView::Standard {
                text: Some(text@),
            },
            ChatMessage::Standard { text: None } => ChatMessageView::Standard { text: None },
            ChatMessage::Other => ChatMessageView::Other,
        }
    }
}

/// How the call that fetches the message ended.
#[derive(Debug, Clone, PartialEq, Eq)]
pub enum HistoryOutcome {
    /// The call succeeded and returned these messages.
    Messages(Vec<ChatMessage>),
    /// The call failed.
    Failed,
}

/// The outcome of the fetch as plain values.
pub enum HistoryOutcomeView {
    Messages(Seq<ChatMessageView>),
    Failed,
}

impl View for HistoryOutcome {
    type V = HistoryOutcomeView;

    open spec fn view(&self) -> HistoryOutcomeView {
        match *self {
            HistoryOutcome::Messages(messages) => HistoryOutcomeView::Messages(
                messages@.map_values(|m: ChatMessage| m@),
            ),
            HistoryOutcome::Failed => HistoryOutcomeView::Failed,
        }
    }
}

/// How the call that adds the star ended.
#[derive(Debug, Clone, PartialEq, Eq)]
pub enum StarOutcome {
    /// The star was added.
    Starred,
    /// The platform refused, with this error code.
    ApiError(String),
    /// The call failed in any other way.
    Failed,
}

/// The outcome of adding the star as plain values.
pub enum StarOutcomeView {
    Starred,
    ApiError(Seq<char>),
    Failed,
}

impl View for StarOutcome {
    type V = StarOutcomeView;

    open spec fn view(&self) -> StarOutcomeView {
        match *self {
            StarOutcome::Starred => StarOutcomeView::Starred,
            StarOutcome::ApiError(code) => StarOutcomeView::ApiError(code@),
            StarOutcome::Failed => StarOutcomeView::Failed,
        }
    }
}

/// Where the worker stands.
#[derive(Debug, Clone, PartialEq, Eq)]
pub enum WorkerState {
    /// Between requests: waiting for the next one.
    Idle,
    /// Waiting for the message of this request.
    Fetching(StarRequest),
    /// Waiting for the star on the message with this text.
    Starring { request: StarRequest, text: String },
}

/// The worker's state as plain values.
pub enum WorkerStateView {
    Idle,
    Fetching(StarRequestView),
    Starring { request: StarRequestView, text: Seq<char> },
}

impl View for WorkerState {
    type V = WorkerStateView;

    open spec fn view(&self) -> WorkerStateView {
        match *self {
            WorkerState::Idle => WorkerStateView::Idle,
            WorkerState::Fetching(request) => WorkerStateView::Fetching(request@),
            WorkerState::Starring { request, text } => WorkerStateView::Starring {
                request: request@,
                text: text@,
            },
        }
    }
}

/// What has just happened.
#[derive(Debug, Clone, PartialEq, Eq)]
pub enum WorkerEvent {
    /// A request came off the queue.
    Dequeued(StarRequest),
    /// The call that fetches the message returned.
    History(HistoryOutcome),
    /// The call that adds the star returned.
    Star(StarOutcome),
}

/// An event as plain values.
pub enum WorkerEventView {
    Dequeued(StarRequestView),
    History(HistoryOutcomeView),
    Star(StarOutcomeView),
}

impl View for WorkerEvent {
    type V = WorkerEventView;

    open spec fn view(&self) -> WorkerEventView {
        match *self {
            WorkerEvent::Dequeued(request) => WorkerEventView::Dequeued(request@),
            WorkerEvent::History(outcome) => WorkerEventView::History(outcome@),
            WorkerEvent::Star(outcome) => WorkerEventView::Star(outcome@),
        }
    }
}

/// What the worker does next.
#[derive(Debug, Clone, PartialEq, Eq)]
pub enum WorkerAction {
    /// Fetch at most `count` messages of the channel, from `oldest` to
    /// `latest`, the two ends included if `inclusive`.
    FetchHistory { channel_id: String, oldest: String, latest: String, inclusive: bool, count: u32 },
    /// Star the message of the channel with this timestamp.
    AddStar { channel_id: String, timestamp: String },
    /// Post the reply to the callback address, then take the next request.
    Reply { response_url: String, response: SlashCommandResponse },
}

/// An action as plain values.
pub enum WorkerActionView {
    FetchHistory {
        channel_id: Seq<char>,
        oldest: Seq<char>,
        latest: Seq<char>,
        inclusive: bool,
        count: u32,
    },
    AddStar { channel_id: Seq<char>, timestamp: Seq<char> },
    Reply { response_url: Seq<char>, response: SlashCommandResponseView },
}

impl View for WorkerAction {
    type V = WorkerActionView;

    open spec fn view(&self) -> WorkerActionView {
        match *self {
            WorkerAction::FetchHistory {
                channel_id,
                oldest,
                latest,
                inclusive,
                count,
            } => WorkerActionView::FetchHistory {
                channel_id: channel_id@,
                oldest: oldest@,
                latest: latest@,
                inclusive,
                count,
            },
            WorkerAction::AddStar { channel_id, timestamp } => WorkerActionView::AddStar {
                channel_id: channel_id@,
                timestamp: timestamp@,
            },
            WorkerAction::Reply { response_url, response } => WorkerActionView::Reply {
                response_url: response_url@,
                response: response@,
            },
        }
    }
}

/// The error code with which the platform says that the star is already there.
pub open spec fn already_starred_code() -> Seq<char> {
    "already_starred"@
}

/// Ending a request: say `text` to its callback address and go idle.
pub open spec fn reply_with(request: StarRequestView, text: Seq<char>) -> (
    WorkerStateView,
    WorkerActionView,
) {
    (
        WorkerStateView::Idle,
        WorkerActionView::Reply {
            response_url: request.response_url,
            response: ephemeral_response(text),
        },
    )
}

/// A new request: fetch the one message with exactly its timestamp.
pub open spec fn on_dequeued(request: StarRequestView) -> (WorkerStateView, WorkerActionView) {
    (
        WorkerStateView::Fetching(request),
        WorkerActionView::FetchHistory {
            channel_id: request.channel_id,
            oldest: request.message_timestamp,
            latest: request.message_timestamp,
            inclusive: true,
            count: 1,
        },
    )
}

/// After the fetch: unless exactly one message came back, the message could
/// not be retrieved; an ordinary message with text is starred; anything else
/// is unexpected.
pub open spec fn on_history(request: StarRequestView, outcome: HistoryOutcomeView) -> (
    WorkerStateView,
    WorkerActionView,
) {
    match outcome {
        HistoryOutcomeView::Messages(messages) => if messages.len() != 1 {
            reply_with(request, unavailable_text())
        } else {
            match messages[0] {
                ChatMessageView::Standard { text: Some(text) } => (
                    WorkerStateView::Starring { request, text },
                    WorkerActionView::AddStar {
                        channel_id: request.channel_id,
                        timestamp: request.message_timestamp,
                    },
                ),
                _ => reply_with(request, unexpected_text()),
            }
        },
        HistoryOutcomeView::Failed => reply_with(request, unavailable_text()),
    }
}

/// Whether the outcome counts as starred: the star was added, or it was
/// there already.
pub open spec fn counts_as_starred(outcome: StarOutcomeView) -> bool {
    match outcome {
        StarOutcomeView::Starred => true,
        StarOutcomeView::ApiError(code) => code == already_starred_code(),
        StarOutcomeView::Failed => false,
    }
}

/// After the star: report success, or apologise.
pub open spec fn on_star(request: StarRequestView, text: Seq<char>, outcome: StarOutcomeView) -> (
    WorkerStateView,
    WorkerActionView,
) {
    if counts_as_starred(outcome) {
        reply_with(request, penned_text(text))
    } else {
        reply_with(request, apology_text(text))
    }
}

/// The worker's transition: the state that follows and the action to take,
/// or `None` when the event is not the one that the state waits for.
pub open spec fn step_spec(state: WorkerStateView, event: WorkerEventView) -> Option<
    (WorkerStateView, WorkerActionView),
> {
    match (state, event) {
        (WorkerStateView::Idle, WorkerEventView::Dequeued(request)) => Some(on_dequeued(request)),
        (WorkerStateView::Fetching(request), WorkerEventView::History(outcome)) => Some(
            on_history(request, outcome),
        ),
        (WorkerStateView::Starring { request, text }, WorkerEventView::Star(outcome)) => Some(
            on_star(request, text, outcome),
        ),
        _ => None,
    }
}

/// Ends a request with the reply `text`.
fn reply(request: StarRequest, text: String) -> (r: (WorkerState, WorkerAction))
    ensures
        (r.0@, r.1@) == reply_with(request@, text@),
{
    (
        WorkerState::Idle,
        WorkerAction::Reply {
            response_url: request.response_url,
            response: SlashCommandResponse::ephemeral(text),
        },
    )
}

/// Starts work on a request that came off the queue.
pub fn begin(request: StarRequest) -> (r: (WorkerState, WorkerAction))
    ensures
        (r.0@, r.1@) == on_dequeued(request@),
{
    let action = WorkerAction::FetchHistory {
        channel_id: request.channel_id.clone(),
        oldest: request.message_timestamp.clone(),
        latest: request.message_timestamp.clone(),
        inclusive: true,
        count: 1,
    };
    (WorkerState::Fetching(request), action)
}

/// Decides what follows the fetch of the message.
pub fn after_history(request: StarRequest, outcome: HistoryOutcome) -> (r: (
    WorkerState,
    WorkerAction,
))
    ensures
        (r.0@, r.1@) == on_history(request@, outcome@),
{
    match outcome {
        HistoryOutcome::Messages(messages) => {
            let mut messages = messages;
            if messages.len() != 1 {
                reply(request, String::from_str("Couldn't retrieve that message."))
            } else {
                let message = messages.remove(0);
                match message {
                    ChatMessage::Standard { text: Some(text) } => {
                        let action = WorkerAction::AddStar {
                            channel_id: request.channel_id.clone(),
                            timestamp: request.message_timestamp.clone(),
                        };
                        (WorkerState::Starring { request, text }, action)
                    },
                    _ => reply(request, String::from_str("Unexpected message.")),
                }
            }
        },
        HistoryOutcome::Failed => reply(
            request,
            String::from_str("Couldn't retrieve that message."),
        ),
    }
}

/// Whether the outcome counts as starred.
pub fn is_starred(outcome: &StarOutcome) -> (b: bool)
    ensures
        b == counts_as_starred(outcome@),
{
    match outcome {
        StarOutcome::Starred => true,
        StarOutcome::ApiError(code) => *code == String::from_str("already_starred"),
        StarOutcome::Failed => false,
    }
}

/// Decides what follows the attempt to star the message.
pub fn after_star(request: StarRequest, text: String, outcome: StarOutcome) -> (r: (
    WorkerState,
    WorkerAction,
))
    ensures
        (r.0@, r.1@) == on_star(request@, text@, outcome@),
{
    if is_starred(&outcome) {
        reply(request, penned_reply(text.as_str()))
    } else {
        reply(request, apology_reply(text.as_str()))
    }
}

/// One step of the worker: from the state and what has just happened to the
/// state that follows and the action to take. `None` when the event is not
/// the one that the state waits for.
pub fn step(state: WorkerState, event: WorkerEvent) -> (r: Option<(WorkerState, WorkerAction)>)
    ensures
        match r {
            Some((next, action)) => step_spec(state@, event@) == Some((next@, action@)),
            None => step_spec(state@, event@).is_none(),
        },
{
    match state {
        WorkerState::Idle => match event {
            WorkerEvent::Dequeued(request) => Some(begin(request)),
            _ => None,
        },
        WorkerState::Fetching(request) => match event {
            WorkerEvent::History(outcome) => Some(after_history(request, outcome)),
            _ => None,
        },
        WorkerState::Starring { request, text } => match event {
            WorkerEvent::Star(outcome) => Some(after_star(request, text, outcome)),
            _ => None,
        },
    }
}

/// Unless exactly one message came back, the user is told that the message
/// could not be retrieved, and no star is asked for.
pub proof fn lemma_only_one_message_is_retrievable(
    request: StarRequestView,
    outcome: HistoryOutcomeView,
)
    requires
        !(outcome matches HistoryOutcomeView::Messages(messages) && messages.len() == 1),
    ensures
        on_history(request, outcome) == reply_with(request, unavailable_text()),
{
}

/// A star that was there already is reported exactly as one that was added.
pub proof fn lemma_already_starred_is_success(request: StarRequestView, text: Seq<char>)
    ensures
        on_star(request, text, StarOutcomeView::ApiError(already_starred_code())) == on_star(
            request,
            text,
            StarOutcomeView::Starred,
        ),
        on_star(request, text, StarOutcomeView::Starred) == reply_with(request, penned_text(text)),
{
}

/// Any failure other than "already starred" is answered with the apology,
/// which quotes the message's text in full.
pub proof fn lemma_other_failure_apologises(
    request: StarRequestView,
    text: Seq<char>,
    outcome: StarOutcomeView,
)
    requires
        !(outcome is Starred),
        !(outcome matches StarOutcomeView::ApiError(code) && code == already_starred_code()),
    ensures
        on_star(request, text, outcome) == reply_with(request, apology_text(text)),
        ({
            let quoted_from = "Alack! Could not pen \""@.len() as int;
            apology_text(text).subrange(quoted_from, quoted_from + text.len()) == text
        }),
{
    let quoted_from = "Alack! Could not pen \""@.len() as int;
    assert(apology_text(text).subrange(quoted_from, quoted_from + text.len()) =~= text);
}

/// A step replies exactly when it ends the request: the action is a reply if
/// and only if the worker goes idle.
pub proof fn lemma_reply_ends_request(state: WorkerStateView, event: WorkerEventView)
    ensures
        step_spec(state, event) matches Some((next, action)) ==> ((action is Reply) <==> (next
            is Idle)),
{
}

/// Every request, whatever the two calls return, ends in exactly one reply,
/// sent to its own callback address, after which the worker is idle: either
/// the step after the fetch replies, or it asks for the star and the step
/// after that replies.
pub proof fn lemma_one_reply_per_request(
    request: StarRequestView,
    history: HistoryOutcomeView,
    star: StarOutcomeView,
)
    ensures
        ({
            let (fetching, first) = on_dequeued(request);
            let (second_state, second) = on_history(request, history);
            &&& fetching == WorkerStateView::Fetching(request)
            &&& first is FetchHistory
            &&& match second_state {
                WorkerStateView::Idle => second matches WorkerActionView::Reply {
                    response_url,
                    ..
                } && response_url == request.response_url,
                WorkerStateView::Starring { request: starring, text } => {
                    let (third_state, third) = on_star(starring, text, star);
                    &&& second is AddStar
                    &&& starring == request
                    &&& third_state is Idle
                    &&& third matches WorkerActionView::Reply { response_url, .. }
                        && response_url == request.response_url
                },
                WorkerStateView::Fetching(_) => false,
            }
        }),
{
}

} // verus!
