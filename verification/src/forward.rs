//! The forwarding operation, as a machine that the host drives.
//!
//! Forwarding one request takes two exchanges with the network: sending the
//! request, and reading the body of what came back. The host performs both.
//! It calls [`start`] with the caller's description, does what the returned
//! action says, and reports the outcome to [`step`], until the action is
//! [`Action::Finish`].

use vstd::prelude::*;
use crate::config::AppConfig;
use crate::json::{error_message, json_reading, json_text, null, null_text, parse};
use crate::query::{query_text, Pair, QueryParams};
use crate::request::{
    body_view, build_request, method_named, query_view, request_for, url_text, OutboundRequest,
    RequestView,
};

verus! {

/// What the front-end receives for a request that went through.
#[derive(Debug)]
pub struct ApiResponse {
    /// The HTTP status code of the backend's answer.
    pub status: u16,
    /// The body of the answer as JSON; JSON's `null` for an empty body.
    pub data: serde_json::Value,
}

/// A response with its data as compact JSON text.
pub struct ResponseView {
    pub status: u16,
    pub data: Seq<char>,
}

impl View for ApiResponse {
    type V = ResponseView;

    open spec fn view(&self) -> ResponseView {
        ResponseView { status: self.status, data: json_text(self.data) }
    }
}

/// A result as plain text: the response's view, or the error's message.
pub open spec fn reply_view(reply: Result<ApiResponse, String>) -> Result<ResponseView, Seq<char>> {
    match reply {
        Ok(response) => Ok(response@),
        Err(message) => Err(message@),
    }
}

/// How far an invocation has come.
#[derive(Debug, Clone, Copy, PartialEq, Eq)]
pub enum Phase {
    /// The request is on its way.
    AwaitingResponse,
    /// The backend has answered with this status; its body is being read.
    AwaitingBody { status: u16 },
    /// The result has been handed out.
    Finished,
}

/// What the host reports back.
#[derive(Debug)]
pub enum Event {
    /// The request was sent and an answer with this status has arrived.
    Responded { status: u16 },
    /// The request could not be sent or no answer came.
    DispatchFailed { description: String },
    /// The body of the answer was read in full.
    BodyRead { text: String },
    /// Reading the body broke off.
    ReadFailed { description: String },
}

/// An event as plain text.
pub enum EventView {
    Responded { status: u16 },
    DispatchFailed { description: Seq<char> },
    BodyRead { text: Seq<char> },
    ReadFailed { description: Seq<char> },
}

impl View for Event {
    type V = EventView;

    open spec fn view(&self) -> EventView {
        match *self {
            Event::Responded { status } => EventView::Responded { status },
            Event::DispatchFailed { description } => EventView::DispatchFailed {
                description: description@,
            },
            Event::BodyRead { text } => EventView::BodyRead { text: text@ },
            Event::ReadFailed { description } => EventView::ReadFailed {
                description: description@,
            },
        }
    }
}

/// What the host has to do next.
#[derive(Debug)]
pub enum Action {
    /// Send this request and report `Responded` or `DispatchFailed`.
    Send(OutboundRequest),
    /// Read the body of the answer and report `BodyRead` or `ReadFailed`.
    ReadBody,
    /// Hand this result to the caller. Nothing follows.
    Finish(Result<ApiResponse, String>),
}

/// An action as plain text.
pub enum ActionView {
    Send(RequestView),
    ReadBody,
    Finish(Result<ResponseView, Seq<char>>),
}

impl View for Action {
    type V = ActionView;

    open spec fn view(&self) -> ActionView {
        match *self {
            Action::Send(request) => ActionView::Send(request@),
            Action::ReadBody => ActionView::ReadBody,
            Action::Finish(reply) => ActionView::Finish(reply_view(reply)),
        }
    }
}

/// The message for a method that is not forwarded.
pub open spec fn invalid_method_text() -> Seq<char> {
    "Invalid method"@
}

/// The result owed for an answer with this status and body: for an empty
/// body the success that carries JSON's `null`, for a body that reads as
/// JSON the success that carries its value, and for any other body the error
/// with the reader's message.
pub open spec fn answer_for(status: u16, body: Seq<char>) -> Result<ResponseView, Seq<char>> {
    if body.len() == 0 {
        Ok(ResponseView { status, data: null_text() })
    } else {
        match json_reading(body) {
            Ok(data) => Ok(ResponseView { status, data }),
            Err(message) => Err(message),
        }
    }
}

/// How an invocation begins: with the request to send, or, for a method
/// that is not forwarded, with its end.
pub open spec fn first_move(
    base: Seq<char>,
    path: Seq<char>,
    query: Option<Seq<Pair>>,
    method: Seq<char>,
    token: Seq<char>,
    body: Option<serde_json::Value>,
) -> (Phase, ActionView) {
    match method_named(method) {
        Some(known) => (
            Phase::AwaitingResponse,
            ActionView::Send(request_for(base, path, query, known, token, body)),
        ),
        None => (Phase::Finished, ActionView::Finish(Err(invalid_method_text()))),
    }
}

/// How an invocation goes on: the phase and the action that follow an
/// event, or `None` for an event that the phase does not wait for.
pub open spec fn next_move(phase: Phase, event: EventView) -> Option<(Phase, ActionView)> {
    match (phase, event) {
        (Phase::AwaitingResponse, EventView::Responded { status }) => Some(
            (Phase::AwaitingBody { status }, ActionView::ReadBody),
        ),
        (Phase::AwaitingResponse, EventView::DispatchFailed { description }) => Some(
            (Phase::Finished, ActionView::Finish(Err(description))),
        ),
        (Phase::AwaitingBody { status }, EventView::BodyRead { text }) => Some(
            (Phase::Finished, ActionView::Finish(answer_for(status, text))),
        ),
        (Phase::AwaitingBody { .. }, EventView::ReadFailed { description }) => Some(
            (Phase::Finished, ActionView::Finish(Err(description))),
        ),
        _ => None,
    }
}

/// The phase and the action of a move as plain text.
pub open spec fn move_view(moved: Option<(Phase, Action)>) -> Option<(Phase, ActionView)> {
    match moved {
        Some((phase, action)) => Some((phase, action@)),
        None => None,
    }
}

/// Wraps what reading a body gave: a value becomes the success with the
/// given status, a message becomes the error.
pub fn response_of(status: u16, parsed: Result<serde_json::Value, String>) -> (reply: Result<
    ApiResponse,
    String,
>)
    ensures
        reply == match parsed {
            Ok(data) => Ok::<ApiResponse, String>(ApiResponse { status, data }),
            Err(message) => Err::<ApiResponse, String>(message),
        },
{
    match parsed {
        Ok(data) => Ok(ApiResponse { status, data }),
        Err(message) => Err(message),
    }
}

/// Turns the status and the body of an answer into the result: JSON's
/// `null` for an empty body, else what reading the body as JSON gives.
pub fn read_response(status: u16, body: &str) -> (reply: Result<ApiResponse, String>)
    ensures
        reply_view(reply) == answer_for(status, body@),
{
    if body.is_empty() {
        response_of(status, Ok(null()))
    } else {
        match parse(body) {
            Ok(value) => response_of(status, Ok(value)),
            Err(error) => response_of(status, Err(error_message(&error))),
        }
    }
}

/// Begins an invocation. For one of the methods `GET`, `POST`, `PUT`,
/// `DELETE` the host is told to send the request that the description asks
/// for. For any other method the invocation is over at once, with the
/// error `Invalid method`, and nothing is to be sent.
pub fn start(
    path: &str,
    query_param: Option<&QueryParams>,
    method: &str,
    token: &str,
    body: Option<&serde_json::Value>,
    config: &AppConfig,
) -> (begun: (Phase, Action))
    ensures
        (begun.0, begun.1@) == first_move(
            config.backend_url@,
            path@,
            query_view(query_param),
            method@,
            token@,
            body_view(body),
        ),
{
    match build_request(config.backend_url.as_str(), path, query_param, method, token, body) {
        Some(request) => (Phase::AwaitingResponse, Action::Send(request)),
        None => (Phase::Finished, Action::Finish(Err("Invalid method".to_owned()))),
    }
}

/// Takes the outcome of the last action and says what follows. An event
/// that the phase does not wait for is refused with `None`.
pub fn step(phase: Phase, event: Event) -> (moved: Option<(Phase, Action)>)
    ensures
        move_view(moved) == next_move(phase, event@),
{
    match phase {
        Phase::AwaitingResponse => match event {
            Event::Responded { status } => Some((Phase::AwaitingBody { status }, Action::ReadBody)),
            Event::DispatchFailed { description } => Some(
                (Phase::Finished, Action::Finish(Err(description))),
            ),
            _ => None,
        },
        Phase::AwaitingBody { status } => match event {
            Event::BodyRead { text } => Some(
                (Phase::Finished, Action::Finish(read_response(status, text.as_str()))),
            ),
            Event::ReadFailed { description } => Some(
                (Phase::Finished, Action::Finish(Err(description))),
            ),
            _ => None,
        },
        Phase::Finished => None,
    }
}

/// Without parameters the URL of the request to send is the base followed
/// by the path and nothing else, whatever the method.
pub proof fn url_without_parameters(
    base: Seq<char>,
    path: Seq<char>,
    query: Option<Seq<Pair>>,
    method: Seq<char>,
    token: Seq<char>,
    body: Option<serde_json::Value>,
)
    requires
        method_named(method) is Some,
        query matches Some(pairs) ==> pairs.len() == 0,
    ensures
        first_move(base, path, query, method, token, body).1 matches ActionView::Send(request)
            && request.url == base + path,
{
}

/// With at least one parameter the URL of the request to send is the base,
/// the path, a `?`, and every parameter as `key=value`, with `&` between
/// one parameter and the next.
pub proof fn url_with_parameters(
    base: Seq<char>,
    path: Seq<char>,
    pairs: Seq<Pair>,
    method: Seq<char>,
    token: Seq<char>,
    body: Option<serde_json::Value>,
)
    requires
        method_named(method) is Some,
        pairs.len() > 0,
    ensures
        first_move(base, path, Some(pairs), method, token, body).1 matches ActionView::Send(
            request,
        ) && request.url == url_text(base, path, Some(pairs)) && request.url == base + path
            + seq!['?'] + query_text(pairs),
{
}

/// A method whose name is none of `GET`, `POST`, `PUT`, `DELETE`, letter
/// for letter, ends the invocation at once in the error `Invalid method`.
/// No request is handed out, so none is sent.
pub proof fn unknown_method_sends_nothing(
    base: Seq<char>,
    path: Seq<char>,
    query: Option<Seq<Pair>>,
    method: Seq<char>,
    token: Seq<char>,
    body: Option<serde_json::Value>,
)
    requires
        method != "GET"@,
        method != "POST"@,
        method != "PUT"@,
        method != "DELETE"@,
    ensures
        first_move(base, path, query, method, token, body) == (
            Phase::Finished,
            ActionView::Finish(Err("Invalid method"@)),
        ),
{
}

/// Every request to send carries the caller's token, as it was given, in
/// an `Authorization` header, and carries no second header of that name.
pub proof fn request_carries_token(
    base: Seq<char>,
    path: Seq<char>,
    query: Option<Seq<Pair>>,
    method: Seq<char>,
    token: Seq<char>,
    body: Option<serde_json::Value>,
)
    ensures
        first_move(base, path, query, method, token, body).1 matches ActionView::Send(request) ==> {
            &&& request.headers[0] == ("Authorization"@, "Bearer "@ + token)
            &&& forall|i: int|
                0 < i < request.headers.len() ==> (#[trigger] request.headers[i]).0
                    != "Authorization"@
        },
{
    reveal_strlit("Authorization");
    reveal_strlit("Content-Type");
    assert("Authorization"@.len() != "Content-Type"@.len());
}

/// A request made with a body declares JSON as its content type and carries
/// the compact JSON text of that body. A request made without one carries
/// no payload and only the `Authorization` header.
pub proof fn request_carries_body(
    base: Seq<char>,
    path: Seq<char>,
    query: Option<Seq<Pair>>,
    method: Seq<char>,
    token: Seq<char>,
    body: Option<serde_json::Value>,
)
    ensures
        first_move(base, path, query, method, token, body).1 matches ActionView::Send(request)
            ==> match body {
            Some(value) => {
                &&& request.body == Some(json_text(value))
                &&& request.headers.len() == 2
                &&& request.headers[1] == ("Content-Type"@, "application/json"@)
            },
            None => {
                &&& request.body is None
                &&& request.headers.len() == 1
            },
        },
{
}

/// An answer with an empty body ends the invocation in a success that
/// carries the answer's status and JSON's `null`: no error, and no missing
/// data.
pub proof fn empty_body_gives_null(status: u16)
    ensures
        next_move(Phase::AwaitingBody { status }, EventView::BodyRead { text: Seq::empty() })
            == Some(
            (
                Phase::Finished,
                ActionView::Finish(Ok(ResponseView { status, data: seq!['n', 'u', 'l', 'l'] })),
            ),
        ),
{
}

/// An answer with a body ends the invocation as reading the body as JSON
/// ends: in a success that carries the answer's status and the value read,
/// or, where the body is no JSON, in the error with the reader's message,
/// never in a success.
pub proof fn body_gives_value_or_error(status: u16, text: Seq<char>)
    requires
        text.len() > 0,
    ensures
        next_move(Phase::AwaitingBody { status }, EventView::BodyRead { text }) == Some(
            (
                Phase::Finished,
                ActionView::Finish(
                    match json_reading(text) {
                        Ok(data) => Ok(ResponseView { status, data }),
                        Err(message) => Err(message),
                    },
                ),
            ),
        ),
{
}

/// A failure of the network, while sending or while reading, ends the
/// invocation in the error with the failure's description.
pub proof fn failure_gives_its_description(status: u16, description: Seq<char>)
    ensures
        next_move(Phase::AwaitingResponse, EventView::DispatchFailed { description }) == Some(
            (Phase::Finished, ActionView::Finish(Err(description))),
        ),
        next_move(Phase::AwaitingBody { status }, EventView::ReadFailed { description }) == Some(
            (Phase::Finished, ActionView::Finish(Err(description))),
        ),
{
}

/// How many exchanges with the network a phase still has before it.
pub open spec fn exchanges_left(phase: Phase) -> nat {
    match phase {
        Phase::AwaitingResponse => 2,
        Phase::AwaitingBody { .. } => 1,
        Phase::Finished => 0,
    }
}

/// No move after the first asks for a request to be sent, so an invocation
/// sends the one request that `start` hands out and no other. Every move
/// uses up an exchange, and the result is handed out exactly when none is
/// left.
pub proof fn later_moves_send_nothing(phase: Phase, event: EventView)
    ensures
        next_move(phase, event) matches Some((next, action)) ==> {
            &&& !(action is Send)
            &&& exchanges_left(next) < exchanges_left(phase)
            &&& action is Finish <==> next == Phase::Finished
        },
{
}

} // verus!
