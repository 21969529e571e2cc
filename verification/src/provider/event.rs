//! What a language model answers, event by event.

use crate::json::{Json, JsonModel};
use vstd::prelude::*;
use vstd::string::*;

verus! {

/// How many tokens went in and came out.
#[derive(Clone, Copy, Debug, PartialEq, Eq, Structural)]
pub struct TokenUsage {
    pub input: u32,
    pub output: u32,
}

/// One event of an answer.
#[derive(Debug, PartialEq, Eq)]
pub enum StreamEvent {
    /// More text.
    TextDelta(String),
    /// The model calls a tool.
    ToolCall { id: String, name: String, input: Json },
    /// The answer is complete.
    Done { usage: Option<TokenUsage> },
    /// The answer broke off.
    Error(String),
}

/// What a [`StreamEvent`] means.
pub enum EventModel {
    TextDelta(Seq<char>),
    ToolCall { id: Seq<char>, name: Seq<char>, input: JsonModel },
    Done { usage: Option<TokenUsage> },
    Error(Seq<char>),
}

impl View for StreamEvent {
    type V = EventModel;

    open spec fn view(&self) -> EventModel {
        match self {
            StreamEvent::TextDelta(text) => EventModel::TextDelta(text@),
            StreamEvent::ToolCall { id, name, input } => EventModel::ToolCall {
                id: id@,
                name: name@,
                input: input@,
            },
            StreamEvent::Done { usage } => EventModel::Done { usage: *usage },
            StreamEvent::Error(message) => EventModel::Error(message@),
        }
    }
}

/// Why a request to the proxy failed; it is modelled by its message.
#[derive(Debug, PartialEq, Eq)]
pub struct ProxyError {
    message: String,
}

impl View for ProxyError {
    type V = Seq<char>;

    closed spec fn view(&self) -> Seq<char> {
        self.message@
    }
}

/// What is said of an answer with a status other than success.
pub open spec fn bad_status_message(status: Seq<char>, body: Seq<char>) -> Seq<char> {
    "Codex proxy error "@ + status + ": "@ + body
}

/// What is said of an answer that could not be read on.
pub open spec fn stream_read_message(cause: Seq<char>) -> Seq<char> {
    "stream read error: "@ + cause
}

impl ProxyError {
    /// The proxy answered with a status other than success; `status` is the
    /// status as text, `body` what came with it.
    pub fn bad_status(status: &str, body: &str) -> (error: ProxyError)
        ensures
            error@ == bad_status_message(status@, body@),
    {
        let mut message = "Codex proxy error ".to_owned();
        message.append(status);
        message.append(": ");
        message.append(body);
        ProxyError { message }
    }

    /// The request did not reach the proxy.
    pub fn request_failed() -> (error: ProxyError)
        ensures
            error@ == "Codex proxy request failed"@,
    {
        ProxyError { message: "Codex proxy request failed".to_owned() }
    }

    /// The answer was to be JSON and could not be read as such.
    pub fn bad_json() -> (error: ProxyError)
        ensures
            error@ == "Codex proxy: parse JSON response"@,
    {
        ProxyError { message: "Codex proxy: parse JSON response".to_owned() }
    }

    /// The answer could not be read on, for the given cause.
    pub fn stream_read(cause: &str) -> (error: ProxyError)
        ensures
            error@ == stream_read_message(cause@),
    {
        let mut message = "stream read error: ".to_owned();
        message.append(cause);
        ProxyError { message }
    }

    /// What went wrong.
    pub fn message(&self) -> (message: &str)
        ensures
            message@ == self@,
    {
        self.message.as_str()
    }
}

/// An event, or the message of the error that came in its place.
pub type OutcomeModel = Result<EventModel, Seq<char>>;

/// What an event or an error means.
pub open spec fn outcome_model(outcome: Result<StreamEvent, ProxyError>) -> OutcomeModel {
    match outcome {
        Ok(event) => Ok(event@),
        Err(error) => Err(error@),
    }
}

/// What a list of events and errors means.
pub open spec fn outcomes_model(outcomes: Seq<Result<StreamEvent, ProxyError>>) -> Seq<
    OutcomeModel,
> {
    outcomes.map_values(|outcome: Result<StreamEvent, ProxyError>| outcome_model(outcome))
}

} // verus!
