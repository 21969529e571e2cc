//! One exchange with the Codex proxy, from the request to the last event.
//!
//! What is read from the network arrives here, and what is to be read or
//! handed on next goes out; the reading itself is done elsewhere.

use crate::json::{Json, JsonModel};
use crate::provider::codex_proxy::{plan_response, planned, ResponsePlan};
use crate::provider::event::{
    bad_status_message, outcomes_model, stream_read_message, OutcomeModel, ProxyError, StreamEvent,
};
use crate::provider::proxy_event::{parse_json_response, response_events};
use crate::provider::sse::{chunk_text, parse_sse_chunk, read_text};
use crate::provider::sse_laws::law_chunks_may_be_cut_between_characters;
use crate::text::{option_text, text_or_empty};
use vstd::prelude::*;
use vstd::utf8::valid_utf8;

verus! {

/// How far an exchange has come.
#[derive(Debug, PartialEq, Eq)]
pub enum Exchange {
    /// The request is on its way.
    Sent,
    /// The proxy refused, with that status; what it says is still to come.
    Refused { status: String },
    /// The answer is one JSON value, which is still to come.
    OnePiece,
    /// The answer is a stream; the buffer holds the start of a line.
    Streaming { line_buffer: String },
    /// There is nothing more to come.
    Over,
}

/// What an [`Exchange`] means.
pub enum ExchangeModel {
    Sent,
    Refused { status: Seq<char> },
    OnePiece,
    Streaming { line_buffer: Seq<char> },
    Over,
}

/// What arrives from the network.
#[derive(Debug, PartialEq, Eq)]
pub enum Arrival {
    /// The head of the answer; `status_text` is the status as text.
    Head { status: u16, status_text: String, content_type: Option<String> },
    /// The body of the answer, as text.
    Text(String),
    /// The body of the answer, as JSON.
    Value(Json),
    /// A chunk of the body, or the cause for which it could not be read.
    Chunk(Result<Vec<u8>, String>),
    /// What was awaited did not come.
    Nothing,
}

/// What an [`Arrival`] means.
pub enum ArrivalModel {
    Head { status: u16, status_text: Seq<char>, content_type: Option<Seq<char>> },
    Text(Seq<char>),
    Value(JsonModel),
    Chunk(Result<Seq<u8>, Seq<char>>),
    Nothing,
}

/// What is to be done next.
#[derive(Debug, PartialEq, Eq)]
pub enum Action {
    /// Read the body as text.
    ReadText,
    /// Read the body as JSON.
    ReadJson,
    /// Read the body chunk by chunk.
    ReadChunks,
    /// Give up, with that error.
    Fail(ProxyError),
    /// Hand these on.
    Deliver(Vec<Result<StreamEvent, ProxyError>>),
    /// Go on as before: what arrived was not awaited.
    Ignore,
}

/// What an [`Action`] means.
pub enum ActionModel {
    ReadText,
    ReadJson,
    ReadChunks,
    Fail(Seq<char>),
    Deliver(Seq<OutcomeModel>),
    Ignore,
}

impl View for Exchange {
    type V = ExchangeModel;

    open spec fn view(&self) -> ExchangeModel {
        match self {
            Exchange::Sent => ExchangeModel::Sent,
            Exchange::Refused { status } => ExchangeModel::Refused { status: status@ },
            Exchange::OnePiece => ExchangeModel::OnePiece,
            Exchange::Streaming { line_buffer } => ExchangeModel::Streaming {
                line_buffer: line_buffer@,
            },
            Exchange::Over => ExchangeModel::Over,
        }
    }
}

impl View for Arrival {
    type V = ArrivalModel;

    open spec fn view(&self) -> ArrivalModel {
        match self {
            Arrival::Head { status, status_text, content_type } => ArrivalModel::Head {
                status: *status,
                status_text: status_text@,
                content_type: option_text(*content_type),
            },
            Arrival::Text(text) => ArrivalModel::Text(text@),
            Arrival::Value(value) => ArrivalModel::Value(value@),
            Arrival::Chunk(Ok(bytes)) => ArrivalModel::Chunk(Ok(bytes@)),
            Arrival::Chunk(Err(cause)) => ArrivalModel::Chunk(Err(cause@)),
            Arrival::Nothing => ArrivalModel::Nothing,
        }
    }
}

impl View for Action {
    type V = ActionModel;

    open spec fn view(&self) -> ActionModel {
        match self {
            Action::ReadText => ActionModel::ReadText,
            Action::ReadJson => ActionModel::ReadJson,
            Action::ReadChunks => ActionModel::ReadChunks,
            Action::Fail(error) => ActionModel::Fail(error@),
            Action::Deliver(outcomes) => ActionModel::Deliver(outcomes_model(outcomes@)),
            Action::Ignore => ActionModel::Ignore,
        }
    }
}

/// How an exchange goes on once the head of the answer is there.
pub open spec fn after_head(
    status: u16,
    status_text: Seq<char>,
    content_type: Option<Seq<char>>,
) -> (ExchangeModel, ActionModel) {
    match planned(status, text_or_empty(content_type)) {
        ResponsePlan::Fail => (
            ExchangeModel::Refused { status: status_text },
            ActionModel::ReadText,
        ),
        ResponsePlan::Json => (ExchangeModel::OnePiece, ActionModel::ReadJson),
        ResponsePlan::EventStream => (
            ExchangeModel::Streaming { line_buffer: Seq::empty() },
            ActionModel::ReadChunks,
        ),
    }
}

/// How an exchange goes on when something arrives.
pub open spec fn advanced(exchange: ExchangeModel, arrival: ArrivalModel) -> (
    ExchangeModel,
    ActionModel,
) {
    match (exchange, arrival) {
        (
            ExchangeModel::Sent,
            ArrivalModel::Head { status, status_text, content_type },
        ) => after_head(status, status_text, content_type),
        (ExchangeModel::Sent, ArrivalModel::Nothing) => (
            ExchangeModel::Over,
            ActionModel::Fail("Codex proxy request failed"@),
        ),
        (ExchangeModel::Refused { status }, ArrivalModel::Text(body)) => (
            ExchangeModel::Over,
            ActionModel::Fail(bad_status_message(status, body)),
        ),
        (ExchangeModel::Refused { status }, ArrivalModel::Nothing) => (
            ExchangeModel::Over,
            ActionModel::Fail(bad_status_message(status, Seq::empty())),
        ),
        (ExchangeModel::OnePiece, ArrivalModel::Value(value)) => (
            ExchangeModel::Over,
            ActionModel::Deliver(response_events(value)),
        ),
        (ExchangeModel::OnePiece, ArrivalModel::Nothing) => (
            ExchangeModel::Over,
            ActionModel::Fail("Codex proxy: parse JSON response"@),
        ),
        (ExchangeModel::Streaming { line_buffer }, ArrivalModel::Chunk(Ok(bytes))) => {
            let step = read_text(line_buffer, chunk_text(bytes));
            (
                ExchangeModel::Streaming { line_buffer: step.pending },
                ActionModel::Deliver(step.events),
            )
        },
        (ExchangeModel::Streaming { line_buffer }, ArrivalModel::Chunk(Err(cause))) => (
            ExchangeModel::Streaming { line_buffer },
            ActionModel::Deliver(seq![Err(stream_read_message(cause))]),
        ),
        (ExchangeModel::Streaming { line_buffer }, ArrivalModel::Nothing) => (
            ExchangeModel::Over,
            ActionModel::Deliver(Seq::empty()),
        ),
        _ => (exchange, ActionModel::Ignore),
    }
}

impl Exchange {
    /// How the exchange goes on when `arrival` arrives, and what is to be done
    /// next.
    pub fn advance(self, arrival: Arrival) -> (next: (Exchange, Action))
        ensures
            (next.0@, next.1@) == advanced(self@, arrival@),
    {
        match (self, arrival) {
            (Exchange::Sent, Arrival::Head { status, status_text, content_type }) => {
                let content_type = match &content_type {
                    Some(content_type) => Some(content_type.as_str()),
                    None => None,
                };
                match plan_response(status, content_type) {
                    ResponsePlan::Fail => (
                        Exchange::Refused { status: status_text },
                        Action::ReadText,
                    ),
                    ResponsePlan::Json => (Exchange::OnePiece, Action::ReadJson),
                    ResponsePlan::EventStream => (
                        Exchange::Streaming { line_buffer: String::new() },
                        Action::ReadChunks,
                    ),
                }
            },
            (Exchange::Sent, Arrival::Nothing) => (
                Exchange::Over,
                Action::Fail(ProxyError::request_failed()),
            ),
            (Exchange::Refused { status }, Arrival::Text(body)) => (
                Exchange::Over,
                Action::Fail(ProxyError::bad_status(status.as_str(), body.as_str())),
            ),
            (Exchange::Refused { status }, Arrival::Nothing) => {
                let body = String::new();
                (
                    Exchange::Over,
                    Action::Fail(ProxyError::bad_status(status.as_str(), body.as_str())),
                )
            },
            (Exchange::OnePiece, Arrival::Value(value)) => (
                Exchange::Over,
                Action::Deliver(parse_json_response(&value)),
            ),
            (Exchange::OnePiece, Arrival::Nothing) => (
                Exchange::Over,
                Action::Fail(ProxyError::bad_json()),
            ),
            (Exchange::Streaming { line_buffer }, Arrival::Chunk(chunk)) => {
                let mut line_buffer = line_buffer;
                let chunk = match chunk {
                    Ok(bytes) => Ok(bytes),
                    Err(cause) => Err(ProxyError::stream_read(cause.as_str())),
                };
                let events = parse_sse_chunk(chunk, &mut line_buffer);
                (Exchange::Streaming { line_buffer }, Action::Deliver(events))
            },
            (Exchange::Streaming { line_buffer }, Arrival::Nothing) => {
                let none: Vec<Result<StreamEvent, ProxyError>> = Vec::new();
                assert(outcomes_model(none@) =~= Seq::empty());
                (Exchange::Over, Action::Deliver(none))
            },
            (exchange, arrival) => (exchange, Action::Ignore),
        }
    }
}

/// Whether an action hands on an event.
pub open spec fn delivers(action: ActionModel) -> bool {
    action matches ActionModel::Deliver(outcomes) && exists|i: int|
        0 <= i < outcomes.len() && (#[trigger] outcomes[i]) is Ok
}

/// A refusal ends in an error that names the status and what came with it, if
/// anything did, and never in an event.
pub proof fn law_refusal_ends_in_an_error(
    status: u16,
    status_text: Seq<char>,
    content_type: Option<Seq<char>>,
    arrival: ArrivalModel,
)
    requires
        !(200 <= status < 300),
    ensures
        ({
            let (refused, first) = advanced(
                ExchangeModel::Sent,
                ArrivalModel::Head { status, status_text, content_type },
            );
            let (next, second) = advanced(refused, arrival);
            &&& first == ActionModel::ReadText
            &&& !delivers(second)
            &&& arrival matches ArrivalModel::Text(body) ==> {
                &&& next == ExchangeModel::Over
                &&& second == ActionModel::Fail(bad_status_message(status_text, body))
            }
            &&& arrival is Nothing ==> {
                &&& next == ExchangeModel::Over
                &&& second == ActionModel::Fail(bad_status_message(status_text, Seq::empty()))
            }
        }),
{
}

/// Once an exchange is over it stays so, and nothing more comes of it.
pub proof fn law_over_is_over(arrival: ArrivalModel)
    ensures
        advanced(ExchangeModel::Over, arrival) == (ExchangeModel::Over, ActionModel::Ignore),
{
}

/// A chunk that cannot be read costs nothing but itself: what was left over
/// before it is still there after it.
pub proof fn law_lost_chunk_keeps_the_buffer(line_buffer: Seq<char>, cause: Seq<char>)
    ensures
        ({
            let streaming = ExchangeModel::Streaming { line_buffer };
            advanced(streaming, ArrivalModel::Chunk(Err(cause))) == (
                streaming,
                ActionModel::Deliver(seq![Err(stream_read_message(cause))]),
            )
        }),
{
}

/// It does not matter how a stream is cut into chunks, as long as no character
/// is cut: two chunks of UTF-8, one after the other, deliver what they deliver
/// as one, and leave the exchange as they leave it as one.
pub proof fn law_stream_may_be_cut_between_characters(
    line_buffer: Seq<char>,
    first: Seq<u8>,
    second: Seq<u8>,
)
    requires
        valid_utf8(first),
        valid_utf8(second),
    ensures
        ({
            let streaming = ExchangeModel::Streaming { line_buffer };
            let (between, left) = advanced(streaming, ArrivalModel::Chunk(Ok(first)));
            let (after, right) = advanced(between, ArrivalModel::Chunk(Ok(second)));
            let (whole, both) = advanced(streaming, ArrivalModel::Chunk(Ok(first + second)));
            &&& whole == after
            &&& both == ActionModel::Deliver(left->Deliver_0 + right->Deliver_0)
        }),
{
    law_chunks_may_be_cut_between_characters(line_buffer, first, second);
}

} // verus!
