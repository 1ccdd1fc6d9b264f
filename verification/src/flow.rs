//! The one-shot flow: build the fixed demonstration request, send it once,
//! and classify the outcome.
//!
//! Unlike the client in [`crate::openai`], this flow never retries: a
//! transport failure is reported at once. A non-success status is terminal
//! too, and its body is surfaced as an opaque snapshot — it is not required
//! to have the response shape; only a success reply's body is parsed.

use vstd::prelude::*;
use vstd::string::*;
use crate::chat::ChatCompletionMessage;
use crate::chat::ChatCompletionMessageRole;
use crate::chat::ChatCompletionModel;
use crate::chat::ChatCompletionRequest;
use crate::chat::ChatCompletionResponse;
use crate::chat::ChatError;
use crate::chat::MessageView;
use crate::chat::RequestView;
use crate::num::Decimal;
use crate::openai::TransportOutcome;
use crate::openai::TransportOutcomeView;
use crate::openai::spec_is_success;
use crate::parse::spec_parse_response;

verus! {

/// What the one-shot flow can report: a transport failure, a non-success
/// status with a snapshot of the raw body, a success body that does not
/// parse, or a parsed reply with no message in it.
#[derive(Clone, Debug, PartialEq)]
pub enum RunError {
    RequestError(String),
    ResponseError(u16, String),
    SerdeError(String),
    NoMessageReturned,
}

/// The mathematical value of a [`RunError`].
pub enum RunErrorView {
    RequestError(Seq<char>),
    ResponseError(u16, Seq<char>),
    SerdeError(Seq<char>),
    NoMessageReturned,
}

impl View for RunError {
    type V = RunErrorView;

    open spec fn view(&self) -> RunErrorView {
        match self {
            RunError::RequestError(m) => RunErrorView::RequestError(m@),
            RunError::ResponseError(status, body) => RunErrorView::ResponseError(*status, body@),
            RunError::SerdeError(m) => RunErrorView::SerdeError(m@),
            RunError::NoMessageReturned => RunErrorView::NoMessageReturned,
        }
    }
}

/// The value of the fixed demonstration request.
pub open spec fn spec_hello_request() -> RequestView {
    RequestView {
        model: ChatCompletionModel::GPT3Turbo,
        messages: seq![
            MessageView { role: ChatCompletionMessageRole::User, content: "Hello, GPT-3!"@ },
        ],
        temperature: Some(Decimal { negative: false, mantissa: 5, scale: 1 }),
        top_p: Some(Decimal { negative: false, mantissa: 10, scale: 1 }),
        max_tokens: Some(50u64),
        frequency_penalty: Some(Decimal { negative: false, mantissa: 0, scale: 1 }),
        presence_penalty: Some(Decimal { negative: false, mantissa: 0, scale: 1 }),
    }
}

/// The fixed demonstration request: one user greeting, every sampling
/// parameter set.
pub fn hello_request() -> (r: ChatCompletionRequest)
    ensures
        r@ == spec_hello_request(),
{
    let mut messages: Vec<ChatCompletionMessage> = Vec::new();
    messages.push(
        ChatCompletionMessage {
            role: ChatCompletionMessageRole::User,
            content: String::from_str("Hello, GPT-3!"),
        },
    );
    let r = ChatCompletionRequest {
        model: ChatCompletionModel::GPT3Turbo,
        messages,
        temperature: Some(Decimal { negative: false, mantissa: 5, scale: 1 }),
        top_p: Some(Decimal { negative: false, mantissa: 10, scale: 1 }),
        max_tokens: Some(50u64),
        frequency_penalty: Some(Decimal { negative: false, mantissa: 0, scale: 1 }),
        presence_penalty: Some(Decimal { negative: false, mantissa: 0, scale: 1 }),
    };
    proof {
        assert(r@.messages =~= spec_hello_request().messages);
    }
    r
}

/// Classify the outcome of the single attempt the one-shot flow makes: a
/// transport failure is reported at once; a non-success status is terminal
/// and carries the status together with the raw body, which is not required
/// to parse; a success reply's body must have the response shape, and then
/// either holds no message at all or yields its first message.
pub fn run(outcome: TransportOutcome) -> (r: Result<String, RunError>)
    ensures
        outcome@ matches TransportOutcomeView::Failure(m) ==> (r matches Err(
            RunError::RequestError(t),
        ) && t@ == m),
        outcome@ matches TransportOutcomeView::Response { status, body } ==> (if !spec_is_success(
            status,
        ) {
            r matches Err(RunError::ResponseError(s2, b2)) && s2 == status && b2@ == body
        } else {
            match spec_parse_response(body) {
                None => r matches Err(e) && e is SerdeError,
                Some(resp) => if resp.choices.len() == 0 {
                    r matches Err(e) && e is NoMessageReturned
                } else {
                    r matches Ok(s) && s@ == resp.choices[0].message.content
                },
            }
        }),
{
    match outcome {
        TransportOutcome::Failure(m) => Err(RunError::RequestError(m)),
        TransportOutcome::Response { status, body } => {
            if !(200 <= status && status < 300) {
                return Err(RunError::ResponseError(status, body));
            }
            let resp = match ChatCompletionResponse::parse(body.as_str()) {
                Ok(resp) => resp,
                Err(e) => {
                    let msg = match e {
                        ChatError::InvalidUrl(_) => unreached(),
                        ChatError::NetworkError(_) => unreached(),
                        ChatError::ResponseError(_, _) => unreached(),
                        ChatError::NoMessageReturned => unreached(),
                        ChatError::InvalidResponseFormat(m) => m,
                    };
                    return Err(RunError::SerdeError(msg));
                },
            };
            if resp.choices.len() == 0 {
                Err(RunError::NoMessageReturned)
            } else {
                Ok(resp.choices[0].message.content.clone())
            }
        },
    }
}

} // verus!
