//! The request/response data model and the error taxonomy.

use vstd::prelude::*;
use vstd::string::*;
use crate::num::Decimal;
use crate::num::spec_u64_digits;
use crate::text::append_str;
use crate::text::chars_to_string;

verus! {

/// The closed set of supported model identifiers.
#[derive(Clone, Copy, Debug, PartialEq, Eq, Structural)]
pub enum ChatCompletionModel {
    GPT3Turbo,
    GPT4,
}

/// Short alias for the model identifier enum.
pub type OAIModel = ChatCompletionModel;

/// The closed set of message roles.
#[derive(Clone, Copy, Debug, PartialEq, Eq, Structural)]
pub enum ChatCompletionMessageRole {
    System,
    User,
    Assistant,
}

/// Short alias for the message role enum.
pub type MessageRole = ChatCompletionMessageRole;

/// The wire name of a model identifier.
pub open spec fn spec_model_str(m: ChatCompletionModel) -> Seq<char> {
    match m {
        ChatCompletionModel::GPT3Turbo => "gpt-3.5-turbo"@,
        ChatCompletionModel::GPT4 => "gpt-4"@,
    }
}

/// The wire name of a role.
pub open spec fn spec_role_str(r: ChatCompletionMessageRole) -> Seq<char> {
    match r {
        ChatCompletionMessageRole::System => "system"@,
        ChatCompletionMessageRole::User => "user"@,
        ChatCompletionMessageRole::Assistant => "assistant"@,
    }
}

/// The wire name of a model identifier.
pub fn model_str(m: ChatCompletionModel) -> (r: &'static str)
    ensures
        r@ == spec_model_str(m),
{
    match m {
        ChatCompletionModel::GPT3Turbo => "gpt-3.5-turbo",
        ChatCompletionModel::GPT4 => "gpt-4",
    }
}

/// The wire name of a role.
pub fn role_str(r: ChatCompletionMessageRole) -> (s: &'static str)
    ensures
        s@ == spec_role_str(r),
{
    match r {
        ChatCompletionMessageRole::System => "system",
        ChatCompletionMessageRole::User => "user",
        ChatCompletionMessageRole::Assistant => "assistant",
    }
}

/// One conversation entry: who speaks, and what is said.
#[derive(Clone, Debug, PartialEq)]
pub struct ChatCompletionMessage {
    pub role: ChatCompletionMessageRole,
    pub content: String,
}

/// The mathematical value of a [`ChatCompletionMessage`].
pub struct MessageView {
    pub role: ChatCompletionMessageRole,
    pub content: Seq<char>,
}

impl View for ChatCompletionMessage {
    type V = MessageView;

    open spec fn view(&self) -> MessageView {
        MessageView { role: self.role, content: self.content@ }
    }
}

/// The mathematical value of a [`ChatCompletionRequest`].
pub struct RequestView {
    pub model: ChatCompletionModel,
    pub messages: Seq<MessageView>,
    pub temperature: Option<Decimal>,
    pub top_p: Option<Decimal>,
    pub max_tokens: Option<u64>,
    pub frequency_penalty: Option<Decimal>,
    pub presence_penalty: Option<Decimal>,
}

/// An outbound request: the required model and messages, and the optional
/// sampling parameters. An optional field that is `None` is left out of the
/// serialized payload entirely.
#[derive(Clone, Debug, PartialEq)]
pub struct ChatCompletionRequest {
    pub model: ChatCompletionModel,
    pub messages: Vec<ChatCompletionMessage>,
    pub temperature: Option<Decimal>,
    pub top_p: Option<Decimal>,
    pub max_tokens: Option<u64>,
    pub frequency_penalty: Option<Decimal>,
    pub presence_penalty: Option<Decimal>,
}

impl View for ChatCompletionRequest {
    type V = RequestView;

    open spec fn view(&self) -> RequestView {
        RequestView {
            model: self.model,
            messages: self.messages@.map_values(|m: ChatCompletionMessage| m@),
            temperature: self.temperature,
            top_p: self.top_p,
            max_tokens: self.max_tokens,
            frequency_penalty: self.frequency_penalty,
            presence_penalty: self.presence_penalty,
        }
    }
}

/// Failure of [`ChatCompletionRequestBuilder::finalize`]: a required field
/// was never set. The payload names the field.
#[derive(Clone, Debug, PartialEq)]
pub enum BuildError {
    UninitializedField(String),
}

/// The mathematical value of a [`ChatCompletionRequestBuilder`].
pub struct BuilderView {
    pub model: Option<ChatCompletionModel>,
    pub messages: Option<Seq<MessageView>>,
    pub temperature: Option<Decimal>,
    pub top_p: Option<Decimal>,
    pub max_tokens: Option<u64>,
    pub frequency_penalty: Option<Decimal>,
    pub presence_penalty: Option<Decimal>,
}

/// Staged construction of a request: the required fields must be set before
/// [`Self::finalize`] succeeds, the optional ones default to absent.
pub struct ChatCompletionRequestBuilder {
    pub model: Option<ChatCompletionModel>,
    pub messages: Option<Vec<ChatCompletionMessage>>,
    pub temperature: Option<Decimal>,
    pub top_p: Option<Decimal>,
    pub max_tokens: Option<u64>,
    pub frequency_penalty: Option<Decimal>,
    pub presence_penalty: Option<Decimal>,
}

impl View for ChatCompletionRequestBuilder {
    type V = BuilderView;

    open spec fn view(&self) -> BuilderView {
        BuilderView {
            model: self.model,
            messages: match self.messages {
                Some(v) => Some(v@.map_values(|m: ChatCompletionMessage| m@)),
                None => None,
            },
            temperature: self.temperature,
            top_p: self.top_p,
            max_tokens: self.max_tokens,
            frequency_penalty: self.frequency_penalty,
            presence_penalty: self.presence_penalty,
        }
    }
}

impl ChatCompletionRequestBuilder {
    /// A builder with no field set.
    pub fn create_empty() -> (b: Self)
        ensures
            b@ == (BuilderView {
                model: None,
                messages: None,
                temperature: None,
                top_p: None,
                max_tokens: None,
                frequency_penalty: None,
                presence_penalty: None,
            }),
    {
        ChatCompletionRequestBuilder {
            model: None,
            messages: None,
            temperature: None,
            top_p: None,
            max_tokens: None,
            frequency_penalty: None,
            presence_penalty: None,
        }
    }

    /// Set the model identifier.
    pub fn model(self, model: ChatCompletionModel) -> (b: Self)
        ensures
            b@ == (BuilderView { model: Some(model), ..self@ }),
    {
        ChatCompletionRequestBuilder { model: Some(model), ..self }
    }

    /// Set the conversation messages.
    pub fn messages(self, messages: Vec<ChatCompletionMessage>) -> (b: Self)
        ensures
            b@ == (BuilderView {
                messages: Some(messages@.map_values(|m: ChatCompletionMessage| m@)),
                ..self@
            }),
    {
        ChatCompletionRequestBuilder { messages: Some(messages), ..self }
    }

    /// Set the sampling temperature.
    pub fn temperature(self, temperature: Decimal) -> (b: Self)
        ensures
            b@ == (BuilderView { temperature: Some(temperature), ..self@ }),
    {
        ChatCompletionRequestBuilder { temperature: Some(temperature), ..self }
    }

    /// Set the nucleus-sampling parameter.
    pub fn top_p(self, top_p: Decimal) -> (b: Self)
        ensures
            b@ == (BuilderView { top_p: Some(top_p), ..self@ }),
    {
        ChatCompletionRequestBuilder { top_p: Some(top_p), ..self }
    }

    /// Set the token budget for the generated answer.
    pub fn max_tokens(self, max_tokens: u64) -> (b: Self)
        ensures
            b@ == (BuilderView { max_tokens: Some(max_tokens), ..self@ }),
    {
        ChatCompletionRequestBuilder { max_tokens: Some(max_tokens), ..self }
    }

    /// Set the frequency penalty.
    pub fn frequency_penalty(self, frequency_penalty: Decimal) -> (b: Self)
        ensures
            b@ == (BuilderView { frequency_penalty: Some(frequency_penalty), ..self@ }),
    {
        ChatCompletionRequestBuilder { frequency_penalty: Some(frequency_penalty), ..self }
    }

    /// Set the presence penalty.
    pub fn presence_penalty(self, presence_penalty: Decimal) -> (b: Self)
        ensures
            b@ == (BuilderView { presence_penalty: Some(presence_penalty), ..self@ }),
    {
        ChatCompletionRequestBuilder { presence_penalty: Some(presence_penalty), ..self }
    }

    /// Finish construction. Succeeds exactly when both required fields have
    /// been set; otherwise it reports the first missing one.
    pub fn finalize(self) -> (r: Result<ChatCompletionRequest, BuildError>)
        ensures
            r is Ok <==> (self@.model is Some && self@.messages is Some),
            r matches Ok(req) ==> self@.model matches Some(m) && self@.messages matches Some(
                msgs,
            ) && req@ == (RequestView {
                model: m,
                messages: msgs,
                temperature: self@.temperature,
                top_p: self@.top_p,
                max_tokens: self@.max_tokens,
                frequency_penalty: self@.frequency_penalty,
                presence_penalty: self@.presence_penalty,
            }),
            self@.model is None ==> (r matches Err(BuildError::UninitializedField(f)) && f@
                == "model"@),
            self@.model is Some && self@.messages is None ==> (r matches Err(
                BuildError::UninitializedField(f),
            ) && f@ == "messages"@),
    {
        let model = match self.model {
            Some(m) => m,
            None => {
                return Err(BuildError::UninitializedField(String::from_str("model")));
            },
        };
        let messages = match self.messages {
            Some(m) => m,
            None => {
                return Err(BuildError::UninitializedField(String::from_str("messages")));
            },
        };
        Ok(
            ChatCompletionRequest {
                model,
                messages,
                temperature: self.temperature,
                top_p: self.top_p,
                max_tokens: self.max_tokens,
                frequency_penalty: self.frequency_penalty,
                presence_penalty: self.presence_penalty,
            },
        )
    }
}

impl ChatCompletionRequest {
    /// A builder seeded with the two required fields.
    pub fn builder(model: ChatCompletionModel, messages: Vec<ChatCompletionMessage>) -> (b:
        ChatCompletionRequestBuilder)
        ensures
            b@ == (BuilderView {
                model: Some(model),
                messages: Some(messages@.map_values(|m: ChatCompletionMessage| m@)),
                temperature: None,
                top_p: None,
                max_tokens: None,
                frequency_penalty: None,
                presence_penalty: None,
            }),
    {
        ChatCompletionRequestBuilder::create_empty().model(model).messages(messages)
    }
}

/// Token accounting as the remote API reports it. The counts are signed
/// because the upstream service may return negative sentinel values.
#[derive(Clone, Copy, Debug, PartialEq, Eq, Structural)]
pub struct ChatCompletionUsage {
    pub prompt_tokens: i64,
    pub completion_tokens: i64,
    pub total_tokens: i64,
}

/// Short alias for the token accounting record.
pub type Usage = ChatCompletionUsage;

/// The mathematical value of a [`ChatCompletionChoice`].
pub struct ChoiceView {
    pub index: u64,
    pub message: MessageView,
    pub finish_reason: Option<Seq<char>>,
}

/// One candidate answer within a reply. `finish_reason` is absent when the
/// API does not name why generation stopped.
#[derive(Clone, Debug, PartialEq)]
pub struct ChatCompletionChoice {
    pub index: u64,
    pub message: ChatCompletionMessage,
    pub finish_reason: Option<String>,
}

impl View for ChatCompletionChoice {
    type V = ChoiceView;

    open spec fn view(&self) -> ChoiceView {
        ChoiceView {
            index: self.index,
            message: self.message@,
            finish_reason: match self.finish_reason {
                Some(s) => Some(s@),
                None => None,
            },
        }
    }
}

/// The mathematical value of a [`ChatCompletionResponse`].
pub struct ResponseView {
    pub id: Seq<char>,
    pub object: Seq<char>,
    pub created: u64,
    pub model: Seq<char>,
    pub choices: Seq<ChoiceView>,
    pub usage: Option<ChatCompletionUsage>,
}

/// A parsed reply. `choices` may be empty and `usage` may be absent; the
/// caller must not assume otherwise.
#[derive(Clone, Debug, PartialEq)]
pub struct ChatCompletionResponse {
    pub id: String,
    pub object: String,
    pub created: u64,
    pub model: String,
    pub choices: Vec<ChatCompletionChoice>,
    pub usage: Option<ChatCompletionUsage>,
}

impl View for ChatCompletionResponse {
    type V = ResponseView;

    open spec fn view(&self) -> ResponseView {
        ResponseView {
            id: self.id@,
            object: self.object@,
            created: self.created,
            model: self.model@,
            choices: self.choices@.map_values(|c: ChatCompletionChoice| c@),
            usage: self.usage,
        }
    }
}

/// The mathematical value of a [`ChatError`].
pub enum ChatErrorView {
    InvalidUrl(Seq<char>),
    NetworkError(Seq<char>),
    ResponseError(u16, Seq<char>),
    NoMessageReturned,
    InvalidResponseFormat(Seq<char>),
}

/// Everything that can go wrong with one call. All variants are terminal;
/// only transport failures are retried, and [`ChatError::NetworkError`]
/// reports the last of them once the retry budget is spent.
/// [`ChatError::ResponseError`] keeps the status code and a snapshot of the
/// response body as owned text.
#[derive(Clone, Debug, PartialEq)]
pub enum ChatError {
    InvalidUrl(String),
    NetworkError(String),
    ResponseError(u16, String),
    NoMessageReturned,
    InvalidResponseFormat(String),
}

impl View for ChatError {
    type V = ChatErrorView;

    open spec fn view(&self) -> ChatErrorView {
        match self {
            ChatError::InvalidUrl(e) => ChatErrorView::InvalidUrl(e@),
            ChatError::NetworkError(e) => ChatErrorView::NetworkError(e@),
            ChatError::ResponseError(status, body) => ChatErrorView::ResponseError(*status, body@),
            ChatError::NoMessageReturned => ChatErrorView::NoMessageReturned,
            ChatError::InvalidResponseFormat(e) => ChatErrorView::InvalidResponseFormat(e@),
        }
    }
}

/// The diagnostic text of an error.
pub open spec fn spec_describe(e: ChatErrorView) -> Seq<char> {
    match e {
        ChatErrorView::InvalidUrl(m) => "URL parse error: "@ + m,
        ChatErrorView::NetworkError(m) => "Request error: "@ + m,
        ChatErrorView::ResponseError(status, body) => "Unexpected response: status: "@
            + spec_u64_digits(status as nat) + " - "@ + body,
        ChatErrorView::NoMessageReturned => "No message returned"@,
        ChatErrorView::InvalidResponseFormat(m) => "Invalid response format: "@ + m,
    }
}

impl ChatError {
    /// The diagnostic text of this error. Bearer credentials never flow into
    /// an error, so they cannot appear here either.
    pub fn describe(&self) -> (r: String)
        ensures
            r@ == spec_describe(self@),
    {
        let mut buf: Vec<char> = Vec::new();
        match self {
            ChatError::InvalidUrl(m) => {
                append_str(&mut buf, "URL parse error: ");
                append_str(&mut buf, m.as_str());
            },
            ChatError::NetworkError(m) => {
                append_str(&mut buf, "Request error: ");
                append_str(&mut buf, m.as_str());
            },
            ChatError::ResponseError(status, body) => {
                append_str(&mut buf, "Unexpected response: status: ");
                crate::num::push_u64_digits(&mut buf, *status as u64);
                append_str(&mut buf, " - ");
                append_str(&mut buf, body.as_str());
            },
            ChatError::NoMessageReturned => {
                append_str(&mut buf, "No message returned");
            },
            ChatError::InvalidResponseFormat(m) => {
                append_str(&mut buf, "Invalid response format: ");
                append_str(&mut buf, m.as_str());
            },
        }
        proof {
            assert(buf@ =~= spec_describe(self@));
        }
        chars_to_string(&buf)
    }
}

/// The configuration the host hands to the library: the bearer credential
/// and the base URL of the API.
#[derive(Clone, Debug, PartialEq)]
pub struct Config {
    pub openai_api_key: String,
    pub api_host: String,
}

} // verus!
