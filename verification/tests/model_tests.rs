//! The request model: builder, serialization, and error text.

use openai_chat::chat::BuildError;
use openai_chat::chat::ChatCompletionMessage;
use openai_chat::chat::ChatCompletionMessageRole;
use openai_chat::chat::ChatCompletionModel;
use openai_chat::chat::ChatCompletionRequest;
use openai_chat::chat::ChatCompletionRequestBuilder;
use openai_chat::chat::ChatError;
use openai_chat::flow::hello_request;
use openai_chat::num::Decimal;

fn user_message(content: &str) -> ChatCompletionMessage {
    ChatCompletionMessage {
        role: ChatCompletionMessageRole::User,
        content: content.to_string(),
    }
}

#[test]
fn builder_finalize_succeeds() {
    let request = ChatCompletionRequest::builder(
        ChatCompletionModel::GPT3Turbo,
        vec![user_message("Hello, GPT-3!")],
    )
    .finalize();
    assert!(request.is_ok());
}

#[test]
fn finalize_missing_model_fails() {
    let r = ChatCompletionRequestBuilder::create_empty()
        .messages(vec![user_message("hi")])
        .finalize();
    assert!(matches!(r, Err(BuildError::UninitializedField(f)) if f == "model"));
}

#[test]
fn finalize_missing_messages_fails() {
    let r = ChatCompletionRequestBuilder::create_empty()
        .model(ChatCompletionModel::GPT4)
        .finalize();
    assert!(matches!(r, Err(BuildError::UninitializedField(f)) if f == "messages"));
}

#[test]
fn finalize_empty_builder_fails() {
    let r = ChatCompletionRequestBuilder::create_empty().finalize();
    assert!(matches!(r, Err(BuildError::UninitializedField(_))));
}

#[test]
fn minimal_payload_has_exactly_required_fields() {
    let request = ChatCompletionRequest::builder(
        ChatCompletionModel::GPT3Turbo,
        vec![user_message("Hello, GPT-3!")],
    )
    .finalize()
    .unwrap();
    assert_eq!(
        request.to_json(),
        "{\"model\":\"gpt-3.5-turbo\",\"messages\":[{\"role\":\"user\",\"content\":\"Hello, GPT-3!\"}]}"
    );
}

#[test]
fn full_payload_exact() {
    assert_eq!(
        hello_request().to_json(),
        "{\"model\":\"gpt-3.5-turbo\",\"messages\":[{\"role\":\"user\",\"content\":\"Hello, GPT-3!\"}],\"temperature\":0.5,\"top_p\":1.0,\"max_tokens\":50,\"frequency_penalty\":0.0,\"presence_penalty\":0.0}"
    );
}

#[test]
fn builder_sets_each_optional_field() {
    let request = ChatCompletionRequest::builder(
        ChatCompletionModel::GPT4,
        vec![user_message("q")],
    )
    .temperature(Decimal::new(false, 7, 1))
    .top_p(Decimal::new(false, 9, 2))
    .max_tokens(128)
    .frequency_penalty(Decimal::new(true, 25, 1))
    .presence_penalty(Decimal::new(false, 2, 0))
    .finalize()
    .unwrap();
    assert_eq!(
        request.to_json(),
        "{\"model\":\"gpt-4\",\"messages\":[{\"role\":\"user\",\"content\":\"q\"}],\"temperature\":0.7,\"top_p\":0.09,\"max_tokens\":128,\"frequency_penalty\":-2.5,\"presence_penalty\":2}"
    );
}

#[test]
fn payload_escapes_content() {
    let request = ChatCompletionRequest::builder(
        ChatCompletionModel::GPT3Turbo,
        vec![user_message("a\"b\nc\td\\e\u{1}f")],
    )
    .finalize()
    .unwrap();
    assert_eq!(
        request.to_json(),
        "{\"model\":\"gpt-3.5-turbo\",\"messages\":[{\"role\":\"user\",\"content\":\"a\\\"b\\nc\\td\\\\e\\u0001f\"}]}"
    );
}

#[test]
fn payload_keeps_unicode_content() {
    let request = ChatCompletionRequest::builder(
        ChatCompletionModel::GPT3Turbo,
        vec![user_message("héllo ✓")],
    )
    .finalize()
    .unwrap();
    assert_eq!(
        request.to_json(),
        "{\"model\":\"gpt-3.5-turbo\",\"messages\":[{\"role\":\"user\",\"content\":\"héllo ✓\"}]}"
    );
}

#[test]
fn payload_roles_and_message_order() {
    let request = ChatCompletionRequest::builder(
        ChatCompletionModel::GPT3Turbo,
        vec![
            ChatCompletionMessage {
                role: ChatCompletionMessageRole::System,
                content: "be brief".to_string(),
            },
            ChatCompletionMessage {
                role: ChatCompletionMessageRole::User,
                content: "hi".to_string(),
            },
            ChatCompletionMessage {
                role: ChatCompletionMessageRole::Assistant,
                content: "hello".to_string(),
            },
        ],
    )
    .finalize()
    .unwrap();
    assert_eq!(
        request.to_json(),
        "{\"model\":\"gpt-3.5-turbo\",\"messages\":[{\"role\":\"system\",\"content\":\"be brief\"},{\"role\":\"user\",\"content\":\"hi\"},{\"role\":\"assistant\",\"content\":\"hello\"}]}"
    );
}

#[test]
fn payload_is_valid_json() {
    let payload = hello_request().to_json();
    let value: serde_json::Value = serde_json::from_str(&payload).unwrap();
    assert_eq!(value.get("model").and_then(|v| v.as_str()), Some("gpt-3.5-turbo"));
    assert_eq!(
        value
            .get("messages")
            .and_then(|v| v.as_array())
            .map(|a| a.len()),
        Some(1)
    );
    assert_eq!(value.get("max_tokens").and_then(|v| v.as_u64()), Some(50));
    assert!(value.get("usage").is_none());
}

#[test]
fn describe_each_error_kind() {
    assert_eq!(
        ChatError::InvalidUrl("bad".to_string()).describe(),
        "URL parse error: bad"
    );
    assert_eq!(
        ChatError::NetworkError("refused".to_string()).describe(),
        "Request error: refused"
    );
    assert_eq!(
        ChatError::ResponseError(500, "oops".to_string()).describe(),
        "Unexpected response: status: 500 - oops"
    );
    assert_eq!(ChatError::NoMessageReturned.describe(), "No message returned");
    assert_eq!(
        ChatError::InvalidResponseFormat("why".to_string()).describe(),
        "Invalid response format: why"
    );
}
