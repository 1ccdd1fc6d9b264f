//! Response parsing: the shape rules, absent fields, and error cases.

use openai_chat::chat::ChatCompletionMessageRole;
use openai_chat::chat::ChatCompletionResponse;
use openai_chat::chat::ChatError;

const STUB_BODY: &str = "{\"id\":\"1\",\"object\":\"chat.completion\",\"created\":0,\"model\":\"gpt-3.5-turbo\",\"choices\":[{\"index\":0,\"message\":{\"role\":\"assistant\",\"content\":\"Hi!\"},\"finish_reason\":\"stop\"}]}";

#[test]
fn parse_full_response() {
    let resp = ChatCompletionResponse::parse(STUB_BODY).unwrap();
    assert_eq!(resp.id, "1");
    assert_eq!(resp.object, "chat.completion");
    assert_eq!(resp.created, 0);
    assert_eq!(resp.model, "gpt-3.5-turbo");
    assert_eq!(resp.choices.len(), 1);
    assert_eq!(resp.choices[0].index, 0);
    assert!(matches!(
        resp.choices[0].message.role,
        ChatCompletionMessageRole::Assistant
    ));
    assert_eq!(resp.choices[0].message.content, "Hi!");
    assert_eq!(resp.choices[0].finish_reason.as_deref(), Some("stop"));
    assert!(resp.usage.is_none());
}

#[test]
fn parse_missing_usage_is_absent() {
    let resp = ChatCompletionResponse::parse(STUB_BODY).unwrap();
    assert!(resp.usage.is_none());
}

#[test]
fn parse_null_usage_is_absent() {
    let body = "{\"id\":\"a\",\"object\":\"o\",\"created\":5,\"model\":\"m\",\"choices\":[],\"usage\":null}";
    let resp = ChatCompletionResponse::parse(body).unwrap();
    assert!(resp.usage.is_none());
}

#[test]
fn parse_usage_record() {
    let body = "{\"id\":\"a\",\"object\":\"o\",\"created\":5,\"model\":\"m\",\"choices\":[],\"usage\":{\"prompt_tokens\":9,\"completion_tokens\":12,\"total_tokens\":21}}";
    let resp = ChatCompletionResponse::parse(body).unwrap();
    let usage = resp.usage.unwrap();
    assert_eq!(usage.prompt_tokens, 9);
    assert_eq!(usage.completion_tokens, 12);
    assert_eq!(usage.total_tokens, 21);
}

#[test]
fn parse_negative_sentinel_token_counts() {
    let body = "{\"id\":\"a\",\"object\":\"o\",\"created\":5,\"model\":\"m\",\"choices\":[],\"usage\":{\"prompt_tokens\":-1,\"completion_tokens\":0,\"total_tokens\":-1}}";
    let resp = ChatCompletionResponse::parse(body).unwrap();
    let usage = resp.usage.unwrap();
    assert_eq!(usage.prompt_tokens, -1);
    assert_eq!(usage.total_tokens, -1);
}

#[test]
fn parse_empty_choices_is_ok() {
    let body = "{\"id\":\"a\",\"object\":\"o\",\"created\":5,\"model\":\"m\",\"choices\":[]}";
    let resp = ChatCompletionResponse::parse(body).unwrap();
    assert!(resp.choices.is_empty());
}

#[test]
fn parse_missing_finish_reason_is_absent() {
    let body = "{\"id\":\"a\",\"object\":\"o\",\"created\":5,\"model\":\"m\",\"choices\":[{\"index\":2,\"message\":{\"role\":\"user\",\"content\":\"x\"}}]}";
    let resp = ChatCompletionResponse::parse(body).unwrap();
    assert_eq!(resp.choices[0].index, 2);
    assert!(resp.choices[0].finish_reason.is_none());
}

#[test]
fn parse_null_finish_reason_is_absent() {
    let body = "{\"id\":\"a\",\"object\":\"o\",\"created\":5,\"model\":\"m\",\"choices\":[{\"index\":0,\"message\":{\"role\":\"system\",\"content\":\"x\"},\"finish_reason\":null}]}";
    let resp = ChatCompletionResponse::parse(body).unwrap();
    assert!(resp.choices[0].finish_reason.is_none());
}

#[test]
fn parse_ignores_unknown_fields() {
    let body = "{\"id\":\"a\",\"extra\":{\"deep\":[1,2,{\"x\":null}]},\"object\":\"o\",\"created\":5,\"model\":\"m\",\"choices\":[{\"index\":0,\"surprise\":3.5,\"message\":{\"role\":\"user\",\"content\":\"x\",\"name\":\"n\"}}],\"odd\":true}";
    let resp = ChatCompletionResponse::parse(body).unwrap();
    assert_eq!(resp.id, "a");
    assert_eq!(resp.choices.len(), 1);
    assert_eq!(resp.choices[0].message.content, "x");
}

#[test]
fn parse_invalid_json_fails() {
    let r = ChatCompletionResponse::parse("{not json");
    assert!(matches!(r, Err(ChatError::InvalidResponseFormat(_))));
}

#[test]
fn parse_non_object_fails() {
    let r = ChatCompletionResponse::parse("[1,2,3]");
    assert!(matches!(r, Err(ChatError::InvalidResponseFormat(_))));
}

#[test]
fn parse_missing_required_field_fails() {
    let body = "{\"id\":\"a\",\"object\":\"o\",\"created\":5,\"model\":\"m\"}";
    let r = ChatCompletionResponse::parse(body);
    assert!(matches!(r, Err(ChatError::InvalidResponseFormat(_))));
}

#[test]
fn parse_choices_not_array_fails() {
    let body = "{\"id\":\"a\",\"object\":\"o\",\"created\":5,\"model\":\"m\",\"choices\":{}}";
    let r = ChatCompletionResponse::parse(body);
    assert!(matches!(r, Err(ChatError::InvalidResponseFormat(_))));
}

#[test]
fn parse_unknown_role_fails() {
    let body = "{\"id\":\"a\",\"object\":\"o\",\"created\":5,\"model\":\"m\",\"choices\":[{\"index\":0,\"message\":{\"role\":\"robot\",\"content\":\"x\"}}]}";
    let r = ChatCompletionResponse::parse(body);
    assert!(matches!(r, Err(ChatError::InvalidResponseFormat(_))));
}

#[test]
fn parse_fractional_created_fails() {
    let body = "{\"id\":\"a\",\"object\":\"o\",\"created\":5.5,\"model\":\"m\",\"choices\":[]}";
    let r = ChatCompletionResponse::parse(body);
    assert!(matches!(r, Err(ChatError::InvalidResponseFormat(_))));
}

#[test]
fn parse_negative_created_fails() {
    let body = "{\"id\":\"a\",\"object\":\"o\",\"created\":-5,\"model\":\"m\",\"choices\":[]}";
    let r = ChatCompletionResponse::parse(body);
    assert!(matches!(r, Err(ChatError::InvalidResponseFormat(_))));
}

#[test]
fn parse_bad_usage_shape_fails() {
    let body = "{\"id\":\"a\",\"object\":\"o\",\"created\":5,\"model\":\"m\",\"choices\":[],\"usage\":{\"prompt_tokens\":1}}";
    let r = ChatCompletionResponse::parse(body);
    assert!(matches!(r, Err(ChatError::InvalidResponseFormat(_))));
}
