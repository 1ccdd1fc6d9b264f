//! The client: URL validation, retry behaviour, and the one-shot flow.

use openai_chat::chat::ChatError;
use openai_chat::flow::hello_request;
use openai_chat::flow::run;
use openai_chat::flow::RunError;
use openai_chat::openai::OpenAIClient;
use openai_chat::openai::SendStep;
use openai_chat::openai::TransportOutcome;

const STUB_BODY: &str = "{\"id\":\"1\",\"object\":\"chat.completion\",\"created\":0,\"model\":\"gpt-3.5-turbo\",\"choices\":[{\"index\":0,\"message\":{\"role\":\"assistant\",\"content\":\"Hi!\"},\"finish_reason\":\"stop\"}]}";

const EMPTY_CHOICES_BODY: &str =
    "{\"id\":\"1\",\"object\":\"chat.completion\",\"created\":0,\"model\":\"gpt-3.5-turbo\",\"choices\":[]}";

fn client() -> OpenAIClient {
    OpenAIClient::new("https://api.openai.com", "sk-test").unwrap()
}

fn ok_response() -> TransportOutcome {
    TransportOutcome::Response {
        status: 200,
        body: STUB_BODY.to_string(),
    }
}

fn failure(msg: &str) -> TransportOutcome {
    TransportOutcome::Failure(msg.to_string())
}

#[test]
fn new_accepts_absolute_url() {
    assert!(OpenAIClient::new("https://api.openai.com", "k").is_ok());
    let c = client();
    assert_eq!(c.max_retries(), 3);
    assert_eq!(c.api_host(), "https://api.openai.com/");
    assert_eq!(c.api_key(), "sk-test");
}

#[test]
fn new_rejects_malformed_url() {
    let r = OpenAIClient::new("not a url", "k");
    assert!(matches!(r, Err(ChatError::InvalidUrl(_))));
}

#[test]
fn debug_string_masks_credential() {
    let c = OpenAIClient::new("https://api.openai.com", "sk-very-secret-value").unwrap();
    let shown = c.debug_string();
    assert_eq!(
        shown,
        "OpenAIClient { api_host: https://api.openai.com/, api_key: sk-************************************************** }"
    );
    assert!(!shown.contains("sk-very-secret-value"));
}

#[test]
fn prepare_resolves_endpoint_and_body() {
    let request = hello_request();
    let prepared = client().prepare(&request).unwrap();
    assert_eq!(prepared.url, "https://api.openai.com/v1/chat/completions");
    assert_eq!(prepared.body, request.to_json());
}

#[test]
fn unjoinable_base_url_is_terminal() {
    // `mailto:` parses as an absolute URL but cannot serve as a base to
    // join a path onto, so the call fails before any attempt is made.
    let c = OpenAIClient::new("mailto:someone@example.com", "k").unwrap();
    assert!(matches!(
        c.prepare(&hello_request()),
        Err(ChatError::InvalidUrl(_))
    ));
    let report = c.send_request(&hello_request(), vec![ok_response()]).unwrap();
    assert!(matches!(report.result, Err(ChatError::InvalidUrl(_))));
    assert_eq!(report.retries, 0);
}

#[test]
fn send_request_end_to_end() {
    let report = client()
        .send_request(&hello_request(), vec![ok_response()])
        .unwrap();
    assert_eq!(report.result.unwrap(), "Hi!");
    assert_eq!(report.retries, 0);
}

#[test]
fn send_request_http_error_is_terminal() {
    let report = client()
        .send_request(
            &hello_request(),
            vec![
                TransportOutcome::Response {
                    status: 500,
                    body: "boom".to_string(),
                },
                ok_response(),
            ],
        )
        .unwrap();
    assert!(matches!(
        report.result,
        Err(ChatError::ResponseError(500, body)) if body == "boom"
    ));
    assert_eq!(report.retries, 0);
}

#[test]
fn send_request_retries_transient_failures() {
    let report = client()
        .send_request(
            &hello_request(),
            vec![failure("a"), failure("b"), failure("c"), ok_response()],
        )
        .unwrap();
    assert_eq!(report.result.unwrap(), "Hi!");
    assert_eq!(report.retries, 3);
}

#[test]
fn send_request_respects_configured_budget() {
    let c = client().with_max_retries(2);
    let report = c
        .send_request(&hello_request(), vec![failure("a"), failure("b"), ok_response()])
        .unwrap();
    assert_eq!(report.result.unwrap(), "Hi!");
    assert_eq!(report.retries, 2);
}

#[test]
fn send_request_exhausts_budget() {
    let c = client().with_max_retries(2);
    let report = c
        .send_request(
            &hello_request(),
            vec![failure("a"), failure("b"), failure("last straw")],
        )
        .unwrap();
    assert!(matches!(
        report.result,
        Err(ChatError::NetworkError(m)) if m == "last straw"
    ));
    assert_eq!(report.retries, 2);
}

#[test]
fn send_request_short_trace_wants_more() {
    let report = client().send_request(&hello_request(), vec![failure("a")]);
    assert!(report.is_none());
}

#[test]
fn send_request_empty_choices() {
    let report = client()
        .send_request(
            &hello_request(),
            vec![TransportOutcome::Response {
                status: 200,
                body: EMPTY_CHOICES_BODY.to_string(),
            }],
        )
        .unwrap();
    assert!(matches!(report.result, Err(ChatError::NoMessageReturned)));
    assert_eq!(report.retries, 0);
}

#[test]
fn send_request_bad_body_is_terminal() {
    let report = client()
        .send_request(
            &hello_request(),
            vec![TransportOutcome::Response {
                status: 200,
                body: "junk".to_string(),
            }],
        )
        .unwrap();
    assert!(matches!(
        report.result,
        Err(ChatError::InvalidResponseFormat(_))
    ));
    assert_eq!(report.retries, 0);
}

#[test]
fn send_step_retries_within_budget() {
    let c = client();
    assert!(matches!(c.send_step(0, failure("x")), SendStep::Retry(1)));
    assert!(matches!(c.send_step(2, failure("x")), SendStep::Retry(3)));
}

#[test]
fn send_step_fails_beyond_budget() {
    let c = client();
    let step = c.send_step(3, failure("gone"));
    assert!(matches!(
        step,
        SendStep::Done(Err(ChatError::NetworkError(m))) if m == "gone"
    ));
}

#[test]
fn send_step_stops_on_response() {
    let c = client();
    let step = c.send_step(0, ok_response());
    assert!(matches!(step, SendStep::Done(Ok(s)) if s == "Hi!"));
}

#[test]
fn run_returns_first_message() {
    let r = run(ok_response());
    assert_eq!(r.unwrap(), "Hi!");
}

#[test]
fn run_reports_transport_failure() {
    let r = run(failure("refused"));
    assert!(matches!(r, Err(RunError::RequestError(m)) if m == "refused"));
}

#[test]
fn run_reports_http_error_with_raw_body() {
    let r = run(TransportOutcome::Response {
        status: 500,
        body: STUB_BODY.to_string(),
    });
    assert!(matches!(
        r,
        Err(RunError::ResponseError(500, body)) if body == STUB_BODY
    ));
}

#[test]
fn run_http_error_body_need_not_parse() {
    let r = run(TransportOutcome::Response {
        status: 503,
        body: "service down".to_string(),
    });
    assert!(matches!(
        r,
        Err(RunError::ResponseError(503, body)) if body == "service down"
    ));
}

#[test]
fn run_reports_unparsable_body() {
    let r = run(TransportOutcome::Response {
        status: 200,
        body: "junk".to_string(),
    });
    assert!(matches!(r, Err(RunError::SerdeError(_))));
}

#[test]
fn run_reports_empty_choices() {
    let r = run(TransportOutcome::Response {
        status: 200,
        body: EMPTY_CHOICES_BODY.to_string(),
    });
    assert!(matches!(r, Err(RunError::NoMessageReturned)));
}
