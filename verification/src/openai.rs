//! The client: validated configuration, outcome classification, and bounded
//! retry.
//!
//! The transport itself is outside the library. Each attempt the host makes
//! reports back a [`TransportOutcome`]; [`OpenAIClient::send_step`] decides
//! what follows, and [`OpenAIClient::send_request`] runs the whole decision
//! loop against a trace of outcomes. Only a transport failure — an attempt
//! that produced no HTTP status at all — is ever retried, immediately and
//! without backoff; every received response, whatever its status, ends the
//! call.

use vstd::prelude::*;
use vstd::string::*;
use crate::chat::ChatCompletionRequest;
use crate::chat::ChatCompletionResponse;
use crate::chat::ChatError;
use crate::parse::spec_parse_response;
use crate::ser::spec_request_json;
use crate::text::append_str;
use crate::text::chars_to_string;
use crate::urls::join_url;
use crate::urls::parse_absolute_url;
use crate::urls::url_join_norm;
use crate::urls::url_parse_norm;

verus! {

/// The retry budget a freshly built client starts with.
pub const DEFAULT_MAX_RETRIES: u8 = 3;

/// What one transport attempt reported back: either no HTTP status could be
/// obtained at all (with the transport's own message), or a status arrived
/// together with the response body.
#[derive(Clone, Debug, PartialEq)]
pub enum TransportOutcome {
    Failure(String),
    Response { status: u16, body: String },
}

/// The mathematical value of a [`TransportOutcome`].
pub enum TransportOutcomeView {
    Failure(Seq<char>),
    Response { status: u16, body: Seq<char> },
}

impl View for TransportOutcome {
    type V = TransportOutcomeView;

    open spec fn view(&self) -> TransportOutcomeView {
        match self {
            TransportOutcome::Failure(m) => TransportOutcomeView::Failure(m@),
            TransportOutcome::Response { status, body } => TransportOutcomeView::Response {
                status: *status,
                body: body@,
            },
        }
    }
}

/// The values of a trace of transport outcomes.
pub open spec fn spec_outcomes(q: Seq<TransportOutcome>) -> Seq<TransportOutcomeView> {
    q.map_values(|t: TransportOutcome| t@)
}

/// How a finished call ended, at the level of values: the reply text, or
/// which kind of error with its data. The message carried by a format error
/// is diagnostic text and is left open here.
pub enum CallOutcome {
    Reply(Seq<char>),
    Network(Seq<char>),
    Http(u16, Seq<char>),
    Malformed,
    Empty,
}

/// Whether an HTTP status counts as success.
pub open spec fn spec_is_success(status: u16) -> bool {
    200 <= status < 300
}

/// What handling one received response yields: a non-success status is a
/// terminal HTTP error carrying status and body; a success status has its
/// body parsed, and then either fails the shape check, holds no choice at
/// all, or yields the first choice's message content.
pub open spec fn spec_handle_response(status: u16, body: Seq<char>) -> CallOutcome {
    if !spec_is_success(status) {
        CallOutcome::Http(status, body)
    } else {
        match spec_parse_response(body) {
            None => CallOutcome::Malformed,
            Some(r) => if r.choices.len() == 0 {
                CallOutcome::Empty
            } else {
                CallOutcome::Reply(r.choices[0].message.content)
            },
        }
    }
}

/// Whether an executable call result carries exactly the given outcome.
pub open spec fn result_matches(r: Result<String, ChatError>, o: CallOutcome) -> bool {
    match o {
        CallOutcome::Reply(c) => r matches Ok(s) && s@ == c,
        CallOutcome::Network(m) => r matches Err(ChatError::NetworkError(t)) && t@ == m,
        CallOutcome::Http(st, b) => r matches Err(ChatError::ResponseError(s2, b2)) && s2 == st
            && b2@ == b,
        CallOutcome::Malformed => r matches Err(ChatError::InvalidResponseFormat(_)),
        CallOutcome::Empty => r matches Err(ChatError::NoMessageReturned),
    }
}

/// The per-call state machine, run against a trace of attempt outcomes with
/// `retries` retries already recorded. A failure within budget moves on to
/// the next attempt; a failure beyond it ends the call with a network error;
/// a received response always ends the call. `None` means the trace ended
/// while the machine still wanted another attempt.
pub open spec fn spec_run(
    max_retries: u8,
    outcomes: Seq<TransportOutcomeView>,
    retries: u8,
) -> Option<(CallOutcome, u8)>
    decreases outcomes.len(),
{
    if outcomes.len() == 0 {
        None
    } else {
        match outcomes[0] {
            TransportOutcomeView::Failure(msg) => if retries >= max_retries {
                Some((CallOutcome::Network(msg), retries))
            } else {
                spec_run(max_retries, outcomes.drop_first(), (retries + 1) as u8)
            },
            TransportOutcomeView::Response { status, body } => Some(
                (spec_handle_response(status, body), retries),
            ),
        }
    }
}

/// Take the first choice of a parsed response; an empty choice list is the
/// terminal "no message returned" error.
pub fn process_response(resp: &ChatCompletionResponse) -> (r: Result<String, ChatError>)
    ensures
        resp@.choices.len() == 0 ==> (r matches Err(e) && e is NoMessageReturned),
        resp@.choices.len() > 0 ==> (r matches Ok(s) && s@ == resp@.choices[0].message.content),
{
    if resp.choices.len() == 0 {
        Err(ChatError::NoMessageReturned)
    } else {
        Ok(resp.choices[0].message.content.clone())
    }
}

/// Classify one received response, as [`spec_handle_response`] says.
pub fn handle_response(status: u16, body: String) -> (r: Result<String, ChatError>)
    ensures
        result_matches(r, spec_handle_response(status, body@)),
{
    if !(200 <= status && status < 300) {
        return Err(ChatError::ResponseError(status, body));
    }
    let resp = match ChatCompletionResponse::parse(body.as_str()) {
        Ok(resp) => resp,
        Err(e) => {
            return Err(e);
        },
    };
    process_response(&resp)
}

/// The mathematical value of an [`OpenAIClient`].
pub struct ClientView {
    pub api_host: Seq<char>,
    pub api_key: Seq<char>,
    pub max_retries: u8,
}

/// A long-lived client: the validated base URL, the bearer credential, and
/// the retry budget. It holds no per-call state and may be shared.
pub struct OpenAIClient {
    api_host: String,
    api_key: String,
    max_retries: u8,
}

impl View for OpenAIClient {
    type V = ClientView;

    closed spec fn view(&self) -> ClientView {
        ClientView {
            api_host: self.api_host@,
            api_key: self.api_key@,
            max_retries: self.max_retries,
        }
    }
}

/// The resolved endpoint and the serialized body of one call, ready for the
/// transport.
pub struct PreparedCall {
    pub url: String,
    pub body: String,
}

/// What one decision step asks the host to do next: attempt again with the
/// new retry count, or stop with the final result.
pub enum SendStep {
    Retry(u8),
    Done(Result<String, ChatError>),
}

impl OpenAIClient {
    /// Validate the base URL and set up a client with the default retry
    /// budget. Fails — with the URL error — exactly when the base URL does
    /// not parse as an absolute URL.
    pub fn new(api_host: &str, api_key: &str) -> (r: Result<OpenAIClient, ChatError>)
        ensures
            r is Ok <==> url_parse_norm(api_host@) is Some,
            r matches Ok(c) ==> (url_parse_norm(api_host@) matches Some(n) && c@ == (ClientView {
                api_host: n,
                api_key: api_key@,
                max_retries: DEFAULT_MAX_RETRIES,
            })),
            r matches Err(e) ==> e matches ChatError::InvalidUrl(_),
    {
        let host = match parse_absolute_url(api_host) {
            Ok(h) => h,
            Err(e) => {
                return Err(ChatError::InvalidUrl(e));
            },
        };
        Ok(OpenAIClient { api_host: host, api_key: api_key.to_owned(), max_retries: DEFAULT_MAX_RETRIES })
    }

    /// The same client with another retry budget.
    pub fn with_max_retries(self, max_retries: u8) -> (c: OpenAIClient)
        ensures
            c@ == (ClientView { max_retries, ..self@ }),
    {
        OpenAIClient { max_retries, ..self }
    }

    /// The stored base URL.
    pub fn api_host(&self) -> (r: &String)
        ensures
            r@ == self@.api_host,
    {
        &self.api_host
    }

    /// The stored bearer credential.
    pub fn api_key(&self) -> (r: &String)
        ensures
            r@ == self@.api_key,
    {
        &self.api_key
    }

    /// The configured retry budget.
    pub fn max_retries(&self) -> (r: u8)
        ensures
            r == self@.max_retries,
    {
        self.max_retries
    }

    /// Resolve the endpoint by joining the fixed relative path onto the base
    /// URL, and serialize the request body. Fails — with the URL error —
    /// exactly when the join fails.
    pub fn prepare(&self, request: &ChatCompletionRequest) -> (r: Result<PreparedCall, ChatError>)
        ensures
            r is Ok <==> url_join_norm(self@.api_host, "/v1/chat/completions"@) is Some,
            r matches Ok(p) ==> (url_join_norm(self@.api_host, "/v1/chat/completions"@)
                matches Some(u) && p.url@ == u && p.body@ == spec_request_json(request@)),
            r matches Err(e) ==> e matches ChatError::InvalidUrl(_),
    {
        let url = match join_url(self.api_host.as_str(), "/v1/chat/completions") {
            Ok(u) => u,
            Err(e) => {
                return Err(ChatError::InvalidUrl(e));
            },
        };
        let body = request.to_json();
        Ok(PreparedCall { url, body })
    }

    /// One decision step of a call: a transport failure within the budget
    /// asks for another attempt with the retry count raised by one, a
    /// failure beyond it ends the call with a network error carrying the
    /// transport's message, and a received response ends the call with its
    /// classification.
    pub fn send_step(&self, retries: u8, outcome: TransportOutcome) -> (r: SendStep)
        ensures
            outcome@ matches TransportOutcomeView::Failure(msg) ==> (if retries
                >= self@.max_retries {
                r matches SendStep::Done(res) && result_matches(res, CallOutcome::Network(msg))
            } else {
                r == SendStep::Retry((retries + 1) as u8)
            }),
            outcome@ matches TransportOutcomeView::Response { status, body } ==> (r matches
                SendStep::Done(res) && result_matches(res, spec_handle_response(status, body))),
    {
        match outcome {
            TransportOutcome::Failure(msg) => {
                if retries >= self.max_retries {
                    SendStep::Done(Err(ChatError::NetworkError(msg)))
                } else {
                    SendStep::Retry(retries + 1)
                }
            },
            TransportOutcome::Response { status, body } => SendStep::Done(
                handle_response(status, body),
            ),
        }
    }
}

/// How one whole call ended: its result, and how many retries were recorded
/// before the end.
pub struct SendReport {
    pub result: Result<String, ChatError>,
    pub retries: u8,
}

impl OpenAIClient {
    /// Run one whole call against a trace of attempt outcomes: resolve the
    /// endpoint and serialize the request (an unresolvable endpoint is the
    /// terminal URL error, before any attempt), then step through the trace
    /// as [`spec_run`] says. `None` means the trace ended while the machine
    /// still wanted another attempt.
    #[verifier::loop_isolation(false)]
    pub fn send_request(&self, request: &ChatCompletionRequest, outcomes: Vec<TransportOutcome>)
        -> (r: Option<SendReport>)
        ensures
            url_join_norm(self@.api_host, "/v1/chat/completions"@) is None ==> (r matches Some(rep)
                && rep.retries == 0 && rep.result matches Err(ChatError::InvalidUrl(_))),
            url_join_norm(self@.api_host, "/v1/chat/completions"@) is Some ==> match spec_run(
                self@.max_retries,
                spec_outcomes(outcomes@),
                0,
            ) {
                None => r is None,
                Some((o, k)) => r matches Some(rep) && result_matches(rep.result, o)
                    && rep.retries == k,
            },
    {
        let _prepared = match self.prepare(request) {
            Ok(p) => p,
            Err(e) => {
                return Some(SendReport { result: Err(e), retries: 0 });
            },
        };
        let ghost all = spec_outcomes(outcomes@);
        let mut outcomes = outcomes;
        let mut retries: u8 = 0;
        while outcomes.len() > 0
            invariant
                spec_run(self@.max_retries, all, 0) == spec_run(
                    self@.max_retries,
                    spec_outcomes(outcomes@),
                    retries,
                ),
            decreases outcomes@.len(),
        {
            let ghost pre = spec_outcomes(outcomes@);
            let outcome = outcomes.remove(0);
            proof {
                assert(pre.len() > 0);
                assert(outcome@ == pre[0]);
                assert(spec_outcomes(outcomes@) =~= pre.drop_first());
            }
            match self.send_step(retries, outcome) {
                SendStep::Retry(r2) => {
                    proof {
                        assert(outcome@ is Failure);
                        assert(retries < self@.max_retries);
                        assert(spec_run(self@.max_retries, pre, retries) == spec_run(
                            self@.max_retries,
                            pre.drop_first(),
                            (retries + 1) as u8,
                        ));
                    }
                    retries = r2;
                },
                SendStep::Done(res) => {
                    proof {
                        match outcome@ {
                            TransportOutcomeView::Failure(m) => {
                                assert(retries >= self@.max_retries);
                                assert(spec_run(self@.max_retries, pre, retries) == Some(
                                    (CallOutcome::Network(m), retries),
                                ));
                            },
                            TransportOutcomeView::Response { status, body } => {
                                assert(spec_run(self@.max_retries, pre, retries) == Some(
                                    (spec_handle_response(status, body), retries),
                                ));
                            },
                        }
                    }
                    return Some(SendReport { result: res, retries });
                },
            }
        }
        proof {
            assert(spec_outcomes(outcomes@) =~= Seq::<TransportOutcomeView>::empty());
        }
        None
    }

    /// The diagnostic rendering of the client: the base URL is shown, the
    /// credential is always the fixed mask.
    pub fn debug_string(&self) -> (r: String)
        ensures
            r@ == "OpenAIClient { api_host: "@ + self@.api_host
                + ", api_key: sk-************************************************** }"@,
    {
        let mut buf: Vec<char> = Vec::new();
        append_str(&mut buf, "OpenAIClient { api_host: ");
        append_str(&mut buf, self.api_host.as_str());
        append_str(&mut buf, ", api_key: sk-************************************************** }");
        proof {
            assert(buf@ =~= "OpenAIClient { api_host: "@ + self@.api_host
                + ", api_key: sk-************************************************** }"@);
        }
        chars_to_string(&buf)
    }
}

/// A received response ends the call at once, with no retry recorded; when
/// its status is not a success it is reported as an HTTP error carrying
/// exactly that status and body.
pub proof fn lemma_response_stops_retries(
    max_retries: u8,
    outcomes: Seq<TransportOutcomeView>,
    status: u16,
    body: Seq<char>,
)
    requires
        outcomes.len() > 0,
        outcomes[0] == (TransportOutcomeView::Response { status, body }),
    ensures
        spec_run(max_retries, outcomes, 0) == Some((spec_handle_response(status, body), 0u8)),
        !spec_is_success(status) ==> spec_run(max_retries, outcomes, 0) == Some(
            (CallOutcome::Http(status, body), 0u8),
        ),
{
}

/// With `k` more retries left in the budget, a trace that opens with `k`
/// transport failures and then a received response ends on that response,
/// with exactly `k` further retries recorded.
pub proof fn lemma_run_skips_failures(
    max_retries: u8,
    outcomes: Seq<TransportOutcomeView>,
    retries: u8,
    k: u8,
    status: u16,
    body: Seq<char>,
)
    requires
        retries as int + k as int <= max_retries as int,
        (k as int) < outcomes.len(),
        forall|i: int| 0 <= i < k as int ==> outcomes[i] is Failure,
        outcomes[k as int] == (TransportOutcomeView::Response { status, body }),
    ensures
        spec_run(max_retries, outcomes, retries) == Some(
            (spec_handle_response(status, body), (retries + k) as u8),
        ),
    decreases k,
{
    if k == 0 {
    } else {
        let tail = outcomes.drop_first();
        assert(outcomes[0] is Failure);
        assert(forall|i: int| 0 <= i < k as int - 1 ==> tail[i] == outcomes[i + 1]);
        assert(tail[k as int - 1] == outcomes[k as int]);
        lemma_run_skips_failures(max_retries, tail, (retries + 1) as u8, (k - 1) as u8, status, body);
    }
}

/// A trace of nothing but transport failures, one more than the budget has
/// room for, ends the call with a network error carrying the message of the
/// failure that broke the budget, after the whole budget — `max_retries`
/// retries — was spent.
pub proof fn lemma_run_exhausts_budget(
    max_retries: u8,
    outcomes: Seq<TransportOutcomeView>,
    retries: u8,
)
    requires
        retries <= max_retries,
        outcomes.len() >= max_retries as int - retries as int + 1,
        forall|i: int| 0 <= i <= max_retries as int - retries as int ==> outcomes[i] is Failure,
    ensures
        outcomes[max_retries as int - retries as int] matches TransportOutcomeView::Failure(m)
            && spec_run(max_retries, outcomes, retries) == Some(
            (CallOutcome::Network(m), max_retries),
        ),
    decreases max_retries - retries,
{
    assert(outcomes[0] is Failure);
    if retries < max_retries {
        let tail = outcomes.drop_first();
        assert(forall|i: int|
            0 <= i <= max_retries as int - retries as int - 1 ==> tail[i] == outcomes[i + 1]);
        lemma_run_exhausts_budget(max_retries, tail, (retries + 1) as u8);
        assert(tail[max_retries as int - retries as int - 1] == outcomes[max_retries as int
            - retries as int]);
    }
}

/// A success response whose parsed choice list is empty ends the call with
/// the terminal "no message returned" outcome.
pub proof fn lemma_empty_choices_no_message(status: u16, body: Seq<char>)
    ensures
        spec_is_success(status) ==> (spec_parse_response(body) matches Some(r) ==> (r.choices.len()
            == 0 ==> spec_handle_response(status, body) == CallOutcome::Empty)),
{
}

} // verus!
