//! Verified extraction of the response model from parsed JSON.
//!
//! The shape rules mirror what the remote API promises: the required fields
//! must be present with their exact types, `usage` and `finish_reason` may be
//! absent (or null) and then read as absent, and unknown fields are ignored.

use vstd::prelude::*;
use vstd::string::*;
use crate::chat::ChatCompletionChoice;
use crate::chat::ChatCompletionMessage;
use crate::chat::ChatCompletionMessageRole;
use crate::chat::ChatCompletionResponse;
use crate::chat::ChatCompletionUsage;
use crate::chat::ChatError;
use crate::chat::ChoiceView;
use crate::chat::MessageView;
use crate::chat::ResponseView;
use crate::chat::spec_role_str;
use crate::json::JsonModel;
use crate::json::json_of;
use crate::json::parse_json;
use crate::json::value_as_array;
use crate::json::value_as_i64;
use crate::json::value_as_str;
use crate::json::value_as_u64;
use crate::json::value_get;
use crate::json::value_is_null;
use crate::json::value_model;
use crate::text::str_eq;

verus! {

/// The role a wire name stands for.
pub open spec fn spec_role_of(s: Seq<char>) -> Option<ChatCompletionMessageRole> {
    if s == spec_role_str(ChatCompletionMessageRole::System) {
        Some(ChatCompletionMessageRole::System)
    } else if s == spec_role_str(ChatCompletionMessageRole::User) {
        Some(ChatCompletionMessageRole::User)
    } else if s == spec_role_str(ChatCompletionMessageRole::Assistant) {
        Some(ChatCompletionMessageRole::Assistant)
    } else {
        None
    }
}

/// A required text field: present and a string, else nothing.
pub open spec fn spec_text_field(f: Map<Seq<char>, JsonModel>, key: Seq<char>) -> Option<
    Seq<char>,
> {
    if f.contains_key(key) {
        match f[key] {
            JsonModel::Text(s) => Some(s),
            _ => None,
        }
    } else {
        None
    }
}

/// A required unsigned integer field.
pub open spec fn spec_u64_field(f: Map<Seq<char>, JsonModel>, key: Seq<char>) -> Option<u64> {
    if f.contains_key(key) {
        match f[key] {
            JsonModel::IntNum(i) => if 0 <= i <= u64::MAX {
                Some(i as u64)
            } else {
                None
            },
            _ => None,
        }
    } else {
        None
    }
}

/// A required signed integer field.
pub open spec fn spec_i64_field(f: Map<Seq<char>, JsonModel>, key: Seq<char>) -> Option<i64> {
    if f.contains_key(key) {
        match f[key] {
            JsonModel::IntNum(i) => if i64::MIN <= i <= i64::MAX {
                Some(i as i64)
            } else {
                None
            },
            _ => None,
        }
    } else {
        None
    }
}

/// An optional text field: absent or null reads as absent, a string as
/// present, any other type is a shape error.
pub open spec fn spec_opt_text_field(f: Map<Seq<char>, JsonModel>, key: Seq<char>) -> Option<
    Option<Seq<char>>,
> {
    if !f.contains_key(key) {
        Some(None)
    } else {
        match f[key] {
            JsonModel::Null => Some(None),
            JsonModel::Text(s) => Some(Some(s)),
            _ => None,
        }
    }
}

/// The message a JSON node stands for.
pub open spec fn spec_message_of(m: JsonModel) -> Option<MessageView> {
    match m {
        JsonModel::Obj(f) => match (spec_text_field(f, "role"@), spec_text_field(f, "content"@)) {
            (Some(r), Some(c)) => match spec_role_of(r) {
                Some(role) => Some(MessageView { role, content: c }),
                None => None,
            },
            _ => None,
        },
        _ => None,
    }
}

/// The usage record a JSON node stands for.
pub open spec fn spec_usage_of(m: JsonModel) -> Option<ChatCompletionUsage> {
    match m {
        JsonModel::Obj(f) => match (
            spec_i64_field(f, "prompt_tokens"@),
            spec_i64_field(f, "completion_tokens"@),
            spec_i64_field(f, "total_tokens"@),
        ) {
            (Some(p), Some(c), Some(t)) => Some(
                ChatCompletionUsage { prompt_tokens: p, completion_tokens: c, total_tokens: t },
            ),
            _ => None,
        },
        _ => None,
    }
}

/// The `usage` field of a response object: absent or null reads as an absent
/// usage value — never as an error — and an object must be a usage record.
pub open spec fn spec_usage_field(f: Map<Seq<char>, JsonModel>) -> Option<
    Option<ChatCompletionUsage>,
> {
    if !f.contains_key("usage"@) {
        Some(None)
    } else if f["usage"@] is Null {
        Some(None)
    } else {
        match spec_usage_of(f["usage"@]) {
            Some(u) => Some(Some(u)),
            None => None,
        }
    }
}

/// The choice a JSON node stands for.
pub open spec fn spec_choice_of(m: JsonModel) -> Option<ChoiceView> {
    match m {
        JsonModel::Obj(f) => if f.contains_key("message"@) {
            match (
                spec_u64_field(f, "index"@),
                spec_message_of(f["message"@]),
                spec_opt_text_field(f, "finish_reason"@),
            ) {
                (Some(index), Some(message), Some(finish_reason)) => Some(
                    ChoiceView { index, message, finish_reason },
                ),
                _ => None,
            }
        } else {
            None
        },
        _ => None,
    }
}

/// The choice list a JSON array stands for: every element must be a choice.
pub open spec fn spec_choices_of(s: Seq<JsonModel>) -> Option<Seq<ChoiceView>>
    decreases s.len(),
{
    if s.len() == 0 {
        Some(Seq::empty())
    } else {
        match (spec_choices_of(s.drop_last()), spec_choice_of(s.last())) {
            (Some(cs), Some(c)) => Some(cs.push(c)),
            _ => None,
        }
    }
}

/// The `choices` field of a response object: present, an array, and every
/// element a choice.
pub open spec fn spec_choices_field(f: Map<Seq<char>, JsonModel>) -> Option<Seq<ChoiceView>> {
    if f.contains_key("choices"@) {
        match f["choices"@] {
            JsonModel::Arr(s) => spec_choices_of(s),
            _ => None,
        }
    } else {
        None
    }
}

/// The response a JSON node stands for.
pub open spec fn spec_response_of(m: JsonModel) -> Option<ResponseView> {
    match m {
        JsonModel::Obj(f) => match (
            spec_text_field(f, "id"@),
            spec_text_field(f, "object"@),
            spec_u64_field(f, "created"@),
            spec_text_field(f, "model"@),
            spec_choices_field(f),
            spec_usage_field(f),
        ) {
            (Some(id), Some(object), Some(created), Some(model), Some(choices), Some(usage)) =>
                Some(ResponseView { id, object, created, model, choices, usage }),
            _ => None,
        },
        _ => None,
    }
}

/// The response a body text stands for: `None` when the text is not valid
/// JSON or does not have the response shape.
pub open spec fn spec_parse_response(s: Seq<char>) -> Option<ResponseView> {
    match json_of(s) {
        Some(m) => spec_response_of(m),
        None => None,
    }
}

/// The models of a vector of JSON nodes.
pub open spec fn spec_models_of(q: Seq<serde_json::Value>) -> Seq<JsonModel> {
    q.map_values(|w: serde_json::Value| value_model(w))
}

fn extract_role(s: &str) -> (r: Option<ChatCompletionMessageRole>)
    ensures
        r == spec_role_of(s@),
{
    if str_eq(s, "system") {
        Some(ChatCompletionMessageRole::System)
    } else if str_eq(s, "user") {
        Some(ChatCompletionMessageRole::User)
    } else if str_eq(s, "assistant") {
        Some(ChatCompletionMessageRole::Assistant)
    } else {
        None
    }
}

fn extract_message(v: &serde_json::Value) -> (r: Option<ChatCompletionMessage>)
    ensures
        r is Some <==> spec_message_of(value_model(*v)) is Some,
        r matches Some(m) ==> spec_message_of(value_model(*v)) == Some(m@),
{
    let role_v = match value_get(v, "role") {
        Some(w) => w,
        None => {
            return None;
        },
    };
    let content_v = match value_get(v, "content") {
        Some(w) => w,
        None => {
            return None;
        },
    };
    let role_s = match value_as_str(role_v) {
        Some(s) => s,
        None => {
            return None;
        },
    };
    let content_s = match value_as_str(content_v) {
        Some(s) => s,
        None => {
            return None;
        },
    };
    let role = match extract_role(role_s) {
        Some(r) => r,
        None => {
            return None;
        },
    };
    Some(ChatCompletionMessage { role, content: content_s.to_owned() })
}

fn extract_usage(v: &serde_json::Value) -> (r: Option<ChatCompletionUsage>)
    ensures
        r == spec_usage_of(value_model(*v)),
{
    let p_v = match value_get(v, "prompt_tokens") {
        Some(w) => w,
        None => {
            return None;
        },
    };
    let c_v = match value_get(v, "completion_tokens") {
        Some(w) => w,
        None => {
            return None;
        },
    };
    let t_v = match value_get(v, "total_tokens") {
        Some(w) => w,
        None => {
            return None;
        },
    };
    let p = match value_as_i64(p_v) {
        Some(x) => x,
        None => {
            return None;
        },
    };
    let c = match value_as_i64(c_v) {
        Some(x) => x,
        None => {
            return None;
        },
    };
    let t = match value_as_i64(t_v) {
        Some(x) => x,
        None => {
            return None;
        },
    };
    Some(ChatCompletionUsage { prompt_tokens: p, completion_tokens: c, total_tokens: t })
}

fn extract_choice(v: &serde_json::Value) -> (r: Option<ChatCompletionChoice>)
    ensures
        r is Some <==> spec_choice_of(value_model(*v)) is Some,
        r matches Some(c) ==> spec_choice_of(value_model(*v)) == Some(c@),
{
    let index_v = match value_get(v, "index") {
        Some(w) => w,
        None => {
            return None;
        },
    };
    let index = match value_as_u64(index_v) {
        Some(x) => x,
        None => {
            return None;
        },
    };
    let message_v = match value_get(v, "message") {
        Some(w) => w,
        None => {
            return None;
        },
    };
    let message = match extract_message(message_v) {
        Some(m) => m,
        None => {
            return None;
        },
    };
    let finish_reason: Option<String> = match value_get(v, "finish_reason") {
        None => None,
        Some(w) => if value_is_null(w) {
            None
        } else {
            match value_as_str(w) {
                Some(s) => Some(s.to_owned()),
                None => {
                    return None;
                },
            }
        },
    };
    Some(ChatCompletionChoice { index, message, finish_reason })
}

proof fn lemma_choices_none_prefix(s: Seq<JsonModel>, k: int)
    requires
        0 <= k <= s.len(),
        spec_choices_of(s.take(k)) is None,
    ensures
        spec_choices_of(s) is None,
    decreases s.len(),
{
    if k < s.len() {
        assert(s.drop_last().take(k) =~= s.take(k));
        lemma_choices_none_prefix(s.drop_last(), k);
    } else {
        assert(s.take(k) =~= s);
    }
}

fn extract_choices(a: &Vec<serde_json::Value>) -> (r: Option<Vec<ChatCompletionChoice>>)
    ensures
        r is Some <==> spec_choices_of(spec_models_of(a@)) is Some,
        r matches Some(out) ==> spec_choices_of(spec_models_of(a@)) == Some(
            out@.map_values(|c: ChatCompletionChoice| c@),
        ),
{
    let ghost s = spec_models_of(a@);
    let mut out: Vec<ChatCompletionChoice> = Vec::new();
    let n = a.len();
    let mut i: usize = 0;
    proof {
        assert(s.take(0) =~= Seq::<JsonModel>::empty());
        assert(out@.map_values(|c: ChatCompletionChoice| c@) =~= Seq::<ChoiceView>::empty());
    }
    while i < n
        invariant
            i <= n,
            n == a@.len(),
            s == spec_models_of(a@),
            s.len() == n,
            spec_choices_of(s.take(i as int)) == Some(
                out@.map_values(|c: ChatCompletionChoice| c@),
            ),
        decreases n - i,
    {
        proof {
            assert(s[i as int] == value_model(a@[i as int]));
        }
        match extract_choice(&a[i]) {
            Some(c) => {
                let ghost prev = out@.map_values(|c: ChatCompletionChoice| c@);
                out.push(c);
                i = i + 1;
                proof {
                    assert(s.take(i as int).drop_last() =~= s.take(i as int - 1));
                    assert(s.take(i as int).last() == s[i as int - 1]);
                    assert(out@.map_values(|c: ChatCompletionChoice| c@) =~= prev.push(c@));
                }
            },
            None => {
                proof {
                    assert(s.take(i as int + 1).drop_last() =~= s.take(i as int));
                    assert(s.take(i as int + 1).last() == s[i as int]);
                    assert(spec_choices_of(s.take(i as int + 1)) is None);
                    lemma_choices_none_prefix(s, i as int + 1);
                }
                return None;
            },
        }
    }
    proof {
        assert(s.take(n as int) =~= s);
    }
    Some(out)
}

fn extract_response(v: &serde_json::Value) -> (r: Option<ChatCompletionResponse>)
    ensures
        r is Some <==> spec_response_of(value_model(*v)) is Some,
        r matches Some(resp) ==> spec_response_of(value_model(*v)) == Some(resp@),
{
    let id_v = match value_get(v, "id") {
        Some(w) => w,
        None => {
            return None;
        },
    };
    let id_s = match value_as_str(id_v) {
        Some(s) => s,
        None => {
            return None;
        },
    };
    let object_v = match value_get(v, "object") {
        Some(w) => w,
        None => {
            return None;
        },
    };
    let object_s = match value_as_str(object_v) {
        Some(s) => s,
        None => {
            return None;
        },
    };
    let created_v = match value_get(v, "created") {
        Some(w) => w,
        None => {
            return None;
        },
    };
    let created = match value_as_u64(created_v) {
        Some(x) => x,
        None => {
            return None;
        },
    };
    let model_v = match value_get(v, "model") {
        Some(w) => w,
        None => {
            return None;
        },
    };
    let model_s = match value_as_str(model_v) {
        Some(s) => s,
        None => {
            return None;
        },
    };
    let choices_v = match value_get(v, "choices") {
        Some(w) => w,
        None => {
            return None;
        },
    };
    let choices_arr = match value_as_array(choices_v) {
        Some(a) => a,
        None => {
            return None;
        },
    };
    proof {
        assert(spec_models_of(choices_arr@) =~= value_model(*choices_v)->Arr_0);
    }
    let choices = match extract_choices(choices_arr) {
        Some(c) => c,
        None => {
            return None;
        },
    };
    let usage: Option<ChatCompletionUsage> = match value_get(v, "usage") {
        None => None,
        Some(w) => if value_is_null(w) {
            None
        } else {
            match extract_usage(w) {
                Some(u) => Some(u),
                None => {
                    return None;
                },
            }
        },
    };
    Some(
        ChatCompletionResponse {
            id: id_s.to_owned(),
            object: object_s.to_owned(),
            created,
            model: model_s.to_owned(),
            choices,
            usage,
        },
    )
}

impl ChatCompletionResponse {
    /// Parse a response body. Succeeds exactly when the body is valid JSON of
    /// the response shape; everything else is a format error. Unknown fields
    /// are ignored, and a missing `usage` or `finish_reason` reads as absent.
    pub fn parse(body: &str) -> (r: Result<ChatCompletionResponse, ChatError>)
        ensures
            r is Ok <==> spec_parse_response(body@) is Some,
            r matches Ok(resp) ==> spec_parse_response(body@) == Some(resp@),
            r matches Err(e) ==> e matches ChatError::InvalidResponseFormat(_),
    {
        let value = match parse_json(body) {
            Ok(v) => v,
            Err(e) => {
                return Err(ChatError::InvalidResponseFormat(e));
            },
        };
        match extract_response(&value) {
            Some(resp) => Ok(resp),
            None => Err(
                ChatError::InvalidResponseFormat(
                    String::from_str("response body does not match the expected shape"),
                ),
            ),
        }
    }
}

/// A well-formed response object that lacks the `usage` key parses without
/// error, and its usage value is absent.
pub proof fn lemma_missing_usage_absent(f: Map<Seq<char>, JsonModel>)
    requires
        !f.contains_key("usage"@),
        spec_text_field(f, "id"@) is Some,
        spec_text_field(f, "object"@) is Some,
        spec_u64_field(f, "created"@) is Some,
        spec_text_field(f, "model"@) is Some,
        spec_choices_field(f) is Some,
    ensures
        spec_response_of(JsonModel::Obj(f)) matches Some(r) && r.usage is None,
{
}

} // verus!
