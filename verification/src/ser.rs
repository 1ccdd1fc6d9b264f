//! The outbound wire format: requests rendered as JSON text.
//!
//! An optional sampling field that was never set is omitted from the payload
//! altogether — it does not appear as `null` — because the remote API rejects
//! unexpected null fields.

use vstd::prelude::*;
use vstd::string::*;
use crate::chat::ChatCompletionMessage;
use crate::chat::ChatCompletionRequest;
use crate::chat::MessageView;
use crate::chat::RequestView;
use crate::chat::model_str;
use crate::chat::role_str;
use crate::chat::spec_model_str;
use crate::chat::spec_role_str;
use crate::num::Decimal;
use crate::num::push_decimal;
use crate::num::push_u64_digits;
use crate::num::spec_decimal_chars;
use crate::num::spec_digit_char;
use crate::num::spec_u64_digits;
use crate::text::append_str;
use crate::text::chars_to_string;

verus! {

/// The character for one hexadecimal digit.
pub open spec fn spec_hex_digit(n: nat) -> char {
    if n < 10 {
        spec_digit_char(n)
    } else if n == 10 {
        'a'
    } else if n == 11 {
        'b'
    } else if n == 12 {
        'c'
    } else if n == 13 {
        'd'
    } else if n == 14 {
        'e'
    } else {
        'f'
    }
}

/// The JSON escape of one character inside a string literal: quote and
/// backslash get a backslash, the named control characters their short
/// escape, any other control character a `\u00XX` escape, and everything
/// else stands for itself.
pub open spec fn spec_escape_char(c: char) -> Seq<char> {
    if c == '"' {
        seq!['\\', '"']
    } else if c == '\\' {
        seq!['\\', '\\']
    } else if c == '\n' {
        seq!['\\', 'n']
    } else if c == '\t' {
        seq!['\\', 't']
    } else if c == '\r' {
        seq!['\\', 'r']
    } else if c as u32 == 8 {
        seq!['\\', 'b']
    } else if c as u32 == 12 {
        seq!['\\', 'f']
    } else if (c as u32) < 32 {
        seq!['\\', 'u', '0', '0', spec_hex_digit((c as u32 / 16) as nat), spec_hex_digit((
            c as u32 % 16
        ) as nat)]
    } else {
        seq![c]
    }
}

/// The JSON escape of a whole string body.
pub open spec fn spec_escaped(s: Seq<char>) -> Seq<char>
    decreases s.len(),
{
    if s.len() == 0 {
        Seq::empty()
    } else {
        spec_escaped(s.drop_last()) + spec_escape_char(s.last())
    }
}

fn hex_digit(n: u32) -> (c: char)
    requires
        n < 16,
    ensures
        c == spec_hex_digit(n as nat),
{
    match n {
        0 => '0',
        1 => '1',
        2 => '2',
        3 => '3',
        4 => '4',
        5 => '5',
        6 => '6',
        7 => '7',
        8 => '8',
        9 => '9',
        10 => 'a',
        11 => 'b',
        12 => 'c',
        13 => 'd',
        14 => 'e',
        _ => 'f',
    }
}

fn push_escaped_char(buf: &mut Vec<char>, c: char)
    ensures
        final(buf)@ == old(buf)@ + spec_escape_char(c),
{
    if c == '"' {
        buf.push('\\');
        buf.push('"');
    } else if c == '\\' {
        buf.push('\\');
        buf.push('\\');
    } else if c == '\n' {
        buf.push('\\');
        buf.push('n');
    } else if c == '\t' {
        buf.push('\\');
        buf.push('t');
    } else if c == '\r' {
        buf.push('\\');
        buf.push('r');
    } else {
        let n = c as u32;
        if n == 8 {
            buf.push('\\');
            buf.push('b');
        } else if n == 12 {
            buf.push('\\');
            buf.push('f');
        } else if n < 32 {
            buf.push('\\');
            buf.push('u');
            buf.push('0');
            buf.push('0');
            let hi = hex_digit(n / 16);
            buf.push(hi);
            let lo = hex_digit(n % 16);
            buf.push(lo);
        } else {
            buf.push(c);
        }
    }
    proof {
        assert(buf@ =~= old(buf)@ + spec_escape_char(c));
    }
}

fn push_escaped(buf: &mut Vec<char>, s: &str)
    ensures
        final(buf)@ == old(buf)@ + spec_escaped(s@),
{
    let n = s.unicode_len();
    let mut i: usize = 0;
    while i < n
        invariant
            i <= n,
            n == s@.len(),
            buf@ == old(buf)@ + spec_escaped(s@.take(i as int)),
        decreases n - i,
    {
        let c = s.get_char(i);
        push_escaped_char(buf, c);
        i = i + 1;
        proof {
            assert(s@.take(i as int).drop_last() =~= s@.take(i as int - 1));
            assert(s@.take(i as int).last() == s@[i as int - 1]);
            assert(buf@ =~= old(buf)@ + spec_escaped(s@.take(i as int)));
        }
    }
    proof {
        assert(s@.take(n as int) =~= s@);
    }
}

/// The JSON rendering of one message.
pub open spec fn spec_message_json(m: MessageView) -> Seq<char> {
    "{\"role\":\""@ + spec_role_str(m.role) + "\",\"content\":\""@ + spec_escaped(m.content)
        + "\"}"@
}

/// The JSON rendering of a message list, commas between entries, without the
/// surrounding brackets.
pub open spec fn spec_messages_json(ms: Seq<MessageView>) -> Seq<char>
    decreases ms.len(),
{
    if ms.len() == 0 {
        Seq::empty()
    } else if ms.len() == 1 {
        spec_message_json(ms[0])
    } else {
        spec_messages_json(ms.drop_last()) + seq![','] + spec_message_json(ms.last())
    }
}

fn push_message_json(buf: &mut Vec<char>, m: &ChatCompletionMessage)
    ensures
        final(buf)@ == old(buf)@ + spec_message_json(m@),
{
    append_str(buf, "{\"role\":\"");
    append_str(buf, role_str(m.role));
    append_str(buf, "\",\"content\":\"");
    push_escaped(buf, m.content.as_str());
    append_str(buf, "\"}");
    proof {
        assert(buf@ =~= old(buf)@ + spec_message_json(m@));
    }
}

fn push_messages_json(buf: &mut Vec<char>, msgs: &Vec<ChatCompletionMessage>)
    ensures
        final(buf)@ == old(buf)@ + spec_messages_json(
            msgs@.map_values(|m: ChatCompletionMessage| m@),
        ),
{
    let ghost view = msgs@.map_values(|m: ChatCompletionMessage| m@);
    let n = msgs.len();
    let mut i: usize = 0;
    while i < n
        invariant
            i <= n,
            n == msgs@.len(),
            view == msgs@.map_values(|m: ChatCompletionMessage| m@),
            buf@ == old(buf)@ + spec_messages_json(view.take(i as int)),
        decreases n - i,
    {
        if i > 0 {
            buf.push(',');
        }
        push_message_json(buf, &msgs[i]);
        i = i + 1;
        proof {
            assert(view.take(i as int).drop_last() =~= view.take(i as int - 1));
            assert(view.take(i as int).last() == view[i as int - 1]);
            assert(view[i as int - 1] == msgs@[i as int - 1]@);
            assert(buf@ =~= old(buf)@ + spec_messages_json(view.take(i as int)));
        }
    }
    proof {
        assert(view.take(n as int) =~= view);
    }
}

/// The rendering of an optional decimal field: the key (with its leading
/// comma) and the value when set, nothing at all when absent.
pub open spec fn spec_opt_dec(prefix: Seq<char>, v: Option<Decimal>) -> Seq<char> {
    match v {
        Some(d) => prefix + spec_decimal_chars(d),
        None => Seq::empty(),
    }
}

/// The rendering of an optional integer field, as [`spec_opt_dec`].
pub open spec fn spec_opt_u64(prefix: Seq<char>, v: Option<u64>) -> Seq<char> {
    match v {
        Some(n) => prefix + spec_u64_digits(n as nat),
        None => Seq::empty(),
    }
}

/// The serialized payload of a request: the two required fields first, then
/// each optional field that is set, in declaration order, and nothing else.
pub open spec fn spec_request_json(r: RequestView) -> Seq<char> {
    "{\"model\":\""@ + spec_model_str(r.model) + "\",\"messages\":["@ + spec_messages_json(
        r.messages,
    ) + "]"@ + spec_opt_dec(",\"temperature\":"@, r.temperature) + spec_opt_dec(
        ",\"top_p\":"@,
        r.top_p,
    ) + spec_opt_u64(",\"max_tokens\":"@, r.max_tokens) + spec_opt_dec(
        ",\"frequency_penalty\":"@,
        r.frequency_penalty,
    ) + spec_opt_dec(",\"presence_penalty\":"@, r.presence_penalty) + "}"@
}

impl ChatCompletionRequest {
    /// Render this request as its JSON payload.
    pub fn to_json(&self) -> (r: String)
        ensures
            r@ == spec_request_json(self@),
    {
        let mut buf: Vec<char> = Vec::new();
        append_str(&mut buf, "{\"model\":\"");
        append_str(&mut buf, model_str(self.model));
        append_str(&mut buf, "\",\"messages\":[");
        push_messages_json(&mut buf, &self.messages);
        append_str(&mut buf, "]");
        match self.temperature {
            Some(d) => {
                append_str(&mut buf, ",\"temperature\":");
                push_decimal(&mut buf, d);
            },
            None => {},
        }
        match self.top_p {
            Some(d) => {
                append_str(&mut buf, ",\"top_p\":");
                push_decimal(&mut buf, d);
            },
            None => {},
        }
        match self.max_tokens {
            Some(n) => {
                append_str(&mut buf, ",\"max_tokens\":");
                push_u64_digits(&mut buf, n);
            },
            None => {},
        }
        match self.frequency_penalty {
            Some(d) => {
                append_str(&mut buf, ",\"frequency_penalty\":");
                push_decimal(&mut buf, d);
            },
            None => {},
        }
        match self.presence_penalty {
            Some(d) => {
                append_str(&mut buf, ",\"presence_penalty\":");
                push_decimal(&mut buf, d);
            },
            None => {},
        }
        append_str(&mut buf, "}");
        proof {
            assert(buf@ =~= spec_request_json(self@));
        }
        chars_to_string(&buf)
    }
}

/// A request with no optional field set serializes to a payload holding
/// exactly the two required fields — no optional key appears, not even as
/// null.
pub proof fn lemma_minimal_payload(r: RequestView)
    requires
        r.temperature is None,
        r.top_p is None,
        r.max_tokens is None,
        r.frequency_penalty is None,
        r.presence_penalty is None,
    ensures
        spec_request_json(r) == "{\"model\":\""@ + spec_model_str(r.model) + "\",\"messages\":["@
            + spec_messages_json(r.messages) + "]}"@,
{
    reveal_strlit("]");
    reveal_strlit("}");
    reveal_strlit("]}");
    assert(spec_request_json(r) =~= "{\"model\":\""@ + spec_model_str(r.model)
        + "\",\"messages\":["@ + spec_messages_json(r.messages) + "]}"@);
}

} // verus!
