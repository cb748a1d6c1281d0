//! Completion events and the wire format of the token stream.
//!
//! Each generated token is reported as a `CompletionResponse` holding exactly
//! one `Choice`, serialized as the JSON object `{"choices":[{"text":"…"}]}`
//! and framed as one server-sent event, `data: <json>\n\n`. The encoder works
//! on the token's UTF-8 bytes and escapes exactly the bytes JSON requires a
//! string literal to escape: the quote, the backslash, and the control bytes
//! below 0x20 (with the conventional short forms for backspace, tab, newline,
//! form feed and carriage return, and lowercase `\u00XX` for the rest).

use vstd::prelude::*;

verus! {

/// One choice of a completion event: the text of a generated token.
pub struct Choice {
    pub text: String,
}

/// The event emitted for one generated token; currently always exactly one
/// choice.
pub struct CompletionResponse {
    pub choices: Vec<Choice>,
}

/// The event reporting one generated token: a response with a single choice
/// carrying the token's text.
pub fn completion_event(token: String) -> (r: CompletionResponse)
    ensures
        r.choices@.len() == 1,
        r.choices@[0].text@ == token@,
{
    CompletionResponse { choices: vec![Choice { text: token }] }
}

/// The lowercase hexadecimal digit for a value below 16.
pub open spec fn hex_digit(n: u8) -> u8 {
    if n < 10 {
        (0x30 + n) as u8
    } else {
        (0x57 + n) as u8
    }
}

/// How one byte of a token appears inside a JSON string literal.
pub open spec fn escape_byte(b: u8) -> Seq<u8> {
    if b == 0x22 {
        seq![0x5cu8, 0x22u8]
    } else if b == 0x5c {
        seq![0x5cu8, 0x5cu8]
    } else if b == 0x08 {
        seq![0x5cu8, 0x62u8]
    } else if b == 0x09 {
        seq![0x5cu8, 0x74u8]
    } else if b == 0x0a {
        seq![0x5cu8, 0x6eu8]
    } else if b == 0x0c {
        seq![0x5cu8, 0x66u8]
    } else if b == 0x0d {
        seq![0x5cu8, 0x72u8]
    } else if b < 0x20 {
        seq![0x5cu8, 0x75u8, 0x30u8, 0x30u8, hex_digit(b / 16), hex_digit(b % 16)]
    } else {
        seq![b]
    }
}

/// A token's bytes as they appear inside a JSON string literal.
pub open spec fn json_escaped(s: Seq<u8>) -> Seq<u8>
    decreases s.len(),
{
    if s.len() == 0 {
        Seq::empty()
    } else {
        json_escaped(s.drop_last()) + escape_byte(s.last())
    }
}

/// The bytes of `{"choices":[{"text":"`.
pub open spec fn event_prefix() -> Seq<u8> {
    seq![
        0x7bu8,
        0x22u8,
        0x63u8,
        0x68u8,
        0x6fu8,
        0x69u8,
        0x63u8,
        0x65u8,
        0x73u8,
        0x22u8,
        0x3au8,
        0x5bu8,
        0x7bu8,
        0x22u8,
        0x74u8,
        0x65u8,
        0x78u8,
        0x74u8,
        0x22u8,
        0x3au8,
        0x22u8,
    ]
}

/// The bytes of `"}]}`.
pub open spec fn event_suffix() -> Seq<u8> {
    seq![0x22u8, 0x7du8, 0x5du8, 0x7du8]
}

/// The JSON encoding of the event for one token: a response object with a
/// single choice whose text is the token.
pub open spec fn event_json(token: Seq<u8>) -> Seq<u8> {
    event_prefix() + json_escaped(token) + event_suffix()
}

/// The bytes of `data: `.
pub open spec fn frame_prefix() -> Seq<u8> {
    seq![0x64u8, 0x61u8, 0x74u8, 0x61u8, 0x3au8, 0x20u8]
}

/// One server-sent event frame for one token: `data: <json>\n\n`.
pub open spec fn frame_of(token: Seq<u8>) -> Seq<u8> {
    frame_prefix() + event_json(token) + seq![0x0au8, 0x0au8]
}

/// Framing overhead is bounded: a token's frame is its escaped bytes — at
/// least one and at most six per token byte — under 33 bytes of fixed
/// framing. So a stream buffer of capacity at least `33 + 6 * n` can always
/// take the frame of a token of `n` bytes.
pub proof fn lemma_frame_size_bound(token: Seq<u8>)
    ensures
        frame_of(token).len() == 33 + json_escaped(token).len(),
        token.len() <= json_escaped(token).len() <= 6 * token.len(),
    decreases token.len(),
{
    if token.len() > 0 {
        lemma_frame_size_bound(token.drop_last());
    }
}

/// The lowercase hexadecimal digit for a value below 16 (executable).
fn hex_digit_exec(n: u8) -> (d: u8)
    requires
        n < 16,
    ensures
        d == hex_digit(n),
{
    if n < 10 {
        0x30 + n
    } else {
        0x57 + n
    }
}

/// Append the escaped form of one token byte.
fn push_escaped_byte(out: &mut Vec<u8>, b: u8)
    ensures
        final(out)@ == old(out)@ + escape_byte(b),
{
    if b == 0x22 {
        out.push(0x5c);
        out.push(0x22);
    } else if b == 0x5c {
        out.push(0x5c);
        out.push(0x5c);
    } else if b == 0x08 {
        out.push(0x5c);
        out.push(0x62);
    } else if b == 0x09 {
        out.push(0x5c);
        out.push(0x74);
    } else if b == 0x0a {
        out.push(0x5c);
        out.push(0x6e);
    } else if b == 0x0c {
        out.push(0x5c);
        out.push(0x66);
    } else if b == 0x0d {
        out.push(0x5c);
        out.push(0x72);
    } else if b < 0x20 {
        out.push(0x5c);
        out.push(0x75);
        out.push(0x30);
        out.push(0x30);
        out.push(hex_digit_exec(b / 16));
        out.push(hex_digit_exec(b % 16));
    } else {
        out.push(b);
    }
    proof {
        assert(out@ =~= old(out)@ + escape_byte(b));
    }
}

/// Append the JSON string-literal form of a whole token.
fn push_json_escaped(out: &mut Vec<u8>, token: &[u8])
    ensures
        final(out)@ == old(out)@ + json_escaped(token@),
{
    let mut i: usize = 0;
    while i < token.len()
        invariant
            i <= token@.len(),
            out@ == old(out)@ + json_escaped(token@.take(i as int)),
        decreases token@.len() - i,
    {
        push_escaped_byte(out, token[i]);
        proof {
            assert(token@.take(i + 1 as int).drop_last() =~= token@.take(i as int));
            assert(out@ =~= old(out)@ + json_escaped(token@.take(i + 1 as int)));
        }
        i = i + 1;
    }
    proof {
        assert(token@.take(token@.len() as int) =~= token@);
    }
}

/// The JSON encoding of the event for one token, from the token's UTF-8
/// bytes.
pub fn encode_event_json(token: &[u8]) -> (r: Vec<u8>)
    ensures
        r@ == event_json(token@),
{
    let mut out: Vec<u8> = Vec::new();
    out.push(0x7b);
    out.push(0x22);
    out.push(0x63);
    out.push(0x68);
    out.push(0x6f);
    out.push(0x69);
    out.push(0x63);
    out.push(0x65);
    out.push(0x73);
    out.push(0x22);
    out.push(0x3a);
    out.push(0x5b);
    out.push(0x7b);
    out.push(0x22);
    out.push(0x74);
    out.push(0x65);
    out.push(0x78);
    out.push(0x74);
    out.push(0x22);
    out.push(0x3a);
    out.push(0x22);
    proof {
        assert(out@ =~= event_prefix());
    }
    push_json_escaped(&mut out, token);
    out.push(0x22);
    out.push(0x7d);
    out.push(0x5d);
    out.push(0x7d);
    proof {
        assert(out@ =~= event_json(token@));
    }
    out
}

/// One server-sent event frame for one token: `data: <json>\n\n`, from the
/// token's UTF-8 bytes.
pub fn frame_event(token: &[u8]) -> (r: Vec<u8>)
    ensures
        r@ == frame_of(token@),
{
    let mut out: Vec<u8> = Vec::new();
    out.push(0x64);
    out.push(0x61);
    out.push(0x74);
    out.push(0x61);
    out.push(0x3a);
    out.push(0x20);
    proof {
        assert(out@ =~= frame_prefix());
    }
    let json = encode_event_json(token);
    let mut j: usize = 0;
    while j < json.len()
        invariant
            j <= json@.len(),
            json@ == event_json(token@),
            out@ == frame_prefix() + json@.take(j as int),
        decreases json@.len() - j,
    {
        out.push(json[j]);
        proof {
            assert(json@.take(j + 1 as int) =~= json@.take(j as int) + seq![json@[j as int]]);
            assert(out@ =~= frame_prefix() + json@.take(j + 1 as int));
        }
        j = j + 1;
    }
    out.push(0x0a);
    out.push(0x0a);
    proof {
        assert(json@.take(json@.len() as int) =~= json@);
        assert(out@ =~= frame_of(token@));
    }
    out
}

} // verus!
