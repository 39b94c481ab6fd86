//! The HTTP surface's data: response values and the JSON readiness report.
//! The report format is fixed here: one object whose keys are the condition
//! names, JSON-escaped, in the order of the condition set, each mapped to
//! its current flag.

use vstd::prelude::*;
use vstd::string::StringExecFns;

use crate::readiness_probe::all_ready;
use crate::readiness_probe::all_true;
use crate::readiness_probe::names_seq;

verus! {

/// Relies on `alloc::string::String::push`: appends one character at the
/// end of the string.
pub assume_specification[ String::push ](s: &mut String, ch: char)
    ensures
        final(s)@ == old(s)@.push(ch),
;

/// The media type a response is served under.
#[derive(Clone, Copy, PartialEq, Eq, Structural, Debug)]
pub enum ContentType {
    TextPlain,
    ApplicationJson,
}

impl ContentType {
    /// The header value for this media type.
    pub fn as_str(&self) -> (r: &'static str)
        ensures
            *self == ContentType::TextPlain ==> r@ == "text/plain"@,
            *self == ContentType::ApplicationJson ==> r@ == "application/json"@,
    {
        match self {
            ContentType::TextPlain => "text/plain",
            ContentType::ApplicationJson => "application/json",
        }
    }
}

/// One HTTP response: status code, media type and body.
pub struct HttpResponse {
    pub status: u16,
    pub content_type: ContentType,
    pub body: String,
}

/// The lower-case hex digit for a value below 16.
pub open spec fn hex_digit(d: int) -> char {
    if d == 0 {
        '0'
    } else if d == 1 {
        '1'
    } else if d == 2 {
        '2'
    } else if d == 3 {
        '3'
    } else if d == 4 {
        '4'
    } else if d == 5 {
        '5'
    } else if d == 6 {
        '6'
    } else if d == 7 {
        '7'
    } else if d == 8 {
        '8'
    } else if d == 9 {
        '9'
    } else if d == 10 {
        'a'
    } else if d == 11 {
        'b'
    } else if d == 12 {
        'c'
    } else if d == 13 {
        'd'
    } else if d == 14 {
        'e'
    } else {
        'f'
    }
}

fn hex_digit_exec(d: u32) -> (r: char)
    requires
        d < 16,
    ensures
        r == hex_digit(d as int),
{
    if d == 0 {
        '0'
    } else if d == 1 {
        '1'
    } else if d == 2 {
        '2'
    } else if d == 3 {
        '3'
    } else if d == 4 {
        '4'
    } else if d == 5 {
        '5'
    } else if d == 6 {
        '6'
    } else if d == 7 {
        '7'
    } else if d == 8 {
        '8'
    } else if d == 9 {
        '9'
    } else if d == 10 {
        'a'
    } else if d == 11 {
        'b'
    } else if d == 12 {
        'c'
    } else if d == 13 {
        'd'
    } else if d == 14 {
        'e'
    } else {
        'f'
    }
}

/// How one character appears inside a JSON string literal: quote and
/// backslash get a backslash escape, control characters a `\u00XX` escape,
/// anything else stands as itself.
pub open spec fn json_escaped_char(c: char) -> Seq<char> {
    if c == '"' {
        seq!['\\', '"']
    } else if c == '\\' {
        seq!['\\', '\\']
    } else if (c as u32) < 32 {
        seq!['\\', 'u', '0', '0', hex_digit((c as u32) as int / 16), hex_digit(
            (c as u32) as int % 16,
        )]
    } else {
        seq![c]
    }
}

/// A whole character sequence, JSON-escaped.
pub open spec fn json_escaped(s: Seq<char>) -> Seq<char>
    decreases s.len(),
{
    if s.len() == 0 {
        Seq::empty()
    } else {
        json_escaped(s.drop_last()) + json_escaped_char(s.last())
    }
}

/// Appends the JSON-escaped form of `s` to `out`.
fn append_escaped(out: &mut String, s: &String)
    ensures
        final(out)@ == old(out)@ + json_escaped(s@),
{
    let n = s.as_str().unicode_len();
    let mut i: usize = 0;
    while i < n
        invariant
            n == s@.len(),
            i <= n,
            out@ == old(out)@ + json_escaped(s@.take(i as int)),
        decreases n - i,
    {
        let c = s.as_str().get_char(i);
        proof {
            assert(s@.take(i as int + 1).drop_last() =~= s@.take(i as int));
            assert(s@.take(i as int + 1).last() == s@[i as int]);
        }
        if c == '"' {
            out.push('\\');
            out.push('"');
        } else if c == '\\' {
            out.push('\\');
            out.push('\\');
        } else if (c as u32) < 32 {
            let code = c as u32;
            out.push('\\');
            out.push('u');
            out.push('0');
            out.push('0');
            out.push(hex_digit_exec(code / 16));
            out.push(hex_digit_exec(code % 16));
        } else {
            out.push(c);
        }
        proof {
            assert(out@ =~= old(out)@ + json_escaped(s@.take(i as int + 1)));
        }
        i = i + 1;
    }
    proof {
        assert(s@.take(n as int) =~= s@);
    }
}

/// A JSON boolean.
pub open spec fn json_bool(b: bool) -> Seq<char> {
    if b {
        "true"@
    } else {
        "false"@
    }
}

/// One entry of the readiness report: the escaped name in quotes, a colon,
/// and the flag.
pub open spec fn json_entry(name: Seq<char>, flag: bool) -> Seq<char> {
    seq!['"'] + json_escaped(name) + seq!['"', ':'] + json_bool(flag)
}

/// The first `n` entries of the readiness report, comma-separated.
pub open spec fn json_entries(names: Seq<Seq<char>>, flags: Seq<bool>, n: int) -> Seq<char>
    decreases n,
{
    if n <= 0 {
        Seq::empty()
    } else if n == 1 {
        json_entry(names[0], flags[0])
    } else {
        json_entries(names, flags, n - 1) + seq![','] + json_entry(names[n - 1], flags[n - 1])
    }
}

/// The readiness report: a JSON object mapping each condition name to its
/// flag, in the order of the condition set; `{}` for the empty set.
pub open spec fn conditions_json(names: Seq<Seq<char>>, flags: Seq<bool>) -> Seq<char> {
    seq!['{'] + json_entries(names, flags, names.len() as int) + seq!['}']
}

/// Renders the readiness report for the given names and flags.
fn render_conditions(names: &Vec<String>, flags: &Vec<bool>) -> (r: String)
    requires
        flags@.len() == names@.len(),
    ensures
        r@ == conditions_json(names_seq(names@), flags@),
{
    let ghost gnames = names_seq(names@);
    let mut out = String::new();
    out.push('{');
    let mut i: usize = 0;
    while i < names.len()
        invariant
            flags@.len() == names@.len(),
            i <= names@.len(),
            gnames == names_seq(names@),
            out@ == seq!['{'] + json_entries(gnames, flags@, i as int),
        decreases names@.len() - i,
    {
        if i > 0 {
            out.push(',');
        }
        out.push('"');
        let name = &names[i];
        append_escaped(&mut out, name);
        out.push('"');
        out.push(':');
        if flags[i] {
            out.append("true");
        } else {
            out.append("false");
        }
        proof {
            assert(gnames[i as int] == names@[i as int]@);
            assert(out@ =~= seq!['{'] + json_entries(gnames, flags@, i as int + 1));
        }
        i = i + 1;
    }
    out.push('}');
    proof {
        assert(out@ =~= conditions_json(gnames, flags@));
    }
    out
}

/// The liveness answer: the process can answer HTTP requests at all.
pub fn alive_response() -> (r: HttpResponse)
    ensures
        r.status == 200,
        r.content_type == ContentType::TextPlain,
        r.body@ == "alive"@,
{
    HttpResponse { status: 200, content_type: ContentType::TextPlain, body: "alive".to_owned() }
}

/// The answer for a path outside the health surface.
pub fn not_found_response() -> (r: HttpResponse)
    ensures
        r.status == 404,
        r.content_type == ContentType::TextPlain,
        r.body@ == "Not found"@,
{
    HttpResponse {
        status: 404,
        content_type: ContentType::TextPlain,
        body: "Not found".to_owned(),
    }
}

/// The metrics exposition answer, carrying an already rendered text body.
pub fn metrics_response(text: String) -> (r: HttpResponse)
    ensures
        r.status == 200,
        r.content_type == ContentType::TextPlain,
        r.body@ == text@,
{
    HttpResponse { status: 200, content_type: ContentType::TextPlain, body: text }
}

/// The readiness answer for one observed state: 200 iff every flag is true,
/// 503 otherwise, with the JSON report of that same state as the body.
pub fn ready_response(names: &Vec<String>, flags: &Vec<bool>) -> (r: HttpResponse)
    requires
        flags@.len() == names@.len(),
    ensures
        r.status == (if all_ready(flags@) {
            200int
        } else {
            503int
        }),
        r.content_type == ContentType::ApplicationJson,
        r.body@ == conditions_json(names_seq(names@), flags@),
{
    let ready = all_true(flags);
    let body = render_conditions(names, flags);
    HttpResponse {
        status: if ready {
            200
        } else {
            503
        },
        content_type: ContentType::ApplicationJson,
        body,
    }
}

/// Whether two strings hold the same characters.
pub(crate) fn str_eq(a: &str, b: &str) -> (r: bool)
    ensures
        r == (a@ == b@),
{
    let sa = a.to_owned();
    let sb = b.to_owned();
    sa == sb
}

} // verus!
