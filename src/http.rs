use vstd::prelude::*;
use vstd::string::{StrSliceExecFns, StringExecFns};
use vstd::utf8::encode_utf8;

use crate::reply::{json_type, Reply};
use crate::text::{contains, dec, push_decimal};

verus! {

/// Unicode white space, as `char::is_whitespace` counts it.
pub open spec fn is_space(c: char) -> bool {
    ('\u{9}' <= c && c <= '\u{d}') || c == ' ' || c == '\u{85}' || c == '\u{a0}' || c == '\u{1680}'
        || ('\u{2000}' <= c && c <= '\u{200a}') || c == '\u{2028}' || c == '\u{2029}' || c
        == '\u{202f}' || c == '\u{205f}' || c == '\u{3000}'
}

/// The first index at or after `i`, and before `end`, whose character is (for
/// `space`) or is not (for `!space`) white space; `end` where there is none.
pub open spec fn scan(s: Seq<char>, i: int, end: int, space: bool) -> int
    decreases end - i,
{
    if i >= end {
        end
    } else if is_space(s[i]) == space {
        i
    } else {
        scan(s, i + 1, end, space)
    }
}

/// The index of the first newline of `s`, or its length.
pub open spec fn line_end(s: Seq<char>, i: int) -> int
    decreases s.len() - i,
{
    if i >= s.len() {
        s.len() as int
    } else if s[i] == '\n' {
        i
    } else {
        line_end(s, i + 1)
    }
}

/// The path of a request: the second white-space separated word of its first
/// line, or `/` where that line has fewer words.
pub open spec fn request_path_of(req: Seq<char>) -> Seq<char> {
    let end = line_end(req, 0);
    let a = scan(req, 0, end, false);
    let b = scan(req, a, end, true);
    let c = scan(req, b, end, false);
    if c >= end {
        "/"@
    } else {
        req.subrange(c, scan(req, c, end, true))
    }
}

/// The reason phrase that follows a status code.
pub open spec fn status_text(status: u16) -> Seq<char> {
    if status == 200 {
        "200 OK"@
    } else if status == 500 {
        "500 Internal Server Error"@
    } else if status == 503 {
        "503 Service Unavailable"@
    } else {
        dec(status as nat)
    }
}

/// The byte length of `body` in UTF-8, as the machine counts it.
pub open spec fn byte_len(body: Seq<char>) -> nat {
    (encode_utf8(body).len() as usize) as nat
}

/// The whole HTTP/1.0 response for `status` and `body`.
pub open spec fn response_text(status: u16, body: Seq<char>) -> Seq<char> {
    "HTTP/1.0 "@ + status_text(status) + "\r\nServer: lab-endpoint4\r\nContent-Type: "@ + json_type()
        + "\r\nContent-Length: "@ + dec(byte_len(body)) + "\r\nConnection: close\r\n\r\n"@
        + body
}

/// Every response declares its body as JSON.
pub proof fn lemma_response_declares_json(status: u16, body: Seq<char>)
    ensures
        contains(response_text(status, body), "Content-Type: application/json"@),
{
    reveal_strlit("\r\nServer: lab-endpoint4\r\nContent-Type: ");
    reveal_strlit("Content-Type: application/json");
    reveal_strlit("application/json");
    let r = response_text(status, body);
    let i: int = "HTTP/1.0 "@.len() as int + status_text(status).len() as int + 25;
    assert(r.subrange(i, i + 30) == "Content-Type: application/json"@);
}

proof fn lemma_scan_bounds(s: Seq<char>, i: int, end: int, space: bool)
    requires
        i <= end,
    ensures
        i <= scan(s, i, end, space) <= end,
    decreases end - i,
{
    if i < end && is_space(s[i]) != space {
        lemma_scan_bounds(s, i + 1, end, space);
    }
}

proof fn lemma_line_end_bounds(s: Seq<char>, i: int)
    requires
        0 <= i <= s.len(),
    ensures
        i <= line_end(s, i) <= s.len(),
    decreases s.len() - i,
{
    if i < s.len() && s[i] != '\n' {
        lemma_line_end_bounds(s, i + 1);
    }
}

fn is_space_char(c: char) -> (r: bool)
    ensures
        r == is_space(c),
{
    ('\u{9}' <= c && c <= '\u{d}') || c == ' ' || c == '\u{85}' || c == '\u{a0}' || c == '\u{1680}'
        || ('\u{2000}' <= c && c <= '\u{200a}') || c == '\u{2028}' || c == '\u{2029}' || c
        == '\u{202f}' || c == '\u{205f}' || c == '\u{3000}'
}

fn scan_exec(s: &str, from: usize, end: usize, space: bool) -> (r: usize)
    requires
        from <= end <= s@.len(),
    ensures
        r as int == scan(s@, from as int, end as int, space),
{
    let mut i = from;
    while i < end
        invariant
            from <= i <= end,
            end <= s@.len(),
            scan(s@, i as int, end as int, space) == scan(s@, from as int, end as int, space),
        decreases end - i,
    {
        if is_space_char(s.get_char(i)) == space {
            return i;
        }
        i = i + 1;
    }
    i
}

fn line_end_exec(s: &str, n: usize) -> (r: usize)
    requires
        n == s@.len(),
    ensures
        r as int == line_end(s@, 0),
{
    let mut i: usize = 0;
    while i < n
        invariant
            i <= n,
            n == s@.len(),
            line_end(s@, i as int) == line_end(s@, 0),
        decreases n - i,
    {
        if s.get_char(i) == '\n' {
            return i;
        }
        i = i + 1;
    }
    i
}

/// The path that a raw request asks for.
pub fn request_path(req: &str) -> (r: String)
    ensures
        r@ == request_path_of(req@),
{
    let n = req.unicode_len();
    let end = line_end_exec(req, n);
    proof {
        lemma_line_end_bounds(req@, 0);
    }
    let a = scan_exec(req, 0, end, false);
    proof {
        lemma_scan_bounds(req@, 0, end as int, false);
    }
    let b = scan_exec(req, a, end, true);
    proof {
        lemma_scan_bounds(req@, a as int, end as int, true);
    }
    let c = scan_exec(req, b, end, false);
    proof {
        lemma_scan_bounds(req@, b as int, end as int, false);
    }
    if c >= end {
        String::from_str("/")
    } else {
        let d = scan_exec(req, c, end, true);
        proof {
            lemma_scan_bounds(req@, c as int, end as int, true);
        }
        String::from_str(req.substring_char(c, d))
    }
}

/// The status line text for `status`.
pub fn status_line(status: u16) -> (r: String)
    ensures
        r@ == status_text(status),
{
    if status == 200 {
        String::from_str("200 OK")
    } else if status == 500 {
        String::from_str("500 Internal Server Error")
    } else if status == 503 {
        String::from_str("503 Service Unavailable")
    } else {
        let mut r = String::new();
        push_decimal(&mut r, status as u128);
        r
    }
}

/// The HTTP/1.0 text that carries `reply`, with its content type, its length
/// in bytes and `Connection: close`.
pub fn http_response(reply: &Reply) -> (r: String)
    ensures
        r@ == response_text(reply.status, reply.body@),
{
    let body = reply.body.as_str();
    let len = body.len();
    let mut r = String::from_str("HTTP/1.0 ");
    let line = status_line(reply.status);
    r.append(line.as_str());
    r.append("\r\nServer: lab-endpoint4\r\nContent-Type: ");
    r.append(reply.content_type());
    r.append("\r\nContent-Length: ");
    push_decimal(&mut r, len as u128);
    r.append("\r\nConnection: close\r\n\r\n");
    r.append(body);
    r
}

} // verus!
