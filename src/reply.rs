use vstd::prelude::*;
use vstd::string::{StrSliceExecFns, StringExecFns};

use crate::text::{contains, dec, push_decimal};

verus! {

/// The four services.
#[derive(Clone, Copy, Debug, PartialEq, Eq, Structural)]
pub enum Service {
    /// Writes one log file per request.
    Logger,
    /// Refuses requests while a lock file exists.
    Gate,
    /// Works under pressure on the open-file table.
    Pressurizer,
    /// Reports the size of a configuration file.
    ConfigReader,
}

/// The failures a service reports to its clients.
#[derive(Clone, Copy, Debug, PartialEq, Eq, Structural)]
pub enum Failure {
    WriteFailed,
    Maintenance,
    TooManyOpenFiles,
    ConfigReadFailed,
}

pub open spec fn service_name(s: Service) -> Seq<char> {
    match s {
        Service::Logger => "endpoint2"@,
        Service::Gate => "endpoint3"@,
        Service::Pressurizer => "endpoint4"@,
        Service::ConfigReader => "endpoint5"@,
    }
}

pub open spec fn failure_token(f: Failure) -> Seq<char> {
    match f {
        Failure::WriteFailed => "WRITE_FAILED"@,
        Failure::Maintenance => "MAINTENANCE"@,
        Failure::TooManyOpenFiles => "EMFILE_TOO_MANY_OPEN_FILES"@,
        Failure::ConfigReadFailed => "CONFIG_READ_FAILED"@,
    }
}

pub open spec fn failure_status(f: Failure) -> u16 {
    match f {
        Failure::WriteFailed => 500,
        Failure::Maintenance => 503,
        Failure::TooManyOpenFiles => 503,
        Failure::ConfigReadFailed => 500,
    }
}

pub open spec fn json_type() -> Seq<char> {
    "application/json"@
}

/// `{"service":"<name>",` : the start of every body.
pub open spec fn body_head(s: Service) -> Seq<char> {
    "{\"service\":\""@ + service_name(s) + "\","@
}

/// `{"service":"<name>","ok":true}`
pub open spec fn ok_body(s: Service) -> Seq<char> {
    body_head(s) + "\"ok\":true}"@
}

/// `{"service":"<name>","ok":false,"error":"<token>"}`
pub open spec fn error_body(s: Service, f: Failure) -> Seq<char> {
    body_head(s) + "\"ok\":false,\"error\":\""@ + failure_token(f) + "\"}"@
}

/// `{"service":"endpoint2","ok":true,"logged":"<path>"}`
pub open spec fn logged_body(path: Seq<char>) -> Seq<char> {
    body_head(Service::Logger) + "\"ok\":true,\"logged\":\""@ + path + "\"}"@
}

/// `{"service":"endpoint5","ok":true,"config_len":<len>}`
pub open spec fn config_body(len: nat) -> Seq<char> {
    body_head(Service::ConfigReader) + "\"ok\":true,\"config_len\":"@ + dec(len) + "}"@
}

/// Whether `url` asks for the health route: `/health`, possibly with a query.
pub open spec fn is_health_url(url: Seq<char>) -> bool {
    url == "/health"@ || ("/health?"@.len() <= url.len() && url.subrange(0, "/health?"@.len() as int)
        == "/health?"@)
}

/// A response: status code and JSON body.
pub struct Reply {
    pub status: u16,
    pub body: String,
}

impl Service {
    pub fn name(&self) -> (r: &'static str)
        ensures
            r@ == service_name(*self),
    {
        match self {
            Service::Logger => "endpoint2",
            Service::Gate => "endpoint3",
            Service::Pressurizer => "endpoint4",
            Service::ConfigReader => "endpoint5",
        }
    }
}

impl Failure {
    pub fn token(&self) -> (r: &'static str)
        ensures
            r@ == failure_token(*self),
    {
        match self {
            Failure::WriteFailed => "WRITE_FAILED",
            Failure::Maintenance => "MAINTENANCE",
            Failure::TooManyOpenFiles => "EMFILE_TOO_MANY_OPEN_FILES",
            Failure::ConfigReadFailed => "CONFIG_READ_FAILED",
        }
    }

    pub fn status(&self) -> (r: u16)
        ensures
            r == failure_status(*self),
    {
        match self {
            Failure::WriteFailed => 500,
            Failure::Maintenance => 503,
            Failure::TooManyOpenFiles => 503,
            Failure::ConfigReadFailed => 500,
        }
    }
}

impl Reply {
    /// The content type of every reply.
    pub fn content_type(&self) -> (r: &'static str)
        ensures
            r@ == json_type(),
    {
        "application/json"
    }
}

fn head(s: Service) -> (r: String)
    ensures
        r@ == body_head(s),
{
    let mut r = String::from_str("{\"service\":\"");
    r.append(s.name());
    r.append("\",");
    r
}

/// 200 with `{"service":"<name>","ok":true}`.
pub fn ok_reply(s: Service) -> (r: Reply)
    ensures
        r.status == 200,
        r.body@ == ok_body(s),
{
    let mut body = head(s);
    body.append("\"ok\":true}");
    Reply { status: 200, body }
}

/// The failure's status with `{"service":"<name>","ok":false,"error":"<token>"}`.
pub fn error_reply(s: Service, f: Failure) -> (r: Reply)
    ensures
        r.status == failure_status(f),
        r.body@ == error_body(s, f),
{
    let mut body = head(s);
    body.append("\"ok\":false,\"error\":\"");
    body.append(f.token());
    body.append("\"}");
    Reply { status: f.status(), body }
}

/// 200 naming the log file that was written.
pub fn logged_reply(path: &str) -> (r: Reply)
    ensures
        r.status == 200,
        r.body@ == logged_body(path@),
{
    let mut body = head(Service::Logger);
    body.append("\"ok\":true,\"logged\":\"");
    body.append(path);
    body.append("\"}");
    Reply { status: 200, body }
}

/// 200 reporting the byte length of the configuration file.
pub fn config_reply(len: usize) -> (r: Reply)
    ensures
        r.status == 200,
        r.body@ == config_body(len as nat),
{
    let mut body = head(Service::ConfigReader);
    body.append("\"ok\":true,\"config_len\":");
    push_decimal(&mut body, len as u128);
    body.append("}");
    Reply { status: 200, body }
}

/// Whether `url` asks for the health route.
pub fn is_health(url: &str) -> (r: bool)
    ensures
        r == is_health_url(url@),
{
    let p = "/health?";
    proof {
        reveal_strlit("/health?");
        reveal_strlit("/health");
    }
    let n = url.unicode_len();
    if n < 7 {
        return false;
    }
    let mut i: usize = 0;
    while i < 7
        invariant
            7 <= n,
            n == url@.len(),
            p@ == "/health?"@,
            p@.len() == 8,
            i <= 7,
            forall|j: int| 0 <= j < i ==> url@[j] == p@[j],
        decreases 7 - i,
    {
        if url.get_char(i) != p.get_char(i) {
            proof {
                reveal_strlit("/health?");
                reveal_strlit("/health");
            }
            assert("/health"@[i as int] == p@[i as int]);
            assert(url@ != "/health"@);
            if n >= 8 {
                assert(url@.subrange(0, 8)[i as int] != p@[i as int]);
            }
            return false;
        }
        i = i + 1;
    }
    if n == 7 {
        assert(url@ == "/health"@);
        true
    } else if url.get_char(7) == '?' {
        assert(url@.subrange(0, 8) == "/health?"@);
        true
    } else {
        assert(url@.subrange(0, 8)[7] != p@[7]);
        false
    }
}

/// A health body says `"ok":true`.
pub proof fn lemma_ok_body_says_ok(s: Service)
    ensures
        contains(ok_body(s), "\"ok\":true"@),
{
    reveal_strlit("\"ok\":true");
    reveal_strlit("\"ok\":true}");
    let b = ok_body(s);
    let i = body_head(s).len() as int;
    assert(b.subrange(i, i + 9) == "\"ok\":true"@);
}

} // verus!
