use vstd::prelude::*;
use vstd::string::StringExecFns;

use crate::reply::{error_body, error_reply, logged_body, logged_reply, Failure, Reply, Service};
use crate::text::{dec, is_digit, joined, join_path, lemma_dec_digits, lemma_dec_injective, push_decimal};

verus! {

/// `req-<ms>-<counter>.log`
pub open spec fn log_name(ms: nat, counter: nat) -> Seq<char> {
    "req-"@ + dec(ms) + "-"@ + dec(counter) + ".log"@
}

/// `<log_dir>/logs`
pub open spec fn logs_dir_of(log_dir: Seq<char>) -> Seq<char> {
    joined(log_dir, "logs"@)
}

/// `<log_dir>/logs/req-<ms>-<counter>.log`
pub open spec fn log_path(log_dir: Seq<char>, ms: nat, counter: nat) -> Seq<char> {
    joined(logs_dir_of(log_dir), log_name(ms, counter))
}

/// `path=<url> time_ms=<ms>` and a newline.
pub open spec fn log_line_text(url: Seq<char>, ms: nat) -> Seq<char> {
    "path="@ + url + " time_ms="@ + dec(ms) + "\n"@
}

/// The log writer: a log directory and the counter that keeps its file names
/// apart.
pub struct Logger {
    counter: u64,
    log_dir: String,
}

impl Logger {
    /// The next counter value to hand out.
    pub closed spec fn count(&self) -> nat {
        self.counter as nat
    }

    /// The configured parent directory of `logs/`.
    pub closed spec fn dir(&self) -> Seq<char> {
        self.log_dir@
    }

    /// A writer under `log_dir` whose counter starts at 0.
    pub fn new(log_dir: &str) -> (r: Logger)
        ensures
            r.count() == 0,
            r.dir() == log_dir@,
    {
        Logger { counter: 0, log_dir: String::from_str(log_dir) }
    }

    pub fn counter(&self) -> (r: u64)
        ensures
            r as nat == self.count(),
    {
        self.counter
    }

    /// The directory that holds the log files.
    pub fn logs_dir(&self) -> (r: String)
        ensures
            r@ == logs_dir_of(self.dir()),
    {
        join_path(self.log_dir.as_str(), "logs")
    }

    /// Hands out the current counter value and advances the counter by one.
    pub fn next_counter(&mut self) -> (c: u64)
        requires
            old(self).count() < u64::MAX,
        ensures
            c as nat == old(self).count(),
            final(self).count() == old(self).count() + 1,
            final(self).dir() == old(self).dir(),
    {
        let c = self.counter;
        self.counter = c + 1;
        c
    }

    /// Takes a fresh counter value and names the log file for a request
    /// received at `ms`.
    pub fn next_log_path(&mut self, ms: u128) -> (r: String)
        requires
            old(self).count() < u64::MAX,
        ensures
            r@ == log_path(old(self).dir(), ms as nat, old(self).count()),
            final(self).count() == old(self).count() + 1,
            final(self).dir() == old(self).dir(),
    {
        let c = self.next_counter();
        let dir = self.logs_dir();
        let name = log_name_of(ms, c);
        join_path(dir.as_str(), name.as_str())
    }
}

/// The log file name for the instant `ms` and counter value `counter`.
pub fn log_name_of(ms: u128, counter: u64) -> (r: String)
    ensures
        r@ == log_name(ms as nat, counter as nat),
{
    let mut r = String::from_str("req-");
    push_decimal(&mut r, ms);
    r.append("-");
    push_decimal(&mut r, counter as u128);
    r.append(".log");
    r
}

/// The line written into a log file.
pub fn log_line(url: &str, ms: u128) -> (r: String)
    ensures
        r@ == log_line_text(url@, ms as nat),
{
    let mut r = String::from_str("path=");
    r.append(url);
    r.append(" time_ms=");
    push_decimal(&mut r, ms);
    r.append("\n");
    r
}

/// The answer once the log file at `path` is written, or `None` where the
/// directory or the file could not be made.
pub fn write_reply(written: Option<&str>) -> (r: Reply)
    ensures
        written is Some ==> r.status == 200 && r.body@ == logged_body(written->0@),
        written is None ==> r.status == 500 && r.body@ == error_body(Service::Logger, Failure::WriteFailed),
{
    match written {
        Some(path) => logged_reply(path),
        None => error_reply(Service::Logger, Failure::WriteFailed),
    }
}

/// Where `a1 + [sep] + b1 == a2 + [sep] + b2` and neither `b1` nor `b2`
/// holds `sep`, the parts after the separator agree.
proof fn lemma_after_last_sep(a1: Seq<char>, b1: Seq<char>, a2: Seq<char>, b2: Seq<char>, sep: char)
    requires
        a1 + seq![sep] + b1 == a2 + seq![sep] + b2,
        forall|i: int| 0 <= i < b1.len() ==> b1[i] != sep,
        forall|i: int| 0 <= i < b2.len() ==> b2[i] != sep,
    ensures
        b1 == b2,
{
    let x = a1 + seq![sep] + b1;
    let y = a2 + seq![sep] + b2;
    let n = x.len();
    if b1.len() < b2.len() {
        let k = n - b1.len() - 1;
        assert(x[k] == sep);
        assert(y[k] == b2[k - (n - b2.len())]);
    } else if b2.len() < b1.len() {
        let k = n - b2.len() - 1;
        assert(y[k] == sep);
        assert(x[k] == b1[k - (n - b1.len())]);
    } else {
        assert(x.subrange(n - b1.len(), n as int) == b1);
        assert(y.subrange(n - b2.len(), n as int) == b2);
    }
}

/// Joining one directory with two names gives one path only for one name.
pub proof fn lemma_joined_injective(dir: Seq<char>, n1: Seq<char>, n2: Seq<char>)
    requires
        joined(dir, n1) == joined(dir, n2),
    ensures
        n1 == n2,
{
    let p = if dir.len() == 0 || dir.last() == '/' { dir } else { dir + seq!['/'] };
    assert(joined(dir, n1) == p + n1);
    assert(joined(dir, n2) == p + n2);
    assert((p + n1).subrange(p.len() as int, (p + n1).len() as int) == n1);
    assert((p + n2).subrange(p.len() as int, (p + n2).len() as int) == n2);
}

/// Log files named with different counter values have different paths,
/// whatever the instants in their names: each request that the writer
/// handles writes a file of its own.
pub proof fn lemma_log_paths_unique(log_dir: Seq<char>, ms1: nat, c1: nat, ms2: nat, c2: nat)
    requires
        c1 != c2,
    ensures
        log_path(log_dir, ms1, c1) != log_path(log_dir, ms2, c2),
{
    if log_path(log_dir, ms1, c1) == log_path(log_dir, ms2, c2) {
        lemma_joined_injective(logs_dir_of(log_dir), log_name(ms1, c1), log_name(ms2, c2));
        reveal_strlit(".log");
        reveal_strlit("-");
        let x = log_name(ms1, c1);
        let y = log_name(ms2, c2);
        let a1 = "req-"@ + dec(ms1);
        let a2 = "req-"@ + dec(ms2);
        assert(x == a1 + seq!['-'] + dec(c1) + ".log"@);
        assert(y == a2 + seq!['-'] + dec(c2) + ".log"@);
        assert(x.subrange(0, x.len() - 4) == a1 + seq!['-'] + dec(c1));
        assert(y.subrange(0, y.len() - 4) == a2 + seq!['-'] + dec(c2));
        lemma_dec_digits(c1);
        lemma_dec_digits(c2);
        assert forall|i: int| 0 <= i < dec(c1).len() implies dec(c1)[i] != '-' by {
            assert(is_digit(dec(c1)[i]));
        }
        assert forall|i: int| 0 <= i < dec(c2).len() implies dec(c2)[i] != '-' by {
            assert(is_digit(dec(c2)[i]));
        }
        lemma_after_last_sep(a1, dec(c1), a2, dec(c2), '-');
        lemma_dec_injective(c1, c2);
    }
}

} // verus!
