use vstd::prelude::*;
use vstd::string::StringExecFns;

use crate::reply::{error_body, error_reply, ok_body, ok_reply, Failure, Reply, Service};
use crate::text::contains;

verus! {

/// `<stamp> LOCK PRESENT at <lock> -> refusing request to <url>`
pub open spec fn maintenance_note_text(stamp: Seq<char>, lock: Seq<char>, url: Seq<char>) -> Seq<char> {
    stamp + " LOCK PRESENT at "@ + lock + " -> refusing request to "@ + url
}

/// The answer to a request off the health route: 503 `MAINTENANCE` where the
/// lock file could be opened, else 200.
pub fn gate_reply(lock_opened: bool) -> (r: Reply)
    ensures
        lock_opened ==> r.status == 503 && r.body@ == error_body(Service::Gate, Failure::Maintenance),
        !lock_opened ==> r.status == 200 && r.body@ == ok_body(Service::Gate),
{
    if lock_opened {
        error_reply(Service::Gate, Failure::Maintenance)
    } else {
        ok_reply(Service::Gate)
    }
}

/// The diagnostic line written when a request is refused.
pub fn maintenance_note(stamp: &str, lock: &str, url: &str) -> (r: String)
    ensures
        r@ == maintenance_note_text(stamp@, lock@, url@),
{
    let mut r = String::from_str(stamp);
    r.append(" LOCK PRESENT at ");
    r.append(lock);
    r.append(" -> refusing request to ");
    r.append(url);
    r
}

/// While the lock file exists every refusal carries status 503 and a body
/// that names `MAINTENANCE`; once it is gone the answer is 200 with
/// `"ok":true`.
pub proof fn lemma_gate_answers()
    ensures
        contains(error_body(Service::Gate, Failure::Maintenance), "\"error\":\"MAINTENANCE\""@),
        contains(ok_body(Service::Gate), "\"ok\":true"@),
{
    crate::reply::lemma_ok_body_says_ok(Service::Gate);
    reveal_strlit("\"error\":\"MAINTENANCE\"");
    reveal_strlit("\"ok\":false,\"error\":\"");
    reveal_strlit("MAINTENANCE");
    reveal_strlit("\"}");
    let b = error_body(Service::Gate, Failure::Maintenance);
    let i: int = crate::reply::body_head(Service::Gate).len() as int + 11;
    assert(b.subrange(i, i + 21) == "\"error\":\"MAINTENANCE\""@);
}

} // verus!
