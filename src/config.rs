use vstd::prelude::*;

use crate::reply::{config_body, config_reply, error_body, error_reply, Failure, Reply, Service};
use crate::text::{contains, dec};

verus! {

/// The answer to a request off the health route: 200 with the byte length of
/// the configuration file where it was read (`Some(len)`), else 500
/// `CONFIG_READ_FAILED`.
pub fn read_reply(read: Option<usize>) -> (r: Reply)
    ensures
        read is Some ==> r.status == 200 && r.body@ == config_body(read->0 as nat),
        read is None ==> r.status == 500 && r.body@ == error_body(
            Service::ConfigReader,
            Failure::ConfigReadFailed,
        ),
{
    match read {
        Some(len) => config_reply(len),
        None => error_reply(Service::ConfigReader, Failure::ConfigReadFailed),
    }
}

/// A file of `len` bytes is reported as `"config_len":<len>`.
pub proof fn lemma_config_len_reported(len: nat)
    ensures
        contains(config_body(len), "\"config_len\":"@ + dec(len) + "}"@),
{
    reveal_strlit("\"ok\":true,\"config_len\":");
    reveal_strlit("\"config_len\":");
    let b = config_body(len);
    let t = "\"config_len\":"@ + dec(len) + "}"@;
    let i: int = crate::reply::body_head(Service::ConfigReader).len() as int + 10;
    assert(b.subrange(i, i + t.len()) == t);
}

} // verus!
