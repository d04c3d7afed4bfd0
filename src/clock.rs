use vstd::prelude::*;
use vstd::string::StringExecFns;

use crate::text::{dec, push_decimal};

verus! {

/// Relies on `SystemTime::now` measured from `UNIX_EPOCH`: whole milliseconds
/// since the epoch, or `None` where the clock stands before it. Nothing is
/// known of the value itself.
#[verifier::external_body]
fn epoch_millis() -> (r: Option<u128>) {
    match std::time::SystemTime::now().duration_since(std::time::UNIX_EPOCH) {
        Ok(d) => Some(d.as_millis()),
        Err(_) => None,
    }
}

/// Milliseconds since the epoch by the wall clock (0 where the clock stands
/// before the epoch).
pub fn now_ms() -> (r: u128) {
    match epoch_millis() {
        Some(ms) => ms,
        None => 0,
    }
}

/// `<ms>ms_since_epoch`
pub open spec fn stamp_text(ms: nat) -> Seq<char> {
    dec(ms) + "ms_since_epoch"@
}

/// The timestamp text for the instant `ms`.
pub fn stamp(ms: u128) -> (r: String)
    ensures
        r@ == stamp_text(ms as nat),
{
    let mut r = String::new();
    push_decimal(&mut r, ms);
    r.append("ms_since_epoch");
    r
}

/// The timestamp text for the present instant.
pub fn now_rfc3339() -> (r: String)
    ensures
        exists|ms: nat| r@ == stamp_text(ms),
{
    stamp(now_ms())
}

} // verus!
