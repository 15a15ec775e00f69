//! What the polling endpoint answers.

use crate::clock::Timestamp;
use crate::gateway::StateGateway;
use vstd::prelude::*;

verus! {

/// The body that tells a relay controller whether to heat at `now`: the word
/// `true` or the word `false`, in lower case and with nothing around it.
pub open spec fn heating_is_on_body(active: bool) -> Seq<char> {
    if active {
        "true"@
    } else {
        "false"@
    }
}

/// Answers the poll: reads the record in one piece and derives the decision
/// for `now` from it.
pub fn heating_is_on(gateway: &StateGateway, now: Timestamp) -> (body: &'static str)
    ensures
        body@ == heating_is_on_body(gateway@.heating_is_on(now)),
{
    let record = gateway.snapshot();
    if record.heating_is_on(now) {
        "true"
    } else {
        "false"
    }
}

} // verus!
