use vstd::prelude::*;
use crate::json::JsonValue;

verus! {

/// Whether a `Player.GetActivePlayers` reply reports active playback:
/// a non-empty result array. Anything else — an absent result, or one
/// that is not an array — reads as "nothing playing", tolerating minor
/// response-shape drift from the appliance.
pub open spec fn spec_is_active(resp: JsonValue) -> bool {
    match resp.spec_get("result"@) {
        Some(v) => match v.spec_as_arr() {
            Some(players) => players.len() > 0,
            None => false,
        },
        None => false,
    }
}

/// The idle check's decision, computed from the appliance's reply.
pub fn is_active(resp: &JsonValue) -> (b: bool)
    ensures
        b == spec_is_active(*resp),
{
    match resp.get("result") {
        Some(v) => match v.as_arr() {
            Some(players) => players.len() > 0,
            None => false,
        },
        None => false,
    }
}

} // verus!
