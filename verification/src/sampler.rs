//! The battery sampler's decision: format a reading as a percentage
//! string, and skip the cycle entirely when no reading is available.

use vstd::prelude::*;
use vstd::string::StringExecFns;
use crate::textfmt::{dec_string, spec_dec};

verus! {

/// An integer percentage followed by `%`, e.g. `"87%"`.
pub open spec fn spec_battery_string(percent: int) -> Seq<char> {
    spec_dec(percent) + seq!['%']
}

/// Formats a battery percentage, e.g. `87` becomes `"87%"`.
pub fn format_battery(percent: u32) -> (r: String)
    ensures
        r@ == spec_battery_string(percent as int),
{
    proof {
        reveal_strlit("%");
    }
    let mut s = dec_string(percent);
    s.append("%");
    proof {
        assert(s@ =~= spec_battery_string(percent as int));
    }
    s
}

/// One sampler cycle: a reading is published formatted, a missing
/// battery source publishes nothing and the cycle is silently skipped.
pub fn sampler_cycle(reading: Option<u32>) -> (r: Option<String>)
    ensures
        (match reading {
            Some(p) => (match r {
                Some(s) => s@ == spec_battery_string(p as int),
                None => false,
            }),
            None => r is None,
        }),
{
    match reading {
        Some(p) => Some(format_battery(p)),
        None => None,
    }
}

} // verus!
