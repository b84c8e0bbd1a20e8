//! Human-readable durations.

use vstd::prelude::*;
use crate::text::{decimal, decimal_text};

verus! {

/// `Ns` under a minute, `Mm Ss` under an hour, `Hh Mm Ss` from an hour on.
pub open spec fn duration_text(total: nat) -> Seq<char> {
    if total < 60 {
        decimal_text(total) + "s"@
    } else if total / 3600 > 0 {
        decimal_text(total / 3600) + "h "@ + decimal_text((total % 3600) / 60) + "m "@
            + decimal_text(total % 60) + "s"@
    } else {
        decimal_text(total / 60) + "m "@ + decimal_text(total % 60) + "s"@
    }
}

/// Formats a number of seconds for display.
pub fn format_duration(total_seconds: u64) -> (r: String)
    ensures
        r@ == duration_text(total_seconds as nat),
{
    if total_seconds < 60 {
        let mut r = decimal(total_seconds);
        r.append("s");
        return r;
    }
    let hours = total_seconds / 3600;
    let minutes = (total_seconds % 3600) / 60;
    let seconds = total_seconds % 60;
    let mut r = String::new();
    if hours > 0 {
        let h = decimal(hours);
        r.append(h.as_str());
        r.append("h ");
    }
    let m = decimal(minutes);
    r.append(m.as_str());
    r.append("m ");
    let s = decimal(seconds);
    r.append(s.as_str());
    r.append("s");
    if hours == 0 {
        assert(minutes == total_seconds / 60);
    }
    assert(r@ =~= duration_text(total_seconds as nat));
    r
}

} // verus!
