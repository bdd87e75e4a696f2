//! Recency filter: decides from a file's creation timestamp whether the file
//! is recent enough to be in scope for signature verification.

use vstd::prelude::*;

verus! {

/// Seconds in one day.
pub const SECS_PER_DAY: u64 = 86400;

/// Recency decision for one candidate file: whether it is in scope, together
/// with the creation timestamp it was decided from (seconds since the Unix
/// epoch, UTC).
pub struct DateData {
    pub check: bool,
    pub creation_secs: u64,
}

/// A file is in scope when no threshold is set (`days == 0`), or when its
/// creation instant lies strictly after `now` minus `days` days.
pub open spec fn in_scope_spec(creation_secs: u64, days: u64, now_secs: u64) -> bool {
    days == 0 || creation_secs as int > now_secs as int - days as int * SECS_PER_DAY as int
}

/// Decide whether a file created at `creation_secs` is in scope under an age
/// threshold of `days` days, judged against the current instant `now_secs`.
/// All instants are seconds since the Unix epoch, UTC.
pub fn check_date(creation_secs: u64, days: u64, now_secs: u64) -> (r: DateData)
    ensures
        r.creation_secs == creation_secs,
        r.check == in_scope_spec(creation_secs, days, now_secs),
{
    if days == 0 {
        return DateData { check: true, creation_secs };
    }
    let in_scope: bool = match days.checked_mul(SECS_PER_DAY) {
        Option::Some(window) => {
            if window > now_secs {
                // The window starts before the epoch; every representable
                // creation instant lies after it.
                true
            } else {
                creation_secs > now_secs - window
            }
        },
        Option::None => true,
    };
    DateData { check: in_scope, creation_secs }
}

/// With a threshold of zero days the filter never excludes a file, whatever
/// its creation timestamp.
pub proof fn lemma_zero_threshold_always_in_scope(creation_secs: u64, now_secs: u64)
    ensures
        in_scope_spec(creation_secs, 0, now_secs),
{
}

/// With a positive threshold a file is in scope exactly when its creation
/// instant lies strictly after the start of the window; a file created
/// exactly at `now - days` days is out of scope.
pub proof fn lemma_recency_boundary(creation_secs: u64, days: u64, now_secs: u64)
    requires
        days > 0,
    ensures
        in_scope_spec(creation_secs, days, now_secs) <==> creation_secs as int > now_secs as int
            - days as int * SECS_PER_DAY as int,
        creation_secs as int == now_secs as int - days as int * SECS_PER_DAY as int
            ==> !in_scope_spec(creation_secs, days, now_secs),
{
}

} // verus!
