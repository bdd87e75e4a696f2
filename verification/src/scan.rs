//! Scan orchestration: the extension filter for executable modules, the
//! per-file triage that composes metadata lookup results with the recency
//! filter, and the exact shape of the reported lines.

use vstd::prelude::*;
use vstd::string::StrSliceExecFns;
use vstd::string::StringExecFns;

use crate::metadata::DateData;
use crate::metadata::check_date;
use crate::metadata::in_scope_spec;

verus! {

/// `suffix` is the tail of `s`.
pub open spec fn ends_with(s: Seq<char>, suffix: Seq<char>) -> bool {
    suffix.len() <= s.len() && s.skip(s.len() - suffix.len()) == suffix
}

/// Paths with one of the two recognized executable-module suffixes, by
/// case-sensitive exact match, are scanned; every other path is skipped.
pub open spec fn is_module_name(s: Seq<char>) -> bool {
    ends_with(s, ".dll"@) || ends_with(s, ".exe"@)
}

/// Decide whether a path names an executable module, as `is_module_name`
/// states.
pub fn is_module_path(path: &str) -> (r: bool)
    ensures
        r == is_module_name(path@),
{
    proof {
        reveal_strlit(".dll");
        reveal_strlit(".exe");
    }
    let n = path.unicode_len();
    if n < 4 {
        return false;
    }
    let c0 = path.get_char(n - 4);
    let c1 = path.get_char(n - 3);
    let c2 = path.get_char(n - 2);
    let c3 = path.get_char(n - 1);
    let dll = c0 == '.' && c1 == 'd' && c2 == 'l' && c3 == 'l';
    let exe = c0 == '.' && c1 == 'e' && c2 == 'x' && c3 == 'e';
    proof {
        let tail = path@.skip(path@.len() - 4);
        assert(tail.len() == 4);
        assert(tail[0] == c0 && tail[1] == c1 && tail[2] == c2 && tail[3] == c3);
        if dll {
            assert(tail =~= ".dll"@);
        }
        if exe {
            assert(tail =~= ".exe"@);
        }
        if !dll && !exe {
            assert(tail != ".dll"@ && tail != ".exe"@);
        }
    }
    dll || exe
}

/// What the orchestrator does next with one candidate module.
pub enum ScanStep {
    /// The metadata lookup failed; its error is reported and the file is
    /// skipped, with no verification attempted.
    MetadataError { message: String },
    /// The file's creation instant falls outside the recency window; it is
    /// skipped silently, with no verification attempted.
    OutOfScope { creation_secs: u64 },
    /// The file is in scope: verify its signature.
    VerifyFile { date: DateData },
}

/// Decide what to do with one candidate module, from the result of the
/// metadata lookup (the file's creation instant, or the lookup's error),
/// the age threshold in days, and the current instant. Verification is
/// called for exactly when the lookup succeeded and the file is in scope.
pub fn triage_file(meta: Result<u64, String>, days: u64, now_secs: u64) -> (r: ScanStep)
    ensures
        (meta matches Result::Err(m) ==> (r matches ScanStep::MetadataError { message } && message
            == m)),
        (meta matches Result::Ok(c) ==> {
            &&& (in_scope_spec(c, days, now_secs) ==> (r matches ScanStep::VerifyFile { date }
                && date.check && date.creation_secs == c))
            &&& (!in_scope_spec(c, days, now_secs) ==> (r matches ScanStep::OutOfScope {
                creation_secs,
            } && creation_secs == c))
        }),
{
    match meta {
        Result::Ok(creation_secs) => {
            let date = check_date(creation_secs, days, now_secs);
            if date.check {
                ScanStep::VerifyFile { date }
            } else {
                ScanStep::OutOfScope { creation_secs }
            }
        },
        Result::Err(message) => ScanStep::MetadataError { message },
    }
}

/// Instants up to 9999-12-31T23:59:59 UTC render as a timestamp; this is far
/// below the last instant the calendar arithmetic accepts.
pub const TIMESTAMP_SECS_MAX: u64 = 253402300799;

pub uninterp spec fn utc_datetime_string(secs: u64) -> Seq<char>;

/// Relies on chrono's `DateTime::<Utc>::from_timestamp` and `format`: the
/// "%Y-%m-%d %H:%M:%S" rendering of an in-range Unix timestamp, in UTC — a
/// function of the timestamp alone.
#[verifier::external_body]
fn format_utc(secs: u64) -> (r: String)
    requires
        secs <= TIMESTAMP_SECS_MAX,
    ensures
        r@ == utc_datetime_string(secs),
{
    let t = chrono::DateTime::<chrono::Utc>::from_timestamp(secs as i64, 0)
        .expect("timestamp in range");
    t.format("%Y-%m-%d %H:%M:%S").to_string()
}

/// Compose the finding line for an untrusted module: its path, the reason it
/// is not trusted, and its creation instant rendered in UTC.
pub fn format_finding(path: &str, message: &str, creation_secs: u64) -> (r: String)
    requires
        creation_secs <= TIMESTAMP_SECS_MAX,
    ensures
        r@ == path@ + " - "@ + message@ + " - created UTC "@ + utc_datetime_string(creation_secs),
{
    let mut r = String::from_str(path);
    r.append(" - ");
    r.append(message);
    r.append(" - created UTC ");
    let time = format_utc(creation_secs);
    r.append(time.as_str());
    proof {
        assert(r@ =~= path@ + " - "@ + message@ + " - created UTC "@ + utc_datetime_string(
            creation_secs,
        ));
    }
    r
}

/// Compose the error line for a file whose verification mechanism failed, or
/// whose metadata could not be read: its path and the error, which is not a
/// statement about trust.
pub fn format_error(path: &str, message: &str) -> (r: String)
    ensures
        r@ == path@ + " - "@ + message@,
{
    let mut r = String::from_str(path);
    r.append(" - ");
    r.append(message);
    proof {
        assert(r@ =~= path@ + " - "@ + message@);
    }
    r
}

} // verus!
