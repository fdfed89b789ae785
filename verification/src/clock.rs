//! The current time, read without a path to a panic: seconds since the Unix
//! epoch from the system clock, rendered by chrono in UTC. (chrono's
//! conversion to the local zone unwraps an offset read from the system's
//! time-zone data, and its `now` expects the clock to read after 1970, so
//! neither is used.)

use vstd::prelude::*;

verus! {

/// The shape of chrono's `%Y-%m-%d` rendering: a year of at least four
/// digits (signed outside 0-9999), then `-MM-DD`; so at least ten
/// characters, each a digit, `-` or `+`, with hyphens before the month and
/// the day.
pub open spec fn is_date_text(s: Seq<char>) -> bool {
    &&& s.len() >= 10
    &&& s[s.len() - 6] == '-'
    &&& s[s.len() - 3] == '-'
    &&& forall|i: int| 0 <= i < s.len() ==> ('0' <= #[trigger] s[i] <= '9' || s[i] == '-' || s[i] == '+')
}

/// The shape of chrono's `to_rfc3339` of a UTC time: at least
/// `YYYY-MM-DDTHH:MM:SS` and the offset `+00:00` at the end.
pub open spec fn is_rfc3339_utc(s: Seq<char>) -> bool {
    s.len() >= 25 && s.skip(s.len() - 6) == "+00:00"@
}

/// Name for the `%Y-%m-%d` text chrono renders for the UTC day that holds the
/// instant `secs` seconds after the Unix epoch.
pub uninterp spec fn utc_date_text(secs: u64) -> Seq<char>;

/// Name for the text chrono's `to_rfc3339` renders for the UTC instant
/// `secs` seconds and `nanos` nanoseconds after the Unix epoch.
pub uninterp spec fn utc_rfc3339_text(secs: u64, nanos: u32) -> Seq<char>;

/// Calls `SystemTime::elapsed` on `UNIX_EPOCH`: the whole seconds and the
/// nanoseconds since the epoch, or none when the clock reads earlier. It
/// reads the clock, so nothing is promised of the value.
#[verifier::external_body]
fn since_epoch() -> (r: Option<(u64, u32)>) {
    std::time::UNIX_EPOCH.elapsed().ok().map(|d| (d.as_secs(), d.subsec_nanos()))
}

/// The last second of the year 9999, well inside the dates chrono renders
/// (`NaiveDate` reaches the year 262142).
pub const DATE_LIMIT_SECS: u64 = 253402300799;

/// Calls chrono's `DateTime::from_timestamp(secs, 0)` and formats the UTC
/// result with `%Y-%m-%d`: none where `secs` does not fit an `i64` or chrono
/// has no such date, which `from_timestamp` documents as out of range and
/// which cannot happen up to `DATE_LIMIT_SECS`; otherwise the named text,
/// which has the date shape.
#[verifier::external_body]
fn utc_date_of(secs: u64) -> (r: Option<String>)
    ensures
        r matches Some(s) ==> s@ == utc_date_text(secs) && is_date_text(s@),
        secs <= DATE_LIMIT_SECS ==> r is Some,
{
    let secs = i64::try_from(secs).ok()?;
    chrono::DateTime::from_timestamp(secs, 0).map(|d| d.format("%Y-%m-%d").to_string())
}

/// Calls chrono's `DateTime::from_timestamp(secs, nanos)` and renders the
/// UTC result with `to_rfc3339`: none where chrono has no such instant;
/// otherwise the named text, which has the RFC 3339 shape with offset
/// `+00:00`.
#[verifier::external_body]
fn utc_rfc3339_of(secs: u64, nanos: u32) -> (r: Option<String>)
    ensures
        r matches Some(s) ==> s@ == utc_rfc3339_text(secs, nanos) && is_rfc3339_utc(s@),
{
    let secs = i64::try_from(secs).ok()?;
    chrono::DateTime::from_timestamp(secs, nanos).map(|d| d.to_rfc3339())
}

/// The date used when the clock cannot be read as a date: the epoch's.
pub const EPOCH_DATE: &'static str = "1970-01-01";

/// The time used when the clock cannot be read: the epoch.
pub const EPOCH_RFC3339: &'static str = "1970-01-01T00:00:00+00:00";

/// Today's UTC date as `YYYY-MM-DD`: chrono's rendering of the clock
/// reading taken at the call. A clock before 1970 is read as the epoch and
/// one past the year 9999 as the end of that year.
pub fn today_text() -> (s: String)
    ensures
        is_date_text(s@),
        s@ == EPOCH_DATE@ || exists|secs: u64| s@ == utc_date_text(secs),
        exists|secs: u64| secs <= DATE_LIMIT_SECS && s@ == utc_date_text(secs),
{
    let secs: u64 = match since_epoch() {
        Some((secs, _nanos)) => if secs > DATE_LIMIT_SECS {
            DATE_LIMIT_SECS
        } else {
            secs
        },
        None => 0,
    };
    match utc_date_of(secs) {
        Some(d) => d,
        None => {
            assert(false);
            String::from_str(EPOCH_DATE)
        },
    }
}

/// The current UTC time in RFC 3339; the epoch where the clock reads before
/// 1970 or beyond what chrono can render.
pub fn now_rfc3339() -> (s: String)
    ensures
        is_rfc3339_utc(s@),
        s@ == EPOCH_RFC3339@ || exists|secs: u64, nanos: u32| s@ == utc_rfc3339_text(secs, nanos),
{
    match since_epoch() {
        Some((secs, nanos)) => match utc_rfc3339_of(secs, nanos) {
            Some(t) => return t,
            None => {},
        },
        None => {},
    }
    proof {
        reveal_strlit("1970-01-01T00:00:00+00:00");
        reveal_strlit("+00:00");
        let e = EPOCH_RFC3339@;
        assert(e.len() == 25);
        assert(e.skip(19) =~= "+00:00"@);
    }
    String::from_str(EPOCH_RFC3339)
}

} // verus!
