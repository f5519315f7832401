//! Instants as plain values, and the few calls into chrono that need them.

use vstd::prelude::*;

verus! {

/// Seconds in one day.
pub const SECS_PER_DAY: i128 = 86400;

/// An instant with the UTC offset it was written in.
#[derive(Clone, Copy, Debug, PartialEq, Eq, Structural)]
pub struct Timestamp {
    /// Whole seconds since 1970-01-01T00:00:00Z.
    pub secs: i64,
    /// Seconds to add to UTC to get the local time of the offset.
    pub offset: i32,
}

/// What chrono's `FromStr` for `DateTime<FixedOffset>` (a relaxed RFC 3339)
/// makes of a text, as (seconds since the epoch, offset east of UTC in
/// seconds).
pub uninterp spec fn rfc3339_fields(s: Seq<char>) -> Option<(i64, i32)>;

/// Relies on chrono's `FromStr` for `DateTime<FixedOffset>`, which reads
/// RFC 3339 with relaxed separators and spacing: the parse depends on the
/// text alone.
#[verifier::external_body]
fn parse_from_rfc3339(s: &str) -> (r: Option<(i64, i32)>)
    ensures
        r == rfc3339_fields(s@),
{
    match s.parse::<chrono::DateTime<chrono::FixedOffset>>() {
        Ok(dt) => Some((dt.timestamp(), dt.offset().local_minus_utc())),
        Err(_) => None,
    }
}

/// Relies on `chrono::Utc::now`: the current instant, in seconds since the
/// epoch.
#[verifier::external_body]
pub(crate) fn now_unix_seconds() -> (r: i64) {
    chrono::Utc::now().timestamp()
}

/// Relies on `chrono::DateTime::format` after conversion to the machine's
/// time zone (`chrono::Local`): weekday, date and 24-hour time, as in
/// "Friday, 2017-11-24 09:00". Empty for an instant outside chrono's range.
#[verifier::external_body]
pub(crate) fn local_date_text(secs: i64) -> (r: String) {
    match chrono::DateTime::from_timestamp(secs, 0) {
        Some(dt) => dt.with_timezone(&chrono::Local).format("%A, %F %R").to_string(),
        None => String::new(),
    }
}

/// Relies on `chrono::DateTime::format` after conversion to the machine's
/// time zone (`chrono::Local`): date and time without zone, as in
/// "2017-11-24 09:00:00". `format` shifts by the offset without a range
/// check, so it does not panic at the ends of chrono's range. Empty for an
/// instant outside chrono's range.
#[verifier::external_body]
pub(crate) fn local_naive_text(secs: i64) -> (r: String) {
    match chrono::DateTime::from_timestamp(secs, 0) {
        Some(dt) => dt.with_timezone(&chrono::Local).format("%F %T").to_string(),
        None => String::new(),
    }
}

/// Whole days in `secs`, truncated toward zero.
pub open spec fn whole_days(secs: int) -> int {
    if secs >= 0 {
        secs / 86400
    } else {
        -((-secs) / 86400)
    }
}

impl Timestamp {
    /// Reads an RFC 3339 date and time, such as "2017-11-24T08:00:00+00:00";
    /// a space may stand for the "T", and spaces between fields are allowed.
    pub fn parse_rfc3339(s: &str) -> (r: Option<Timestamp>)
        ensures
            r == (match rfc3339_fields(s@) {
                Some((secs, offset)) => Some(Timestamp { secs, offset }),
                None => None::<Timestamp>,
            }),
    {
        match parse_from_rfc3339(s) {
            Some((secs, offset)) => Some(Timestamp { secs, offset }),
            None => None,
        }
    }

    /// Seconds from `earlier` to `self`; negative when `self` comes first.
    pub fn seconds_since(&self, earlier: &Timestamp) -> (r: i128)
        ensures
            r == self.secs - earlier.secs,
    {
        self.secs as i128 - earlier.secs as i128
    }

    /// Whole days from `earlier` to `self`, truncated toward zero.
    pub fn days_since(&self, earlier: &Timestamp) -> (r: i128)
        ensures
            r == whole_days(self.secs - earlier.secs),
    {
        let d = self.seconds_since(earlier);
        if d >= 0 {
            d / SECS_PER_DAY
        } else {
            -((-d) / SECS_PER_DAY)
        }
    }
}

} // verus!
