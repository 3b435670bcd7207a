use vstd::prelude::*;
use vstd::string::StringExecFns;

use chrono::{Datelike, Timelike};

use crate::text::{push_two_digits, spec_two_digits};

verus! {

/// A calendar timestamp with a fixed UTC offset, the model of an HTTP
/// `Last-Modified` validator.
///
/// The fields carry what an RFC 2822 date-time states; well-formedness is the
/// ranges below, and a zero `offset_seconds` means the timestamp is UTC.
#[derive(Clone, Copy, PartialEq, Eq, Structural, Debug)]
pub struct Timestamp {
    pub year: i32,
    /// 1 = January .. 12 = December.
    pub month: u8,
    /// Day of the month, 1 to 31.
    pub day: u8,
    /// 0 to 23.
    pub hour: u8,
    /// 0 to 59.
    pub minute: u8,
    /// 0 to 59.
    pub second: u8,
    /// Days since Sunday: 0 = Sunday .. 6 = Saturday.
    pub weekday: u8,
    /// Seconds east of UTC.
    pub offset_seconds: i32,
}

impl Timestamp {
    /// The calendar fields lie in their ranges.
    pub open spec fn wf(self) -> bool {
        &&& 1 <= self.month <= 12
        &&& 1 <= self.day <= 31
        &&& self.hour <= 23
        &&& self.minute <= 59
        &&& self.second <= 59
        &&& self.weekday <= 6
    }

    /// The timestamp's offset is UTC.
    pub open spec fn is_utc(self) -> bool {
        self.offset_seconds == 0
    }
}

/// What `spec_rfc2822_parse` yields of a string: the outcome of chrono's
/// RFC 2822 parser, which depends on the string alone.
pub uninterp spec fn spec_rfc2822_parse(s: Seq<char>) -> Option<Timestamp>;

/// Relies on chrono's `DateTime::parse_from_rfc2822` and its field accessors
/// (`Datelike`, `Timelike`, `Weekday::num_days_from_sunday`,
/// `FixedOffset::local_minus_utc`): parses an RFC 2822 date-time, whose
/// calendar fields chrono documents to lie in the `wf` ranges; `None` on any
/// parse failure.
#[verifier::external_body]
pub(crate) fn parse_rfc2822(s: &str) -> (r: Option<Timestamp>)
    ensures
        r == spec_rfc2822_parse(s@),
        r matches Some(t) ==> t.wf(),
{
    chrono::DateTime::parse_from_rfc2822(s).ok().map(|dt| Timestamp {
        year: dt.year(),
        month: dt.month() as u8,
        day: dt.day() as u8,
        hour: dt.hour() as u8,
        minute: dt.minute() as u8,
        second: dt.second() as u8,
        weekday: dt.weekday().num_days_from_sunday() as u8,
        offset_seconds: dt.offset().local_minus_utc(),
    })
}

/// The three-letter English name of a weekday (days since Sunday).
pub open spec fn spec_weekday_name(w: u8) -> Seq<char> {
    if w == 0 {
        "Sun"@
    } else if w == 1 {
        "Mon"@
    } else if w == 2 {
        "Tue"@
    } else if w == 3 {
        "Wed"@
    } else if w == 4 {
        "Thu"@
    } else if w == 5 {
        "Fri"@
    } else {
        "Sat"@
    }
}

/// The three-letter English name of a month (1 = January).
pub open spec fn spec_month_name(m: u8) -> Seq<char> {
    if m == 1 {
        "Jan"@
    } else if m == 2 {
        "Feb"@
    } else if m == 3 {
        "Mar"@
    } else if m == 4 {
        "Apr"@
    } else if m == 5 {
        "May"@
    } else if m == 6 {
        "Jun"@
    } else if m == 7 {
        "Jul"@
    } else if m == 8 {
        "Aug"@
    } else if m == 9 {
        "Sep"@
    } else if m == 10 {
        "Oct"@
    } else if m == 11 {
        "Nov"@
    } else {
        "Dec"@
    }
}

/// The HTTP date rendering of a UTC timestamp, as a conditional request
/// header carries it: `Sun, 06 Nov 1994 08:49:37 GMT`.
pub open spec fn spec_http_date(t: Timestamp) -> Seq<char> {
    spec_weekday_name(t.weekday) + ", "@ + spec_two_digits(t.day) + " "@ + spec_month_name(
        t.month,
    ) + " "@ + spec_two_digits((t.year / 100) as u8) + spec_two_digits((t.year % 100) as u8)
        + " "@ + spec_two_digits(t.hour) + ":"@ + spec_two_digits(t.minute) + ":"@
        + spec_two_digits(t.second) + " GMT"@
}

/// Render a UTC timestamp as an HTTP date for an `If-Modified-Since` header.
///
/// Only UTC timestamps with four-digit years can be rendered in this format;
/// a cached timestamp outside that range is an invariant violation on the
/// caller's side, not a runtime condition.
pub fn http_date(t: &Timestamp) -> (r: String)
    requires
        t.wf(),
        t.is_utc(),
        0 <= t.year <= 9999,
    ensures
        r@ == spec_http_date(*t),
{
    let mut r = String::new();
    if t.weekday == 0 {
        r.append("Sun");
    } else if t.weekday == 1 {
        r.append("Mon");
    } else if t.weekday == 2 {
        r.append("Tue");
    } else if t.weekday == 3 {
        r.append("Wed");
    } else if t.weekday == 4 {
        r.append("Thu");
    } else if t.weekday == 5 {
        r.append("Fri");
    } else {
        r.append("Sat");
    }
    r.append(", ");
    push_two_digits(&mut r, t.day);
    r.append(" ");
    if t.month == 1 {
        r.append("Jan");
    } else if t.month == 2 {
        r.append("Feb");
    } else if t.month == 3 {
        r.append("Mar");
    } else if t.month == 4 {
        r.append("Apr");
    } else if t.month == 5 {
        r.append("May");
    } else if t.month == 6 {
        r.append("Jun");
    } else if t.month == 7 {
        r.append("Jul");
    } else if t.month == 8 {
        r.append("Aug");
    } else if t.month == 9 {
        r.append("Sep");
    } else if t.month == 10 {
        r.append("Oct");
    } else if t.month == 11 {
        r.append("Nov");
    } else {
        r.append("Dec");
    }
    r.append(" ");
    push_two_digits(&mut r, (t.year / 100) as u8);
    push_two_digits(&mut r, (t.year % 100) as u8);
    r.append(" ");
    push_two_digits(&mut r, t.hour);
    r.append(":");
    push_two_digits(&mut r, t.minute);
    r.append(":");
    push_two_digits(&mut r, t.second);
    r.append(" GMT");
    proof {
        assert(r@ =~= spec_http_date(*t));
    }
    r
}

} // verus!
