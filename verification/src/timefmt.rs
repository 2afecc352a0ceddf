use vstd::prelude::*;

verus! {

/// The earliest Unix second that chrono represents as a `DateTime<Utc>`:
/// the first second of year -262143 (`NaiveDate::MIN`).
pub const UTC_MIN_SECONDS: i64 = -8334601228800i64;

/// The latest Unix second that chrono represents as a `DateTime<Utc>`:
/// the last second of year 262142 (`NaiveDate::MAX`).
pub const UTC_MAX_SECONDS: i64 = 8210266876799i64;

/// Whether chrono's `DateTime::from_timestamp(secs, nsecs)` gives a date-time: the
/// seconds lie in chrono's date range, and the nanoseconds stay below one second,
/// or below two seconds on the 59th second of a minute (a leap second).
pub open spec fn utc_representable(secs: int, nsecs: int) -> bool {
    &&& UTC_MIN_SECONDS <= secs <= UTC_MAX_SECONDS
    &&& (nsecs < 1_000_000_000 || (nsecs < 2_000_000_000 && secs % 60 == 59))
}

/// The text that chrono's `DateTime::format(fmt)` writes for the date-time
/// `DateTime::from_timestamp(secs, nsecs)`.
pub uninterp spec fn utc_text(secs: i64, nsecs: u32, fmt: Seq<char>) -> Seq<char>;

/// A format character that stands for a plain number of the date or the time.
pub open spec fn numeric_field(c: char) -> bool {
    c == 'Y' || c == 'm' || c == 'd' || c == 'H' || c == 'M' || c == 'S'
}

/// A format string whose every `%` introduces year, month, day, hour, minute or
/// second: chrono writes such a format without error.
pub open spec fn numeric_strftime(fmt: Seq<char>) -> bool {
    forall|i: int|
        #![trigger fmt[i]]
        0 <= i < fmt.len() && fmt[i] == '%' ==> i + 1 < fmt.len() && numeric_field(fmt[i + 1])
}

/// Calls chrono's `DateTime::<Utc>::from_timestamp(secs, nsecs)` and formats the
/// date-time it gives with `DateTime::format(fmt)`. Claimed: a text comes back exactly
/// when the timestamp is in chrono's range (as chrono's source computes it), and it is
/// the text named `utc_text`. The text itself is not stated.
#[verifier::external_body]
fn format_utc_timestamp(secs: i64, nsecs: u32, fmt: &str) -> (r: Option<String>)
    requires
        numeric_strftime(fmt@),
    ensures
        r is Some <==> utc_representable(secs as int, nsecs as int),
        r matches Some(t) ==> t@ == utc_text(secs, nsecs, fmt@),
{
    match chrono::DateTime::from_timestamp(secs, nsecs) {
        Some(t) => Some(t.format(fmt).to_string()),
        None => None,
    }
}

/// Calls chrono's `DateTime::<Utc>::from_timestamp_millis(millis)` and formats the
/// date-time it gives with `DateTime::format(fmt)`. Claimed, from chrono's source: the
/// call is `from_timestamp` of the Euclidean quotient of `millis` by 1000 and of the
/// remainder in nanoseconds; so a text comes back exactly when that timestamp is in
/// range, and it is `utc_text` of it.
#[verifier::external_body]
fn format_utc_timestamp_millis(millis: i64, fmt: &str) -> (r: Option<String>)
    requires
        numeric_strftime(fmt@),
    ensures
        r is Some <==> utc_representable(millis / 1000, (millis % 1000) * 1_000_000),
        r matches Some(t) ==> t@ == utc_text(
            (millis / 1000) as i64,
            ((millis % 1000) * 1_000_000) as u32,
            fmt@,
        ),
{
    match chrono::DateTime::from_timestamp_millis(millis) {
        Some(t) => Some(t.format(fmt).to_string()),
        None => None,
    }
}

/// Calls chrono's `DateTime::<Utc>::from(SystemTime)` on std's `SystemTime::now()` and
/// takes its Unix seconds (`DateTime::timestamp`): the current time, also where the
/// clock reads before 1970. Nothing is claimed of the value, which depends on the
/// clock. Left unsaid: chrono's conversion panics for a clock beyond its range of
/// about 262,000 years either side of year 0, which no argument can rule out.
#[verifier::external_body]
pub(crate) fn now_unix_seconds() -> (r: i64) {
    chrono::DateTime::<chrono::Utc>::from(std::time::SystemTime::now()).timestamp()
}

/// The format in which the job list shows creation times.
pub const CREATED_AT_FORMAT: &'static str = "%Y-%m-%d %H:%M:%S";

pub open spec fn created_at_format() -> Seq<char> {
    "%Y-%m-%d %H:%M:%S"@
}

/// The shown time of a date-time, or of the Unix epoch where chrono cannot represent it.
pub open spec fn text_or_epoch(secs: int, nsecs: int) -> Seq<char> {
    if utc_representable(secs, nsecs) {
        utc_text(secs as i64, nsecs as u32, created_at_format())
    } else {
        utc_text(0, 0, created_at_format())
    }
}

/// The seconds that a running job's creation time stands for: values above 10^11
/// are taken as milliseconds.
pub open spec fn running_timestamp_seconds(timestamp: int) -> int {
    if timestamp > 100_000_000_000 {
        timestamp / 1000
    } else {
        timestamp
    }
}

/// The shown creation time of a running job.
pub open spec fn running_created_text(timestamp: int) -> Seq<char> {
    text_or_epoch(running_timestamp_seconds(timestamp), 0)
}

/// The shown creation time of a succeeded job, whose time is in milliseconds.
pub open spec fn succeeded_created_text(millis: int) -> Seq<char> {
    text_or_epoch(millis / 1000, (millis % 1000) * 1_000_000)
}

/// A running job's time above 10^11 and a succeeded job's time are both read as
/// milliseconds: for whole seconds they show the same date-time.
pub proof fn lemma_millisecond_times_agree(timestamp: int)
    requires
        timestamp > 100_000_000_000,
        timestamp % 1000 == 0,
    ensures
        running_created_text(timestamp) == succeeded_created_text(timestamp),
{
}

/// Times up to 10^11 are read as seconds by the running jobs' rule.
pub proof fn lemma_small_running_times_are_seconds(timestamp: int)
    requires
        timestamp <= 100_000_000_000,
    ensures
        running_created_text(timestamp) == text_or_epoch(timestamp, 0),
{
}

proof fn lemma_created_at_format_is_numeric()
    ensures
        numeric_strftime(CREATED_AT_FORMAT@),
        CREATED_AT_FORMAT@ == created_at_format(),
{
    reveal_strlit("%Y-%m-%d %H:%M:%S");
    let f = CREATED_AT_FORMAT@;
    assert(f.len() == 17);
    assert forall|i: int| #![trigger f[i]] 0 <= i < f.len() && f[i] == '%' implies i + 1 < f.len()
        && numeric_field(f[i + 1]) by {
        assert(i == 0 || i == 3 || i == 6 || i == 9 || i == 12 || i == 15);
    }
}

/// The seconds of a running job's creation time: above 10^11 the time is taken
/// as milliseconds and cut to whole seconds.
pub fn running_timestamp_secs(timestamp: i64) -> (r: i64)
    ensures
        r == running_timestamp_seconds(timestamp as int),
{
    if timestamp > 100_000_000_000 {
        ((timestamp as u64) / 1000) as i64
    } else {
        timestamp
    }
}

/// A formatted creation time, or the epoch's where chrono gave none.
pub fn text_or_epoch_text(formatted: Option<String>) -> (r: String)
    ensures
        r@ == match formatted {
            Some(t) => t@,
            None => utc_text(0, 0, created_at_format()),
        },
{
    match formatted {
        Some(t) => t,
        None => epoch_text(),
    }
}

/// The epoch's text, which chrono always gives.
fn epoch_text() -> (r: String)
    ensures
        r@ == utc_text(0, 0, created_at_format()),
{
    proof {
        lemma_created_at_format_is_numeric();
    }
    match format_utc_timestamp(0, 0, CREATED_AT_FORMAT) {
        Some(t) => t,
        None => {
            proof {
                assert(utc_representable(0, 0));
            }
            String::new()
        },
    }
}

/// The text that the job list shows for a running job created at `timestamp`
/// (seconds, or milliseconds above 10^11); the epoch where chrono has no date-time.
pub fn running_job_created_at(timestamp: i64) -> (r: String)
    ensures
        r@ == running_created_text(timestamp as int),
{
    proof {
        lemma_created_at_format_is_numeric();
    }
    let seconds: i64 = running_timestamp_secs(timestamp);
    text_or_epoch_text(format_utc_timestamp(seconds, 0, CREATED_AT_FORMAT))
}

/// The text that the job list shows for a succeeded job created at `millis`
/// milliseconds; the epoch where chrono has no date-time.
pub fn succeeded_job_created_at(millis: i64) -> (r: String)
    ensures
        r@ == succeeded_created_text(millis as int),
{
    proof {
        lemma_created_at_format_is_numeric();
    }
    text_or_epoch_text(format_utc_timestamp_millis(millis, CREATED_AT_FORMAT))
}

} // verus!
