use chrono::TimeZone;
use vstd::prelude::*;

verus! {

/// What `str::trim` leaves of a string.
pub uninterp spec fn trim_of(s: Seq<char>) -> Seq<char>;

/// The instant (epoch seconds, nanoseconds) that strict RFC 3339 parsing reads.
pub uninterp spec fn rfc3339_of(s: Seq<char>) -> Option<(i64, u32)>;

/// The instant (epoch seconds, nanoseconds) that strict RFC 2822 parsing reads.
pub uninterp spec fn rfc2822_of(s: Seq<char>) -> Option<(i64, u32)>;

/// The instant that a pattern with an offset reads from a string.
pub uninterp spec fn zoned_parse_of(s: Seq<char>, fmt: Seq<char>) -> Option<(i64, u32)>;

/// The wall-clock reading (local seconds, nanoseconds) that a pattern reads.
pub uninterp spec fn naive_parse_of(s: Seq<char>, fmt: Seq<char>) -> Option<(i64, u32)>;

/// The local seconds of midnight of the calendar date that a pattern reads.
pub uninterp spec fn date_parse_of(s: Seq<char>, fmt: Seq<char>) -> Option<i64>;

/// The offset east of UTC, in seconds, of a textual fixed offset.
pub uninterp spec fn fixed_offset_of(s: Seq<char>) -> Option<i32>;

/// Whether a name is an identifier of the IANA zone database.
pub uninterp spec fn known_zone(s: Seq<char>) -> bool;

/// The instants (epoch seconds, nanoseconds) at which a zone's clocks show
/// a given wall-clock reading, in the order the zone rules give them.
pub uninterp spec fn zone_candidates_of(zone: Seq<char>, local_secs: i64, local_nanos: u32) -> Seq<(i64, u32)>;

/// The text of a wall-clock reading, as `YYYY-MM-DD HH:MM:SS[.fff]`.
pub uninterp spec fn naive_text_of(secs: i64, nanos: u32) -> Seq<char>;

/// Relies on `str::trim`: strips leading and trailing white space.
#[verifier::external_body]
pub(crate) fn trim(s: &str) -> (r: &str)
    ensures
        r@ == trim_of(s@),
{
    s.trim()
}

/// Relies on `chrono::DateTime::parse_from_rfc3339`, read as a UTC timestamp.
#[verifier::external_body]
pub(crate) fn parse_rfc3339(s: &str) -> (r: Option<(i64, u32)>)
    ensures
        r == rfc3339_of(s@),
{
    chrono::DateTime::parse_from_rfc3339(s).ok().map(|d| (d.timestamp(), d.timestamp_subsec_nanos()))
}

/// Relies on `chrono::DateTime::parse_from_rfc2822`, read as a UTC timestamp.
#[verifier::external_body]
pub(crate) fn parse_rfc2822(s: &str) -> (r: Option<(i64, u32)>)
    ensures
        r == rfc2822_of(s@),
{
    chrono::DateTime::parse_from_rfc2822(s).ok().map(|d| (d.timestamp(), d.timestamp_subsec_nanos()))
}

/// Relies on `chrono::DateTime::parse_from_str`, read as a UTC timestamp.
#[verifier::external_body]
pub(crate) fn parse_zoned(s: &str, fmt: &str) -> (r: Option<(i64, u32)>)
    ensures
        r == zoned_parse_of(s@, fmt@),
{
    chrono::DateTime::parse_from_str(s, fmt).ok().map(|d| (d.timestamp(), d.timestamp_subsec_nanos()))
}

/// Relies on `chrono::NaiveDateTime::parse_from_str`, read as local seconds.
#[verifier::external_body]
pub(crate) fn parse_naive(s: &str, fmt: &str) -> (r: Option<(i64, u32)>)
    ensures
        r == naive_parse_of(s@, fmt@),
{
    chrono::NaiveDateTime::parse_from_str(s, fmt).ok().map(|n| {
        let u = n.and_utc();
        (u.timestamp(), u.timestamp_subsec_nanos())
    })
}

/// Relies on `chrono::NaiveDate::parse_from_str`, read as the local seconds
/// of that day's midnight.
#[verifier::external_body]
pub(crate) fn parse_date(s: &str, fmt: &str) -> (r: Option<i64>)
    ensures
        r == date_parse_of(s@, fmt@),
{
    chrono::NaiveDate::parse_from_str(s, fmt).ok().map(|d| d.and_time(chrono::NaiveTime::MIN).and_utc().timestamp())
}

/// Relies on `chrono::FixedOffset`'s `FromStr`; a `FixedOffset` always lies
/// strictly within one day of UTC (`FixedOffset::east_opt`).
#[verifier::external_body]
pub(crate) fn parse_fixed_offset(s: &str) -> (r: Option<i32>)
    ensures
        r == fixed_offset_of(s@),
        r matches Some(o) ==> -86_400 < o < 86_400,
{
    s.parse::<chrono::FixedOffset>().ok().map(|o| o.local_minus_utc())
}

/// Relies on `chrono_tz::Tz`'s `FromStr`: an exact lookup in the zone table.
#[verifier::external_body]
pub(crate) fn is_known_zone(s: &str) -> (r: bool)
    ensures
        r == known_zone(s@),
{
    s.parse::<chrono_tz::Tz>().is_ok()
}

/// Relies on `chrono::TimeZone::from_local_datetime` for a `chrono_tz::Tz`:
/// no, one, or two (earlier rule first) instants for a wall-clock reading.
#[verifier::external_body]
pub(crate) fn zone_candidates(zone: &str, local_secs: i64, local_nanos: u32) -> (r: Vec<(i64, u32)>)
    ensures
        r@ == zone_candidates_of(zone@, local_secs, local_nanos),
        r@.len() <= 2,
{
    match (zone.parse::<chrono_tz::Tz>(), chrono::DateTime::from_timestamp(local_secs, local_nanos)) {
        (Ok(tz), Some(d)) => match tz.from_local_datetime(&d.naive_utc()) {
            chrono::LocalResult::Single(a) => vec![(a.timestamp(), a.timestamp_subsec_nanos())],
            chrono::LocalResult::Ambiguous(a, b) => vec![(a.timestamp(), a.timestamp_subsec_nanos()), (b.timestamp(), b.timestamp_subsec_nanos())],
            chrono::LocalResult::None => vec![],
        },
        _ => vec![],
    }
}

/// Relies on `chrono::NaiveDateTime`'s `Display`.
#[verifier::external_body]
pub(crate) fn naive_text(secs: i64, nanos: u32) -> (r: String)
    ensures
        r@ == naive_text_of(secs, nanos),
{
    chrono::DateTime::from_timestamp(secs, nanos).map(|d| d.naive_utc().to_string()).unwrap_or_default()
}

} // verus!
