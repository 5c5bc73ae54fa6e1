use crate::chrono_calls::{fixed_offset_of, is_known_zone, known_zone, parse_fixed_offset, trim, trim_of};
use crate::error::{ErrorView, TimeParseError};
use crate::text::{contains_char, eq_ignore_ascii_case, equals_ignore_ascii_case, has_char, joined};
use crate::types::{TimeZoneParsed, ZoneView};
use vstd::prelude::*;

verus! {

/// Whether a specifier, not being `UTC` or a numeric offset, fails the
/// `Region/City` shape: it has no `/`, or starts or ends with one.
pub open spec fn bad_iana_shape(t: Seq<char>) -> bool {
    !has_char(t, '/') || t[0] == '/' || t.last() == '/'
}

/// Whether a specifier asks for a numeric offset: it starts with `+` or `-`.
pub open spec fn signed_offset_form(t: Seq<char>) -> bool {
    t.len() > 0 && (t[0] == '+' || t[0] == '-')
}

/// How an already trimmed zone specifier resolves.
pub open spec fn resolve_spec(t: Seq<char>) -> Result<ZoneView, ErrorView> {
    if eq_ignore_ascii_case(t, "UTC"@) {
        Ok(ZoneView::FixedOffset(0))
    } else if signed_offset_form(t) {
        match fixed_offset_of(t) {
            Some(o) => Ok(ZoneView::FixedOffset(o)),
            None => Err(ErrorView::InvalidInput("Invalid fixed offset format: '"@ + t + "'"@)),
        }
    } else if bad_iana_shape(t) {
        Err(ErrorView::InvalidInput("Invalid IANA timezone format: '"@ + t + "'"@))
    } else if known_zone(t) {
        Ok(ZoneView::Iana(t))
    } else {
        Err(ErrorView::InvalidInput("Unknown IANA timezone '"@ + t + "'"@))
    }
}

/// The view of a zone resolution result.
pub open spec fn zone_result_view(r: Result<TimeZoneParsed, TimeParseError>) -> Result<ZoneView, ErrorView> {
    match r {
        Ok(z) => Ok(z@),
        Err(e) => Err(e@),
    }
}

/// Resolves a zone specifier that carries no surrounding white space:
/// `UTC` in any case is a zero offset; `+`/`-` starts a numeric offset
/// (`±HH:MM`, `±HHMM`); anything else must be a known `Region/City` name.
pub fn parse_timezone_trimmed(t: &str) -> (r: Result<TimeZoneParsed, TimeParseError>)
    ensures
        zone_result_view(r) == resolve_spec(t@),
{
    if equals_ignore_ascii_case(t, "UTC") {
        return Ok(TimeZoneParsed::FixedOffset(0));
    }
    let n = t.unicode_len();
    if n > 0 {
        let first = t.get_char(0);
        if first == '+' || first == '-' {
            return match parse_fixed_offset(t) {
                Some(o) => Ok(TimeZoneParsed::FixedOffset(o)),
                None => Err(TimeParseError::InvalidInput(joined("Invalid fixed offset format: '", t, "'"))),
            };
        }
    }
    if !contains_char(t, '/') || t.get_char(0) == '/' || t.get_char(n - 1) == '/' {
        return Err(TimeParseError::InvalidInput(joined("Invalid IANA timezone format: '", t, "'")));
    }
    if is_known_zone(t) {
        Ok(TimeZoneParsed::Iana(String::from_str(t)))
    } else {
        Err(TimeParseError::InvalidInput(joined("Unknown IANA timezone '", t, "'")))
    }
}

/// Resolves a zone specifier after trimming surrounding white space; see
/// [`parse_timezone_trimmed`].
pub fn parse_timezone_str(tz_str: &str) -> (r: Result<TimeZoneParsed, TimeParseError>)
    ensures
        zone_result_view(r) == resolve_spec(trim_of(tz_str@)),
{
    parse_timezone_trimmed(trim(tz_str))
}

} // verus!
