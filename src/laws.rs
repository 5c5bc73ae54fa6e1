use crate::chrono_calls::{known_zone, rfc3339_of, zone_candidates_of};
use crate::datetime::{
    candidate_formats, digits_value, epoch_class, epoch_in_range, first_match, flexible_spec, instant_of,
    normalize_spec, project_spec,
};
use crate::error::ErrorView;
use crate::text::{all_digits, eq_ignore_ascii_case};
use crate::tz::{bad_iana_shape, resolve_spec, signed_offset_form};
use crate::types::{EpochKind, LocalDateTime, ParsedDatetime, ZoneView};
use vstd::prelude::*;

verus! {

/// An input that strict RFC 3339 parsing accepts normalizes to exactly the
/// instant that parsing gives (an epoch candidate, all digits, is decided
/// before and is no RFC 3339 text).
pub proof fn lemma_rfc3339_passes_through(t: Seq<char>, fallback_tz: Seq<char>, prefer_eu: bool, customs: Seq<Seq<char>>)
    requires
        epoch_class(t) is None,
        rfc3339_of(t) is Some,
    ensures
        normalize_spec(t, fallback_tz, prefer_eu, customs) == Ok::<_, ErrorView>(instant_of(rfc3339_of(t)->0)),
{
}

/// A purely numeric string is an epoch of seconds, milliseconds, microseconds
/// or nanoseconds exactly when it has 10, 13, 16 or 19 digits; at any other
/// length it is never taken for an epoch.
pub proof fn lemma_epoch_classification(t: Seq<char>)
    requires
        all_digits(t),
    ensures
        epoch_class(t) == Some(EpochKind::Seconds) <==> t.len() == 10,
        epoch_class(t) == Some(EpochKind::Milliseconds) <==> t.len() == 13,
        epoch_class(t) == Some(EpochKind::Microseconds) <==> t.len() == 16,
        epoch_class(t) == Some(EpochKind::Nanoseconds) <==> t.len() == 19,
        epoch_class(t) is None <==> !(t.len() == 10 || t.len() == 13 || t.len() == 16 || t.len() == 19),
{
}

/// An epoch candidate whose value lies outside the plausible window is
/// rejected as `InvalidInput`, whatever the other arguments.
pub proof fn lemma_implausible_epoch_rejected(t: Seq<char>, fallback_tz: Seq<char>, prefer_eu: bool, customs: Seq<Seq<char>>)
    requires
        epoch_class(t) is Some,
        !epoch_in_range(digits_value(t), epoch_class(t)->0),
    ensures
        normalize_spec(t, fallback_tz, prefer_eu, customs) == Err::<crate::types::UtcInstant, _>(
            ErrorView::InvalidInput("Epoch out of valid range"@),
        ),
{
}

/// Projection through a fixed offset never reports an ambiguous time.
pub proof fn lemma_fixed_offset_unambiguous(l: LocalDateTime, offset: i32)
    ensures
        !(project_spec(l, ZoneView::FixedOffset(offset)) matches Err(ErrorView::AmbiguousTime { .. })),
        -86_400 < offset < 86_400 && l.secs >= i64::MIN + 86_400 && l.secs <= i64::MAX - 86_400
            ==> project_spec(l, ZoneView::FixedOffset(offset)) is Ok,
{
}

/// A wall-clock reading that a named zone shows at two instants (a
/// daylight-saving overlap) is reported as `AmbiguousTime`, carrying the
/// reading and both instants in the order the zone rules give them.
pub proof fn lemma_overlap_is_ambiguous(l: LocalDateTime, zone: Seq<char>)
    requires
        zone_candidates_of(zone, l.secs, l.nanos).len() == 2,
    ensures
        ({
            let c = zone_candidates_of(zone, l.secs, l.nanos);
            project_spec(l, ZoneView::Iana(zone)) == Err::<crate::types::UtcInstant, _>(
                ErrorView::AmbiguousTime { datetime: l, options: seq![instant_of(c[0]), instant_of(c[1])] },
            )
        }),
{
}

proof fn lemma_first_match_prefix(t: Seq<char>, a: Seq<Seq<char>>, b: Seq<Seq<char>>)
    requires
        first_match(t, a) is Some,
    ensures
        first_match(t, a + b) == first_match(t, a),
    decreases a.len(),
{
    assert((a + b)[0] == a[0]);
    if crate::datetime::match_one(t, a[0]) is None {
        assert((a + b).drop_first() =~= a.drop_first() + b);
        lemma_first_match_prefix(t, a.drop_first(), b);
    }
}

/// When one of the caller's patterns matches, the first such pattern decides,
/// even where a default pattern would match too.
pub proof fn lemma_custom_formats_first(t: Seq<char>, prefer_eu: bool, customs: Seq<Seq<char>>)
    requires
        first_match(t, customs) is Some,
    ensures
        first_match(t, candidate_formats(customs, prefer_eu)) == first_match(t, customs),
        flexible_spec(t, prefer_eu, customs) == Ok::<ParsedDatetime, ErrorView>(first_match(t, customs)->0),
{
    lemma_first_match_prefix(t, customs, candidate_formats(customs, prefer_eu).subrange(customs.len() as int, candidate_formats(customs, prefer_eu).len() as int));
    assert(candidate_formats(customs, prefer_eu) =~= customs + candidate_formats(customs, prefer_eu).subrange(customs.len() as int, candidate_formats(customs, prefer_eu).len() as int));
}

/// The fallback zone matters only when flexible matching yields a wall-clock
/// reading: for any other input two fallback zones give the same outcome.
pub proof fn lemma_fallback_only_for_naive(
    t: Seq<char>,
    zone_a: Seq<char>,
    zone_b: Seq<char>,
    prefer_eu: bool,
    customs: Seq<Seq<char>>,
)
    requires
        !(flexible_spec(t, prefer_eu, customs) matches Ok(ParsedDatetime::Naive(_))),
    ensures
        normalize_spec(t, zone_a, prefer_eu, customs) == normalize_spec(t, zone_b, prefer_eu, customs),
{
}

/// `UTC`, in any ASCII case, resolves to a zero fixed offset.
pub proof fn lemma_utc_any_case(t: Seq<char>)
    requires
        eq_ignore_ascii_case(t, "UTC"@),
    ensures
        resolve_spec(t) == Ok::<ZoneView, ErrorView>(ZoneView::FixedOffset(0)),
{
}

/// A name that is neither `UTC` nor a signed offset fails with the format
/// message when it breaks the `Region/City` shape, and with the distinct
/// unknown-zone message when it has the shape but names no zone.
pub proof fn lemma_iana_failures_distinct(t: Seq<char>)
    requires
        !eq_ignore_ascii_case(t, "UTC"@),
        !signed_offset_form(t),
    ensures
        bad_iana_shape(t) ==> resolve_spec(t) == Err::<ZoneView, _>(
            ErrorView::InvalidInput("Invalid IANA timezone format: '"@ + t + "'"@),
        ),
        !bad_iana_shape(t) && !known_zone(t) ==> resolve_spec(t) == Err::<ZoneView, _>(
            ErrorView::InvalidInput("Unknown IANA timezone '"@ + t + "'"@),
        ),
        ("Invalid IANA timezone format: '"@ + t + "'"@) != ("Unknown IANA timezone '"@ + t + "'"@),
{
    reveal_strlit("Invalid IANA timezone format: '");
    reveal_strlit("Unknown IANA timezone '");
    let a = "Invalid IANA timezone format: '"@ + t + "'"@;
    let b = "Unknown IANA timezone '"@ + t + "'"@;
    assert(a[0] != b[0]);
}

} // verus!
