use crate::chrono_calls::{
    date_parse_of, naive_parse_of, naive_text, naive_text_of, parse_date, parse_naive, parse_rfc2822,
    parse_rfc3339, parse_zoned, rfc2822_of, rfc3339_of, trim, trim_of, zone_candidates,
    zone_candidates_of, zoned_parse_of,
};
use crate::error::{result_view, ErrorView, TimeParseError};
use crate::formats::{default_formats, default_formats_spec};
use crate::text::{all_digits, contains_str, is_all_digits, is_digit, joined, occurs_in};
use crate::types::{epoch_kind_for_len, EpochKind, LocalDateTime, ParsedDatetime, TimeZoneParsed, UtcInstant, ZoneView};
use crate::tz::{parse_timezone_str, resolve_spec};
use vstd::prelude::*;

verus! {

/// Detects the granularity of an epoch from its digit count: 10 digits are
/// seconds, 13 milliseconds, 16 microseconds, 19 nanoseconds; any other
/// count is no epoch.
pub fn detect_epoch_kind(s: &str) -> (r: Option<EpochKind>)
    ensures
        r == epoch_kind_for_len(s@.len()),
{
    let n = s.unicode_len();
    match n {
        10 => Some(EpochKind::Seconds),
        13 => Some(EpochKind::Milliseconds),
        16 => Some(EpochKind::Microseconds),
        19 => Some(EpochKind::Nanoseconds),
        _ => None,
    }
}

// ---------------------------------------------------------------- epochs

/// `10` to the power `n`.
pub open spec fn pow10(n: nat) -> int
    decreases n,
{
    if n == 0 {
        1
    } else {
        10 * pow10((n - 1) as nat)
    }
}

/// The number that a string of decimal digits writes.
pub open spec fn digits_value(s: Seq<char>) -> int
    decreases s.len(),
{
    if s.len() == 0 {
        0
    } else {
        digits_value(s.drop_last()) * 10 + (s.last() as int - '0' as int)
    }
}

/// How many units of a granularity make one second.
pub open spec fn units_per_second(k: EpochKind) -> int {
    match k {
        EpochKind::Seconds => 1,
        EpochKind::Milliseconds => 1_000,
        EpochKind::Microseconds => 1_000_000,
        EpochKind::Nanoseconds => 1_000_000_000,
    }
}

/// The earliest plausible epoch second (2001-09-09T01:46:40Z).
pub const MIN_EPOCH_SECS: u64 = 1_000_000_000;

/// The latest plausible epoch second (2072-12-27T00:53:20Z).
pub const MAX_EPOCH_SECS: u64 = 3_250_000_000;

/// Whether an epoch value of granularity `k` lies in the plausible window.
pub open spec fn epoch_in_range(v: int, k: EpochKind) -> bool {
    MIN_EPOCH_SECS * units_per_second(k) <= v <= MAX_EPOCH_SECS * units_per_second(k)
}

/// The granularity of a string if it is an epoch candidate: all ASCII digits,
/// and 10, 13, 16 or 19 of them.
pub open spec fn epoch_class(t: Seq<char>) -> Option<EpochKind> {
    if all_digits(t) {
        epoch_kind_for_len(t.len())
    } else {
        None
    }
}

/// What an epoch candidate of granularity `k` stands for.
pub open spec fn epoch_spec(t: Seq<char>, k: EpochKind) -> Result<UtcInstant, ErrorView> {
    let v = digits_value(t);
    let u = units_per_second(k);
    if epoch_in_range(v, k) {
        Ok(UtcInstant { secs: (v / u) as i64, nanos: ((v % u) * (1_000_000_000int / u)) as u32 })
    } else {
        Err(ErrorView::InvalidInput("Epoch out of valid range"@))
    }
}

proof fn lemma_digits_value_bound(s: Seq<char>)
    requires
        forall|i: int| 0 <= i < s.len() ==> is_digit(#[trigger] s[i]),
    ensures
        0 <= digits_value(s) < pow10(s.len()),
    decreases s.len(),
{
    if s.len() > 0 {
        let p = s.drop_last();
        assert forall|i: int| 0 <= i < p.len() implies is_digit(#[trigger] p[i]) by {
            assert(p[i] == s[i]);
        }
        lemma_digits_value_bound(p);
        assert(is_digit(s[s.len() - 1]));
    }
}

fn digits_to_u64(t: &str) -> (r: u64)
    requires
        all_digits(t@),
        t@.len() <= 19,
    ensures
        r == digits_value(t@),
{
    let n = t.unicode_len();
    let mut v: u64 = 0;
    let mut i: usize = 0;
    proof {
        reveal_with_fuel(pow10, 20);
        assert(pow10(19) == 10_000_000_000_000_000_000);
    }
    while i < n
        invariant
            n == t@.len() <= 19,
            i <= n,
            all_digits(t@),
            v == digits_value(t@.subrange(0, i as int)),
            v < pow10(i as nat),
            pow10(19) == 10_000_000_000_000_000_000,
        decreases n - i,
    {
        let c = t.get_char(i);
        assert(is_digit(t@[i as int]));
        let d = (c as u32 - '0' as u32) as u64;
        let ghost pre = t@.subrange(0, i as int);
        let ghost next = t@.subrange(0, i + 1);
        assert(next.drop_last() =~= pre);
        proof {
            assert(pow10((i + 1) as nat) == 10 * pow10(i as nat));
            lemma_pow10_mono(i as nat + 1, 19);
        }
        v = v * 10 + d;
        i = i + 1;
    }
    assert(t@.subrange(0, n as int) =~= t@);
    v
}

proof fn lemma_pow10_mono(a: nat, b: nat)
    requires
        a <= b,
    ensures
        pow10(a) <= pow10(b),
        pow10(a) >= 1,
    decreases b,
{
    if a < b {
        lemma_pow10_mono(a, (b - 1) as nat);
    } else if a > 0 {
        lemma_pow10_mono((a - 1) as nat, (a - 1) as nat);
    }
}

/// The epoch classifier. `None` when `t` is no epoch candidate (not all ASCII
/// digits, or a digit count other than 10, 13, 16, 19); otherwise the instant
/// it stands for, or `InvalidInput` when it lies outside the plausible window
/// (epoch seconds from `MIN_EPOCH_SECS` to `MAX_EPOCH_SECS`, scaled to the
/// granularity).
pub fn parse_epoch(t: &str) -> (r: Option<Result<UtcInstant, TimeParseError>>)
    ensures
        r is None <==> epoch_class(t@) is None,
        r matches Some(res) ==> result_view(res) == epoch_spec(t@, epoch_class(t@)->0),
{
    if !is_all_digits(t) {
        return None;
    }
    let kind = match detect_epoch_kind(t) {
        Some(k) => k,
        None => return None,
    };
    let v = digits_to_u64(t);
    let unit: u64 = match kind {
        EpochKind::Seconds => 1,
        EpochKind::Milliseconds => 1_000,
        EpochKind::Microseconds => 1_000_000,
        EpochKind::Nanoseconds => 1_000_000_000,
    };
    if v < MIN_EPOCH_SECS * unit || v > MAX_EPOCH_SECS * unit {
        return Some(Err(TimeParseError::InvalidInput(String::from_str("Epoch out of valid range"))));
    }
    let secs = (v / unit) as i64;
    let nanos = ((v % unit) * (1_000_000_000 / unit)) as u32;
    Some(Ok(UtcInstant { secs, nanos }))
}

} // verus!

verus! {

// ------------------------------------------------------- pattern matching

/// The instant that an (epoch seconds, nanoseconds) pair names.
pub open spec fn instant_of(p: (i64, u32)) -> UtcInstant {
    UtcInstant { secs: p.0, nanos: p.1 }
}

/// The wall-clock reading that a (local seconds, nanoseconds) pair names.
pub open spec fn local_of(p: (i64, u32)) -> LocalDateTime {
    LocalDateTime { secs: p.0, nanos: p.1 }
}

/// Whether a pattern holds an offset token, `%z` or `%:z`.
pub open spec fn has_offset_token(fmt: Seq<char>) -> bool {
    occurs_in("%z"@, fmt) || occurs_in("%:z"@, fmt)
}

/// What one pattern makes of an input: an instant when the input parses with
/// an offset; otherwise, for a pattern without an offset token, a full local
/// date-time, or else a date at midnight; otherwise nothing.
pub open spec fn match_one(t: Seq<char>, fmt: Seq<char>) -> Option<ParsedDatetime> {
    match zoned_parse_of(t, fmt) {
        Some(p) => Some(ParsedDatetime::WithTimezone(instant_of(p))),
        None => if has_offset_token(fmt) {
            None
        } else {
            match naive_parse_of(t, fmt) {
                Some(p) => Some(ParsedDatetime::Naive(local_of(p))),
                None => match date_parse_of(t, fmt) {
                    Some(d) => Some(ParsedDatetime::Naive(LocalDateTime { secs: d, nanos: 0 })),
                    None => None,
                },
            }
        },
    }
}

/// What the first pattern of `fmts` that matches makes of `t`.
pub open spec fn first_match(t: Seq<char>, fmts: Seq<Seq<char>>) -> Option<ParsedDatetime>
    decreases fmts.len(),
{
    if fmts.len() == 0 {
        None
    } else {
        match match_one(t, fmts[0]) {
            Some(p) => Some(p),
            None => first_match(t, fmts.drop_first()),
        }
    }
}

/// The texts of a list of patterns.
pub open spec fn format_texts(fs: Seq<&str>) -> Seq<Seq<char>> {
    fs.map_values(|f: &str| f@)
}

/// The caller's patterns, if any, as texts.
pub open spec fn custom_texts(custom_formats: Option<&[&str]>) -> Seq<Seq<char>> {
    match custom_formats {
        Some(c) => format_texts(c@),
        None => Seq::empty(),
    }
}

/// The patterns tried, in order: the caller's, then the defaults.
pub open spec fn candidate_formats(customs: Seq<Seq<char>>, prefer_eu: bool) -> Seq<Seq<char>> {
    customs + format_texts(default_formats_spec(prefer_eu))
}

/// The outcome of flexible matching of `t`.
pub open spec fn flexible_spec(t: Seq<char>, prefer_eu: bool, customs: Seq<Seq<char>>) -> Result<ParsedDatetime, ErrorView> {
    match first_match(t, candidate_formats(customs, prefer_eu)) {
        Some(p) => Ok(p),
        None => Err(ErrorView::InvalidInput("No matching format found for: '"@ + t + "'"@)),
    }
}

proof fn lemma_first_match_from(t: Seq<char>, fmts: Seq<Seq<char>>, i: int)
    requires
        0 <= i < fmts.len(),
        forall|j: int| 0 <= j < i ==> match_one(t, #[trigger] fmts[j]) is None,
    ensures
        first_match(t, fmts) == first_match(t, fmts.subrange(i, fmts.len() as int)),
    decreases i,
{
    if i > 0 {
        let rest = fmts.drop_first();
        assert forall|j: int| 0 <= j < i - 1 implies match_one(t, #[trigger] rest[j]) is None by {
            assert(rest[j] == fmts[j + 1]);
        }
        assert(match_one(t, fmts[0]) is None);
        lemma_first_match_from(t, rest, i - 1);
        assert(rest.subrange(i - 1, rest.len() as int) =~= fmts.subrange(i, fmts.len() as int));
    } else {
        assert(fmts.subrange(0, fmts.len() as int) =~= fmts);
    }
}

proof fn lemma_first_match_none(t: Seq<char>, fmts: Seq<Seq<char>>)
    requires
        forall|j: int| 0 <= j < fmts.len() ==> match_one(t, #[trigger] fmts[j]) is None,
    ensures
        first_match(t, fmts) is None,
    decreases fmts.len(),
{
    if fmts.len() > 0 {
        let rest = fmts.drop_first();
        assert forall|j: int| 0 <= j < rest.len() implies match_one(t, #[trigger] rest[j]) is None by {
            assert(rest[j] == fmts[j + 1]);
        }
        assert(match_one(t, fmts[0]) is None);
        lemma_first_match_none(t, rest);
    }
}

fn match_format(s: &str, fmt: &str) -> (r: Option<ParsedDatetime>)
    ensures
        r == match_one(s@, fmt@),
{
    if let Some(p) = parse_zoned(s, fmt) {
        return Some(ParsedDatetime::WithTimezone(UtcInstant { secs: p.0, nanos: p.1 }));
    }
    if contains_str(fmt, "%z") || contains_str(fmt, "%:z") {
        return None;
    }
    if let Some(p) = parse_naive(s, fmt) {
        return Some(ParsedDatetime::Naive(LocalDateTime { secs: p.0, nanos: p.1 }));
    }
    match parse_date(s, fmt) {
        Some(d) => Some(ParsedDatetime::Naive(LocalDateTime { secs: d, nanos: 0 })),
        None => None,
    }
}

/// Tries the caller's patterns in the order given, then the default patterns
/// ([`default_formats`]); the first pattern that parses `s` decides. A pattern
/// with an offset token yields `WithTimezone`; one without yields `Naive`, from
/// a full date-time or a date at midnight. No match at all is `InvalidInput`.
pub fn parse_datetime_flexible(s: &str, prefer_eu: bool, custom_formats: Option<&[&str]>) -> (r: Result<ParsedDatetime, TimeParseError>)
    ensures
        result_view(r) == flexible_spec(s@, prefer_eu, custom_texts(custom_formats)),
{
    let mut formats: Vec<&str> = Vec::new();
    if let Some(customs) = custom_formats {
        let mut k: usize = 0;
        while k < customs.len()
            invariant
                k <= customs@.len(),
                formats@ == customs@.subrange(0, k as int),
            decreases customs@.len() - k,
        {
            formats.push(customs[k]);
            k = k + 1;
            assert(formats@ =~= customs@.subrange(0, k as int));
        }
        assert(customs@.subrange(0, customs@.len() as int) =~= customs@);
    }
    let defaults = default_formats(prefer_eu);
    let mut k: usize = 0;
    let ghost base = formats@;
    while k < defaults.len()
        invariant
            k <= defaults@.len(),
            formats@ == base + defaults@.subrange(0, k as int),
        decreases defaults@.len() - k,
    {
        formats.push(defaults[k]);
        k = k + 1;
        assert(formats@ =~= base + defaults@.subrange(0, k as int));
    }
    let ghost all = candidate_formats(custom_texts(custom_formats), prefer_eu);
    proof {
        assert(defaults@.subrange(0, defaults@.len() as int) =~= defaults@);
        assert(format_texts(formats@) =~= all);
    }
    let mut i: usize = 0;
    while i < formats.len()
        invariant
            i <= formats@.len(),
            all == format_texts(formats@),
            all == candidate_formats(custom_texts(custom_formats), prefer_eu),
            forall|j: int| 0 <= j < i ==> match_one(s@, #[trigger] all[j]) is None,
        decreases formats@.len() - i,
    {
        let fmt = formats[i];
        assert(all[i as int] == fmt@);
        if let Some(p) = match_format(s, fmt) {
            proof {
                lemma_first_match_from(s@, all, i as int);
                let rest = all.subrange(i as int, all.len() as int);
                assert(rest[0] == all[i as int]);
                assert(match_one(s@, rest[0]) == Some(p));
                assert(first_match(s@, rest) == Some(p));
            }
            return Ok(p);
        }
        i = i + 1;
    }
    proof {
        lemma_first_match_none(s@, all);
    }
    Err(TimeParseError::InvalidInput(joined("No matching format found for: '", s, "'")))
}

} // verus!

verus! {

// ------------------------------------------------------------- projection

/// What a zone's candidate instants for the reading `l` decide: one instant
/// is the answer, two are an ambiguity; `None` for any other count.
pub open spec fn candidates_spec(l: LocalDateTime, c: Seq<(i64, u32)>) -> Option<Result<UtcInstant, ErrorView>> {
    if c.len() == 1 {
        Some(Ok(instant_of(c[0])))
    } else if c.len() == 2 {
        Some(Err(ErrorView::AmbiguousTime { datetime: l, options: seq![instant_of(c[0]), instant_of(c[1])] }))
    } else {
        None
    }
}

/// Decides a named zone's candidate instants for the reading `local`, in the
/// order the zone rules give them: one is the answer, two are reported as
/// `AmbiguousTime` carrying both; any other count gives `None` (no instant
/// shows that reading).
pub fn decide_candidates(local: LocalDateTime, c: &[(i64, u32)]) -> (r: Option<Result<UtcInstant, TimeParseError>>)
    ensures
        r matches Some(res) ==> candidates_spec(local, c@) == Some(result_view(res)),
        r is None <==> candidates_spec(local, c@) is None,
{
    if c.len() == 1 {
        Some(Ok(UtcInstant { secs: c[0].0, nanos: c[0].1 }))
    } else if c.len() == 2 {
        let mut options: Vec<UtcInstant> = Vec::new();
        options.push(UtcInstant { secs: c[0].0, nanos: c[0].1 });
        options.push(UtcInstant { secs: c[1].0, nanos: c[1].1 });
        assert(options@ =~= seq![instant_of(c@[0]), instant_of(c@[1])]);
        Some(Err(TimeParseError::AmbiguousTime { datetime: local, options }))
    } else {
        None
    }
}

/// The instant at which a zone's clocks show `l`: with a fixed offset, `l`
/// less the offset; with a named zone, the one instant the zone rules give,
/// `AmbiguousTime` with both when they give two, `InvalidInput` when none.
pub open spec fn project_spec(l: LocalDateTime, z: ZoneView) -> Result<UtcInstant, ErrorView> {
    match z {
        ZoneView::FixedOffset(o) => {
            let u = l.secs - o;
            if i64::MIN <= u <= i64::MAX {
                Ok(UtcInstant { secs: u as i64, nanos: l.nanos })
            } else {
                Err(ErrorView::InvalidInput("Failed to resolve datetime"@))
            }
        },
        ZoneView::Iana(name) => match candidates_spec(l, zone_candidates_of(name, l.secs, l.nanos)) {
            Some(r) => r,
            None => Err(ErrorView::InvalidInput(
                "Nonexistent local time due to DST: "@ + naive_text_of(l.secs, l.nanos) + " in "@ + name,
            )),
        },
    }
}

/// Projects a wall-clock reading to UTC through a resolved zone. A fixed
/// offset always gives one instant; a named zone gives one, reports both
/// candidates of a daylight-saving overlap as `AmbiguousTime`, or reports a
/// reading inside a daylight-saving gap as `InvalidInput`.
pub fn project_to_utc(local: LocalDateTime, zone: &TimeZoneParsed) -> (r: Result<UtcInstant, TimeParseError>)
    ensures
        result_view(r) == project_spec(local, zone@),
{
    match zone {
        TimeZoneParsed::FixedOffset(o) => match local.secs.checked_sub(*o as i64) {
            Some(secs) => Ok(UtcInstant { secs, nanos: local.nanos }),
            None => Err(TimeParseError::InvalidInput(String::from_str("Failed to resolve datetime"))),
        },
        TimeZoneParsed::Iana(name) => {
            let c = zone_candidates(name.as_str(), local.secs, local.nanos);
            if let Some(res) = decide_candidates(local, c.as_slice()) {
                res
            } else {
                let mut m = String::from_str("Nonexistent local time due to DST: ");
                let shown = naive_text(local.secs, local.nanos);
                m.append(shown.as_str());
                m.append(" in ");
                m.append(name.as_str());
                Err(TimeParseError::InvalidInput(m))
            }
        },
    }
}

// --------------------------------------------------------------- pipeline

/// The whole pipeline on a trimmed input `t`: an epoch candidate decides at
/// once; then strict RFC 3339, then strict RFC 2822; then flexible matching,
/// whose wall-clock result alone consults the fallback zone.
pub open spec fn normalize_spec(
    t: Seq<char>,
    fallback_tz: Seq<char>,
    prefer_eu: bool,
    customs: Seq<Seq<char>>,
) -> Result<UtcInstant, ErrorView> {
    match epoch_class(t) {
        Some(k) => epoch_spec(t, k),
        None => match rfc3339_of(t) {
            Some(p) => Ok(instant_of(p)),
            None => match rfc2822_of(t) {
                Some(p) => Ok(instant_of(p)),
                None => match flexible_spec(t, prefer_eu, customs) {
                    Err(e) => Err(e),
                    Ok(ParsedDatetime::WithTimezone(u)) => Ok(u),
                    Ok(ParsedDatetime::Naive(l)) => match resolve_spec(trim_of(fallback_tz)) {
                        Err(e) => Err(e),
                        Ok(z) => project_spec(l, z),
                    },
                },
            },
        },
    }
}

/// Normalizes an input that carries no surrounding white space; see
/// [`utcize`].
pub fn normalize_trimmed(t: &str, fallback_tz: &str, prefer_eu: bool, custom_formats: Option<&[&str]>) -> (r: Result<UtcInstant, TimeParseError>)
    ensures
        result_view(r) == normalize_spec(t@, fallback_tz@, prefer_eu, custom_texts(custom_formats)),
{
    if let Some(res) = parse_epoch(t) {
        return res;
    }
    if let Some(p) = parse_rfc3339(t) {
        return Ok(UtcInstant { secs: p.0, nanos: p.1 });
    }
    if let Some(p) = parse_rfc2822(t) {
        return Ok(UtcInstant { secs: p.0, nanos: p.1 });
    }
    match parse_datetime_flexible(t, prefer_eu, custom_formats) {
        Err(e) => Err(e),
        Ok(ParsedDatetime::WithTimezone(u)) => Ok(u),
        Ok(ParsedDatetime::Naive(l)) => match parse_timezone_str(fallback_tz) {
            Err(e) => Err(e),
            Ok(z) => project_to_utc(l, &z),
        },
    }
}

/// Normalizes a date-time text to a UTC instant. The input is trimmed, then
/// read as a Unix epoch (10, 13, 16 or 19 digits), as strict RFC 3339, as
/// strict RFC 2822, or by the first matching pattern of `usr_custom_formats`
/// followed by [`default_formats`]. A match without an offset is a wall-clock
/// reading, projected to UTC through `fallback_tz` (`UTC`, `±HH:MM`,
/// `±HHMM`, or an IANA `Region/City` name).
pub fn utcize(s: &str, fallback_tz: &str, prefer_eu: bool, usr_custom_formats: Option<&[&str]>) -> (r: Result<UtcInstant, TimeParseError>)
    ensures
        result_view(r) == normalize_spec(trim_of(s@), fallback_tz@, prefer_eu, custom_texts(usr_custom_formats)),
{
    normalize_trimmed(trim(s), fallback_tz, prefer_eu, usr_custom_formats)
}

} // verus!
