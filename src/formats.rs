use vstd::prelude::*;

verus! {

/// Day-first patterns, tried first when European order is preferred.
pub open spec fn day_first_formats() -> Seq<&'static str> {
    seq![
        "%d-%m-%Y %H:%M:%S%z",
        "%d-%m-%Y %H:%M:%S",
        "%d-%m-%Y %H:%M",
        "%d-%m-%Y",
        "%d/%m/%Y %H:%M:%S",
        "%d/%m/%Y %H:%M",
        "%d/%m/%Y",
        "%d.%m.%Y %H:%M:%S",
        "%d.%m.%Y",
        "%d %b %Y",
        "%d %B %Y",
    ]
}

/// Month-first patterns, tried first otherwise.
pub open spec fn month_first_formats() -> Seq<&'static str> {
    seq![
        "%m-%d-%Y %H:%M:%S%z",
        "%m-%d-%Y %H:%M:%S",
        "%m-%d-%Y %H:%M",
        "%m-%d-%Y",
        "%m/%d/%Y %H:%M:%S",
        "%m/%d/%Y %H:%M",
        "%m/%d/%Y",
        "%B %d, %Y",
        "%b %d, %Y",
    ]
}

/// Patterns that do not depend on the locale: ISO 8601 with and without an
/// offset or fractional seconds, compact ISO 8601, ISO week dates, and the
/// RFC 822 / 1123 styles.
pub open spec fn locale_free_formats() -> Seq<&'static str> {
    seq![
        "%Y-%m-%dT%H:%M:%S%z",
        "%Y-%m-%dT%H:%M:%S%:z",
        "%Y-%m-%d %H:%M:%S%z",
        "%Y-%m-%d %H:%M:%S",
        "%Y-%m-%d",
        "%Y-%m-%dT%H:%M:%S%.f%z",
        "%Y-%m-%dT%H:%M:%S%.f%:z",
        "%Y-%m-%d %H:%M:%S%.f%z",
        "%Y-%m-%d %H:%M:%S%.f",
        "%Y%m%dT%H%M%S%z",
        "%Y%m%dT%H%M%S",
        "%Y%m%d%H%M%S%Z",
        "%Y%m%d%H%M%S",
        "%G-W%V-%u",
        "%G-W%V",
        "%a, %d %b %Y %H:%M:%S %z",
        "%d %b %Y %H:%M:%S %z",
    ]
}

/// The default pattern list: the locale block that `prefer_eu` selects,
/// then the locale-free block.
pub open spec fn default_formats_spec(prefer_eu: bool) -> Seq<&'static str> {
    if prefer_eu {
        day_first_formats() + locale_free_formats()
    } else {
        month_first_formats() + locale_free_formats()
    }
}

/// Returns the default `strftime`-style patterns, in the order they are
/// tried: day-first patterns when `prefer_eu` holds, month-first patterns
/// otherwise, then the locale-free patterns.
pub fn default_formats(prefer_eu: bool) -> (r: Vec<&'static str>)
    ensures
        r@ == default_formats_spec(prefer_eu),
{
    let mut formats: Vec<&'static str> = Vec::new();
    if prefer_eu {
        formats.push("%d-%m-%Y %H:%M:%S%z");
        formats.push("%d-%m-%Y %H:%M:%S");
        formats.push("%d-%m-%Y %H:%M");
        formats.push("%d-%m-%Y");
        formats.push("%d/%m/%Y %H:%M:%S");
        formats.push("%d/%m/%Y %H:%M");
        formats.push("%d/%m/%Y");
        formats.push("%d.%m.%Y %H:%M:%S");
        formats.push("%d.%m.%Y");
        formats.push("%d %b %Y");
        formats.push("%d %B %Y");
    } else {
        formats.push("%m-%d-%Y %H:%M:%S%z");
        formats.push("%m-%d-%Y %H:%M:%S");
        formats.push("%m-%d-%Y %H:%M");
        formats.push("%m-%d-%Y");
        formats.push("%m/%d/%Y %H:%M:%S");
        formats.push("%m/%d/%Y %H:%M");
        formats.push("%m/%d/%Y");
        formats.push("%B %d, %Y");
        formats.push("%b %d, %Y");
    }
    // ISO 8601 with and without an offset
    formats.push("%Y-%m-%dT%H:%M:%S%z");
    formats.push("%Y-%m-%dT%H:%M:%S%:z");
    formats.push("%Y-%m-%d %H:%M:%S%z");
    formats.push("%Y-%m-%d %H:%M:%S");
    formats.push("%Y-%m-%d");
    // ISO 8601 with fractional seconds
    formats.push("%Y-%m-%dT%H:%M:%S%.f%z");
    formats.push("%Y-%m-%dT%H:%M:%S%.f%:z");
    formats.push("%Y-%m-%d %H:%M:%S%.f%z");
    formats.push("%Y-%m-%d %H:%M:%S%.f");
    // compact ISO 8601
    formats.push("%Y%m%dT%H%M%S%z");
    formats.push("%Y%m%dT%H%M%S");
    formats.push("%Y%m%d%H%M%S%Z");
    formats.push("%Y%m%d%H%M%S");
    // ISO week dates
    formats.push("%G-W%V-%u");
    formats.push("%G-W%V");
    // RFC 822 / 1123 styles
    formats.push("%a, %d %b %Y %H:%M:%S %z");
    formats.push("%d %b %Y %H:%M:%S %z");
    proof {
        let locale = if prefer_eu { day_first_formats() } else { month_first_formats() };
        assert(formats@ =~= locale + locale_free_formats());
    }
    formats
}

} // verus!
