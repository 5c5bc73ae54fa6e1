use vstd::prelude::*;

verus! {

/// The unit precision of a Unix timestamp, fixed by its digit count.
#[derive(Debug, Clone, Copy, PartialEq, Eq, Structural, PartialOrd)]
pub enum EpochKind {
    /// Ten digits: seconds since the Unix epoch.
    Seconds,
    /// Thirteen digits: milliseconds since the Unix epoch.
    Milliseconds,
    /// Sixteen digits: microseconds since the Unix epoch.
    Microseconds,
    /// Nineteen digits: nanoseconds since the Unix epoch.
    Nanoseconds,
}

/// The granularity that a purely numeric string of `len` digits stands for.
pub open spec fn epoch_kind_for_len(len: nat) -> Option<EpochKind> {
    if len == 10 {
        Some(EpochKind::Seconds)
    } else if len == 13 {
        Some(EpochKind::Milliseconds)
    } else if len == 16 {
        Some(EpochKind::Microseconds)
    } else if len == 19 {
        Some(EpochKind::Nanoseconds)
    } else {
        None
    }
}

/// A UTC instant: whole seconds since 1970-01-01T00:00:00Z and the
/// nanoseconds past that second.
#[derive(Debug, Clone, Copy, PartialEq, Eq, Structural)]
pub struct UtcInstant {
    pub secs: i64,
    pub nanos: u32,
}

/// A wall-clock reading with no zone attached, counted as if it were UTC:
/// whole seconds since the local 1970-01-01 00:00:00 and nanoseconds past it.
#[derive(Debug, Clone, Copy, PartialEq, Eq, Structural)]
pub struct LocalDateTime {
    pub secs: i64,
    pub nanos: u32,
}

} // verus!

verus! {

/// A resolved zone specifier.
#[derive(Debug, Clone, PartialEq, Eq)]
pub enum TimeZoneParsed {
    /// A constant offset, in seconds east of UTC.
    FixedOffset(i32),
    /// An identifier of the IANA zone database, such as `Europe/Berlin`.
    Iana(String),
}

/// The mathematical value of a [`TimeZoneParsed`].
pub enum ZoneView {
    FixedOffset(i32),
    Iana(Seq<char>),
}

impl View for TimeZoneParsed {
    type V = ZoneView;

    open spec fn view(&self) -> ZoneView {
        match self {
            TimeZoneParsed::FixedOffset(o) => ZoneView::FixedOffset(*o),
            TimeZoneParsed::Iana(n) => ZoneView::Iana(n@),
        }
    }
}

/// The outcome of a pattern match: an instant when the pattern carried an
/// offset, else a wall-clock reading that still needs a zone.
#[derive(Debug, Clone, Copy, PartialEq, Eq, Structural)]
pub enum ParsedDatetime {
    WithTimezone(UtcInstant),
    Naive(LocalDateTime),
}

} // verus!
