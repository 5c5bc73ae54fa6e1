//! Normalization of heterogeneous date-time text into a single UTC instant.
//!
//! The pipeline tries, in order: a Unix epoch of 10, 13, 16 or 19 digits,
//! strict RFC 3339, strict RFC 2822, and a list of `strftime`-style patterns.
//! A pattern without an offset yields a wall-clock reading, which is projected
//! to UTC through a fallback zone (a fixed offset, `UTC`, or an IANA name).

/// Plain-value data types of the pipeline.
pub mod types;

/// The normalization pipeline: epochs, standard formats, pattern matching,
/// and projection of wall-clock readings to UTC.
pub mod datetime;

/// The error type shared by every stage.
pub mod error;

/// The calls into `chrono` and `chrono_tz`, with what the library relies on.
pub mod chrono_calls;

/// Character-level helpers on strings.
pub mod text;

/// The default pattern tables.
pub mod formats;

/// Resolution of zone specifiers.
pub mod tz;

/// Laws that relate the stages of the pipeline.
pub mod laws;
