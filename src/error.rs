use crate::chrono_calls::{naive_text, naive_text_of};
use crate::types::{LocalDateTime, UtcInstant};
use vstd::prelude::*;

verus! {

/// Why a date-time input could not be normalized.
#[derive(Debug)]
pub enum TimeParseError {
    /// The input could not be turned into an instant: no format matched, an
    /// epoch lay outside its plausible range, the zone specifier was
    /// malformed or unknown, or the local time does not exist in the zone.
    InvalidInput(String),
    /// The local time occurs twice in the zone (a daylight-saving overlap);
    /// `options` holds both instants in the order the zone rules give them.
    AmbiguousTime { datetime: LocalDateTime, options: Vec<UtcInstant> },
}

/// The mathematical value of a [`TimeParseError`].
pub enum ErrorView {
    InvalidInput(Seq<char>),
    AmbiguousTime { datetime: LocalDateTime, options: Seq<UtcInstant> },
}

impl View for TimeParseError {
    type V = ErrorView;

    open spec fn view(&self) -> ErrorView {
        match self {
            TimeParseError::InvalidInput(m) => ErrorView::InvalidInput(m@),
            TimeParseError::AmbiguousTime { datetime, options } => ErrorView::AmbiguousTime {
                datetime: *datetime,
                options: options@,
            },
        }
    }
}

/// The view of a result whose error is a [`TimeParseError`].
pub open spec fn result_view<T>(r: Result<T, TimeParseError>) -> Result<T, ErrorView> {
    match r {
        Ok(v) => Ok(v),
        Err(e) => Err(e@),
    }
}

} // verus!

verus! {

/// How an instant is shown in a message.
pub open spec fn instant_text(u: UtcInstant) -> Seq<char> {
    naive_text_of(u.secs, u.nanos) + " UTC"@
}

/// The instants of a list, shown and separated by `, `.
pub open spec fn instants_text(os: Seq<UtcInstant>) -> Seq<char>
    decreases os.len(),
{
    if os.len() == 0 {
        Seq::empty()
    } else if os.len() == 1 {
        instant_text(os[0])
    } else {
        instants_text(os.drop_last()) + ", "@ + instant_text(os.last())
    }
}

/// The message of an error.
pub open spec fn error_text(e: ErrorView) -> Seq<char> {
    match e {
        ErrorView::InvalidInput(m) => "invalid datetime input: "@ + m,
        ErrorView::AmbiguousTime { datetime, options } => "ambiguous datetime (DST transition): "@
            + naive_text_of(datetime.secs, datetime.nanos) + " -> ["@ + instants_text(options) + "]"@,
    }
}

impl TimeParseError {
    /// The message of this error: `invalid datetime input: <reason>`, or
    /// `ambiguous datetime (DST transition): <local> -> [<a> UTC, <b> UTC]`.
    pub fn to_string(&self) -> (r: String)
        ensures
            r@ == error_text(self@),
    {
        match self {
            TimeParseError::InvalidInput(m) => {
                let mut r = String::from_str("invalid datetime input: ");
                r.append(m.as_str());
                r
            },
            TimeParseError::AmbiguousTime { datetime, options } => {
                let mut r = String::from_str("ambiguous datetime (DST transition): ");
                let local = naive_text(datetime.secs, datetime.nanos);
                r.append(local.as_str());
                r.append(" -> [");
                let ghost head = r@;
                let mut i: usize = 0;
                while i < options.len()
                    invariant
                        i <= options@.len(),
                        r@ == head + instants_text(options@.subrange(0, i as int)),
                    decreases options@.len() - i,
                {
                    let ghost before = options@.subrange(0, i as int);
                    if i > 0 {
                        r.append(", ");
                    }
                    let shown = naive_text(options[i].secs, options[i].nanos);
                    r.append(shown.as_str());
                    r.append(" UTC");
                    i = i + 1;
                    proof {
                        let now = options@.subrange(0, i as int);
                        assert(now.drop_last() =~= before);
                        if i == 1 {
                            assert(before.len() == 0);
                        }
                    }
                    assert(r@ =~= head + instants_text(options@.subrange(0, i as int)));
                }
                assert(options@.subrange(0, options@.len() as int) =~= options@);
                r.append("]");
                r
            },
        }
    }
}

} // verus!
