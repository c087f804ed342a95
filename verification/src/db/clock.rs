//! Instants, and their stored textual form.
//!
//! A [`Timestamp`] holds an instant as plain integers. The calendar work
//! (reading the clock, writing and reading RFC 3339 text) is `chrono`'s and is
//! taken on trust; the two conversions between text and instants are given
//! names so that contracts can speak of them exactly.

use vstd::prelude::*;

verus! {

/// An instant in UTC: whole seconds since the Unix epoch, and the nanoseconds
/// past that second.
#[derive(Debug, Clone, Copy, PartialEq, Eq, Structural)]
pub struct Timestamp {
    pub secs: i64,
    pub nanos: u32,
}

/// The RFC 3339 text that `chrono` writes for the instant `secs`, `nanos`, or
/// `None` where `chrono` has no date for those numbers.
pub uninterp spec fn rfc3339_text(secs: i64, nanos: u32) -> Option<Seq<char>>;

/// The instant that `chrono` reads from `text`, as seconds and nanoseconds,
/// or `None` where it does not accept the text as a date and time.
pub uninterp spec fn parsed_instant(text: Seq<char>) -> Option<(i64, u32)>;

impl Timestamp {
    /// The instant is one that has a calendar date and so a textual form.
    pub open spec fn representable(self) -> bool {
        rfc3339_text(self.secs, self.nanos) is Some
    }

    /// The instant's stored text.
    pub open spec fn text(self) -> Seq<char>
        recommends
            self.representable(),
    {
        rfc3339_text(self.secs, self.nanos).unwrap()
    }
}

/// What reading `text` as a timestamp may yield: the instant it spells, or,
/// where it spells none, any representable instant (the clock's, at the time
/// of reading).
pub open spec fn reads_as(text: Seq<char>, stamp: Timestamp) -> bool {
    &&& stamp.representable()
    &&& parsed_instant(text) matches Some(at) ==> stamp == (Timestamp { secs: at.0, nanos: at.1 })
}

/// The calendar reads this instant back from the text it writes for it.
/// Nothing here assumes that of any instant: whether it holds is the
/// calendar's business.
pub open spec fn calendar_keeps(stamp: Timestamp) -> bool {
    &&& stamp.representable()
    &&& parsed_instant(stamp.text()) == Some((stamp.secs, stamp.nanos))
}

impl Timestamp {
    /// Writes the instant as text, reads the text back, and says whether
    /// the reading is the instant again.
    pub fn reads_back(self) -> (r: bool)
        ensures
            r == calendar_keeps(self),
    {
        match to_rfc3339(self) {
            Some(text) => match from_rfc3339(text.as_str()) {
                Some(back) => back.secs == self.secs && back.nanos == self.nanos,
                None => false,
            },
            None => false,
        }
    }
}

/// `chrono::Utc::now`, taken apart with `DateTime::timestamp` and
/// `DateTime::timestamp_subsec_nanos`. Assumed: the reading is representable,
/// since `chrono` documents that those two numbers always build the same
/// `DateTime` again. (The call panics where the system clock stands before
/// 1970, which no caller can rule out.)
#[verifier::external_body]
pub(crate) fn now() -> (r: Timestamp)
    ensures
        r.representable(),
{
    let at = chrono::Utc::now();
    Timestamp { secs: at.timestamp(), nanos: at.timestamp_subsec_nanos() }
}

/// `chrono::DateTime::to_rfc3339` on the `DateTime<Utc>` that
/// `DateTime::from_timestamp` builds. Assumed: the result is the named text,
/// and is absent exactly where `from_timestamp` builds nothing.
#[verifier::external_body]
pub(crate) fn to_rfc3339(stamp: Timestamp) -> (r: Option<String>)
    ensures
        match r {
            Some(s) => rfc3339_text(stamp.secs, stamp.nanos) == Some(s@),
            None => rfc3339_text(stamp.secs, stamp.nanos) is None,
        },
{
    chrono::DateTime::from_timestamp(stamp.secs, stamp.nanos).map(|at| at.to_rfc3339())
}

/// `str::parse::<chrono::DateTime<chrono::Utc>>`, with the outcome taken
/// apart as in [`now`]. Assumed: the result is the named instant, and an
/// instant that was read is representable.
#[verifier::external_body]
pub(crate) fn from_rfc3339(text: &str) -> (r: Option<Timestamp>)
    ensures
        match r {
            Some(stamp) => parsed_instant(text@) == Some((stamp.secs, stamp.nanos))
                && stamp.representable(),
            None => parsed_instant(text@) is None,
        },
{
    text.parse::<chrono::DateTime<chrono::Utc>>().ok().map(
        |at| Timestamp { secs: at.timestamp(), nanos: at.timestamp_subsec_nanos() },
    )
}

/// The current instant together with its stored text.
pub fn stamp_now() -> (r: (Timestamp, String))
    ensures
        r.0.representable(),
        r.1@ == r.0.text(),
{
    let at = now();
    match to_rfc3339(at) {
        Some(text) => (at, text),
        // Never taken: the clock hands out only instants that have a text.
        None => (at, String::new()),
    }
}

/// Reads a stored timestamp. Text that spells no instant is not an error:
/// the current instant stands in for it.
pub fn parse_or_now(text: &str) -> (r: Timestamp)
    ensures
        reads_as(text@, r),
{
    match from_rfc3339(text) {
        Some(stamp) => stamp,
        None => now(),
    }
}

} // verus!
