//! Instants in time, and their RFC 3339 text.
//!
//! An instant is a count of milliseconds since 1970-01-01T00:00:00Z. The type
//! holds only instants in the years 0000 to 9999, the ones that RFC 3339 text
//! can express. The text itself is written and read by `chrono`.

use vstd::prelude::*;

verus! {

/// 0000-01-01T00:00:00.000Z, the earliest instant.
pub const MIN_MILLIS: i64 = -62_167_219_200_000;

/// 9999-12-31T23:59:59.999Z, the latest instant.
pub const MAX_MILLIS: i64 = 253_402_300_799_999;

/// The milliseconds of one day.
pub const MILLIS_PER_DAY: i64 = 86_400_000;

/// What `chrono` writes for the instant `millis`: the result of
/// `DateTime::<Utc>::to_rfc3339`.
pub uninterp spec fn rfc3339_text(millis: i64) -> Seq<char>;

/// What `chrono` reads from `text`: the milliseconds since the epoch of the
/// instant that `DateTime::parse_from_rfc3339` returns, or `None` where it
/// returns an error.
pub uninterp spec fn rfc3339_instant(text: Seq<char>) -> Option<i64>;

/// Calls `chrono::DateTime::from_timestamp_millis` and then `to_rfc3339` on the
/// instant it gives. The first returns a value for every count of milliseconds
/// whose date lies in the years -262143 to 262142, so for every instant between
/// `MIN_MILLIS` and `MAX_MILLIS`; the text is named `rfc3339_text`.
#[verifier::external_body]
fn write_rfc3339(millis: i64) -> (r: Option<String>)
    ensures
        MIN_MILLIS <= millis <= MAX_MILLIS ==> r is Some,
        r matches Some(s) ==> s@ == rfc3339_text(millis),
{
    match chrono::DateTime::from_timestamp_millis(millis) {
        Some(t) => Some(t.to_rfc3339()),
        None => None,
    }
}

/// Calls `chrono::DateTime::parse_from_rfc3339` and, where it succeeds,
/// `timestamp_millis` on the instant; an error becomes `None`. The result is
/// named `rfc3339_instant`.
#[verifier::external_body]
fn read_rfc3339(text: &str) -> (r: Option<i64>)
    ensures
        r == rfc3339_instant(text@),
{
    match chrono::DateTime::parse_from_rfc3339(text) {
        Ok(t) => Some(t.timestamp_millis()),
        Err(_) => None,
    }
}

/// `millis` brought into the range of instants.
pub open spec fn clamped_millis(millis: int) -> int {
    if millis < MIN_MILLIS {
        MIN_MILLIS as int
    } else if millis > MAX_MILLIS {
        MAX_MILLIS as int
    } else {
        millis
    }
}

/// An instant between `MIN_MILLIS` and `MAX_MILLIS`, with millisecond precision.
#[derive(Clone, Copy, Debug, PartialEq, Eq, Structural)]
pub struct Timestamp {
    millis: i64,
}

impl View for Timestamp {
    type V = int;

    /// The milliseconds since the epoch.
    closed spec fn view(&self) -> int {
        self.millis as int
    }
}

impl Timestamp {
    #[verifier::type_invariant]
    spec fn in_range(self) -> bool {
        MIN_MILLIS <= self.millis <= MAX_MILLIS
    }

    /// The instant `millis` milliseconds after the epoch, where the type holds it.
    pub fn from_millis(millis: i64) -> (r: Option<Timestamp>)
        ensures
            r is Some <==> MIN_MILLIS <= millis <= MAX_MILLIS,
            r matches Some(t) ==> t@ == millis,
    {
        if MIN_MILLIS <= millis && millis <= MAX_MILLIS {
            Some(Timestamp { millis })
        } else {
            None
        }
    }

    /// The milliseconds since the epoch.
    pub fn millis(&self) -> (m: i64)
        ensures
            m == self@,
            MIN_MILLIS <= m <= MAX_MILLIS,
    {
        proof {
            use_type_invariant(self);
        }
        self.millis
    }

    /// The instant `days` days earlier, or the nearest instant that the type
    /// holds where that one lies outside its range.
    pub fn minus_days(&self, days: i64) -> (r: Timestamp)
        ensures
            r@ == clamped_millis(self@ - days * MILLIS_PER_DAY),
    {
        proof {
            use_type_invariant(self);
        }
        let span: i128 = days as i128 * 86_400_000;
        let target: i128 = self.millis as i128 - span;
        if target < MIN_MILLIS as i128 {
            Timestamp { millis: MIN_MILLIS }
        } else if target > MAX_MILLIS as i128 {
            Timestamp { millis: MAX_MILLIS }
        } else {
            Timestamp { millis: target as i64 }
        }
    }

    /// Whether this instant lies before `other`.
    pub fn is_before(&self, other: &Timestamp) -> (b: bool)
        ensures
            b == (self@ < other@),
    {
        self.millis < other.millis
    }

    /// The RFC 3339 text of this instant.
    pub fn to_rfc3339(&self) -> (text: String)
        ensures
            text@ == rfc3339_text(self@ as i64),
    {
        proof {
            use_type_invariant(self);
        }
        match write_rfc3339(self.millis) {
            Some(text) => text,
            None => String::new(),
        }
    }

    /// What `from_reading` gives for `reading`.
    pub closed spec fn parsed(reading: Option<i64>) -> Option<Timestamp> {
        match reading {
            Some(millis) => if MIN_MILLIS <= millis <= MAX_MILLIS {
                Some(Timestamp { millis })
            } else {
                None
            },
            None => None,
        }
    }

    /// `parsed` gives an instant exactly for a reading within the range, and
    /// that instant is the reading.
    pub proof fn lemma_parsed(reading: Option<i64>)
        ensures
            Timestamp::parsed(reading) is Some <==> reading is Some && MIN_MILLIS <= reading->0
                <= MAX_MILLIS,
            Timestamp::parsed(reading) matches Some(t) ==> t@ == reading->0,
    {
    }

    /// Two instants with the same count of milliseconds are the same instant.
    pub proof fn lemma_same_millis(a: Timestamp, b: Timestamp)
        requires
            a@ == b@,
        ensures
            a == b,
    {
    }

    /// The instant for what was read from a text: the one that many
    /// milliseconds after the epoch, if anything was read and the type holds it.
    pub fn from_reading(reading: Option<i64>) -> (r: Option<Timestamp>)
        ensures
            r == Timestamp::parsed(reading),
            r is Some <==> reading is Some && MIN_MILLIS <= reading->0 <= MAX_MILLIS,
            r matches Some(t) ==> t@ == reading->0,
    {
        match reading {
            Some(millis) => Timestamp::from_millis(millis),
            None => None,
        }
    }

    /// Reads RFC 3339 text. The result is the instant that the text names,
    /// where it names one that the type holds.
    pub fn parse_rfc3339(text: &str) -> (r: Option<Timestamp>)
        ensures
            r == Timestamp::parsed(rfc3339_instant(text@)),
            r is Some <==> rfc3339_instant(text@) is Some && MIN_MILLIS <= rfc3339_instant(text@)->0
                <= MAX_MILLIS,
            r matches Some(t) ==> t@ == rfc3339_instant(text@)->0,
    {
        Timestamp::from_reading(read_rfc3339(text))
    }
}

} // verus!
