//! Instants in UTC, held as plain numbers and rendered by chrono.

use vstd::prelude::*;

verus! {

/// The text chrono renders for the UTC instant that lies `seconds` whole
/// seconds and `nanos` nanoseconds after the Unix epoch: RFC 3339 form with a
/// `Z` suffix and as many fractional digits (none, 3, 6 or 9) as the
/// nanoseconds need, the year signed where it lies outside 0 to 9999.
/// `None` where chrono has no such instant.
pub uninterp spec fn utc_rfc3339(seconds: i64, nanos: u32) -> Option<Seq<char>>;

/// Calls `chrono::DateTime::<Utc>::from_timestamp` and, where that yields an
/// instant, `DateTime::to_rfc3339_opts` with `SecondsFormat::AutoSi` and
/// `use_z` set. The contract only gives the outcome its name: it is a function
/// of the two numbers alone.
#[verifier::external_body]
fn render_utc(seconds: i64, nanos: u32) -> (text: Option<String>)
    ensures
        text.deep_view() == utc_rfc3339(seconds, nanos),
{
    match chrono::DateTime::<chrono::Utc>::from_timestamp(seconds, nanos) {
        Some(instant) => Some(instant.to_rfc3339_opts(chrono::SecondsFormat::AutoSi, true)),
        None => None,
    }
}

/// The mathematical value of a [`Timestamp`].
pub struct Instant {
    /// Whole seconds since 1970-01-01T00:00:00Z; negative before it.
    pub seconds: i64,
    /// Nanoseconds past that second.
    pub nanos: u32,
}

impl Instant {
    /// Whether the calendar can name this instant.
    pub open spec fn representable(self) -> bool {
        utc_rfc3339(self.seconds, self.nanos) is Some
    }

    /// The RFC 3339 text of a representable instant.
    pub open spec fn text(self) -> Seq<char>
        recommends
            self.representable(),
    {
        utc_rfc3339(self.seconds, self.nanos)->0
    }
}

/// A point in time in UTC that the calendar can name.
#[derive(Clone, Copy, Debug, PartialEq, Eq)]
pub struct Timestamp {
    seconds: i64,
    nanos: u32,
}

impl View for Timestamp {
    type V = Instant;

    closed spec fn view(&self) -> Instant {
        Instant { seconds: self.seconds, nanos: self.nanos }
    }
}

impl Timestamp {
    #[verifier::type_invariant]
    spec fn well_formed(self) -> bool {
        self@.representable()
    }

    /// The instant `seconds` and `nanos` after the Unix epoch, if the calendar
    /// reaches that far and `nanos` is a valid fraction of the second.
    pub fn from_unix(seconds: i64, nanos: u32) -> (made: Option<Timestamp>)
        ensures
            made is Some <==> (Instant { seconds, nanos }).representable(),
            made matches Some(t) ==> t@ == (Instant { seconds, nanos }),
    {
        match render_utc(seconds, nanos) {
            Some(_) => Some(Timestamp { seconds, nanos }),
            None => None,
        }
    }

    /// Whole seconds since the Unix epoch.
    pub fn seconds(&self) -> (s: i64)
        ensures
            s == self@.seconds,
    {
        self.seconds
    }

    /// Nanoseconds past the whole second.
    pub fn nanos(&self) -> (n: u32)
        ensures
            n == self@.nanos,
    {
        self.nanos
    }

    /// The instant as RFC 3339 text, such as `2023-01-01T00:00:00Z`.
    pub fn to_rfc3339(&self) -> (text: String)
        ensures
            self@.representable(),
            text@ == self@.text(),
    {
        proof {
            use_type_invariant(self);
        }
        match render_utc(self.seconds, self.nanos) {
            Some(text) => text,
            None => unreached(),
        }
    }
}

} // verus!
