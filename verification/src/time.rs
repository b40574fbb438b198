//! Instants as they travel on the wire.
//!
//! A heartbeat carries its sending time as RFC 3339 text. The text is written
//! and read by `chrono`; the library itself works on the plain pair of whole
//! seconds and nanoseconds since the Unix epoch.

use vstd::prelude::*;

verus! {

/// An instant in UTC: whole seconds since 1970-01-01T00:00:00Z, not counting
/// leap seconds, and the nanoseconds since that whole second. Within a leap
/// second the seconds stand still and the nanoseconds run on from one
/// thousand million.
///
/// Any pair of numbers is a `Timestamp`. Only some of them are instants that
/// the calendar can name: see [`Timestamp::text`].
#[derive(Clone, Copy, Debug, PartialEq, Eq, Structural)]
pub struct Timestamp {
    pub seconds: i64,
    pub nanoseconds: u32,
}

/// The RFC 3339 text that `chrono` writes for an instant, or `None` where
/// `chrono` has no date for it.
pub uninterp spec fn rfc3339_text(seconds: i64, nanoseconds: u32) -> Option<Seq<char>>;

/// The instant that `chrono` reads from a text, or `None` where it rejects
/// the text.
pub uninterp spec fn rfc3339_instant(text: Seq<char>) -> Option<(i64, u32)>;

impl Timestamp {
    /// The text of this instant on the wire, if it has one.
    pub open spec fn text(self) -> Option<Seq<char>> {
        rfc3339_text(self.seconds, self.nanoseconds)
    }

    /// The instant that a text on the wire stands for, if it stands for one.
    pub open spec fn read(text: Seq<char>) -> Option<Timestamp> {
        match rfc3339_instant(text) {
            Some((seconds, nanoseconds)) => Some(Timestamp { seconds, nanoseconds }),
            None => None,
        }
    }

    /// The instant `nanoseconds` after the whole second `seconds`.
    pub fn new(seconds: i64, nanoseconds: u32) -> (t: Timestamp)
        ensures
            t.seconds == seconds,
            t.nanoseconds == nanoseconds,
    {
        Timestamp { seconds, nanoseconds }
    }
}

/// Writes an instant as RFC 3339 text with a `Z` offset and as many
/// fractional digits (none, three, six or nine) as the nanoseconds need:
/// `chrono::DateTime::from_timestamp` followed by
/// `chrono::DateTime::to_rfc3339_opts` with `SecondsFormat::AutoSi` and `Z`,
/// which is the text that `chrono` serializes a `DateTime<Utc>` as.
///
/// Trusted: the result is [`rfc3339_text`] of the arguments, `None` where
/// `from_timestamp` finds no date for them. And `chrono` reads what it wrote
/// here back as the instant it was given: its reader takes the `T`, second
/// 60 of a leap second, one to nine fractional digits, the `Z`, and the sign
/// that its writer puts before a year beyond four digits.
#[verifier::external_body]
pub(crate) fn chrono_write(seconds: i64, nanoseconds: u32) -> (r: Option<String>)
    ensures
        r.deep_view() == rfc3339_text(seconds, nanoseconds),
        r matches Some(text) ==> rfc3339_instant(text@) == Some((seconds, nanoseconds)),
{
    match chrono::DateTime::from_timestamp(seconds, nanoseconds) {
        Some(instant) => Some(instant.to_rfc3339_opts(chrono::SecondsFormat::AutoSi, true)),
        None => None,
    }
}

/// Reads an instant from RFC 3339 text, converting any offset to UTC:
/// `str::parse` into a `chrono::DateTime<chrono::Utc>`, which is how `chrono`
/// deserializes one, then `DateTime::timestamp` and
/// `DateTime::timestamp_subsec_nanos`.
///
/// Trusted: the result is [`rfc3339_instant`] of the text, `None` where
/// `chrono` rejects it.
#[verifier::external_body]
pub(crate) fn chrono_read(text: &str) -> (r: Option<(i64, u32)>)
    ensures
        r == rfc3339_instant(text@),
{
    match text.parse::<chrono::DateTime<chrono::Utc>>() {
        Ok(instant) => Some((instant.timestamp(), instant.timestamp_subsec_nanos())),
        Err(_) => None,
    }
}

} // verus!
