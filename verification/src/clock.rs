//! Instants on the UTC time line, and their RFC 3339 text.

use vstd::prelude::*;

verus! {

/// An instant, counted in nanoseconds from the Unix epoch.
#[derive(Debug, Clone, Copy, PartialEq, Eq, Structural, Hash)]
pub struct Timestamp {
    pub unix_nanos: i128,
}

pub const NANOS_PER_MINUTE: i128 = 60_000_000_000;

pub const NANOS_PER_SECOND: i128 = 1_000_000_000;

/// The text that `OffsetDateTime::format` writes in RFC 3339 for the UTC
/// instant this many nanoseconds after the Unix epoch, or `None` where `time`
/// has no such instant or no such text for it.
pub uninterp spec fn rfc3339_text(unix_nanos: int) -> Option<Seq<char>>;

impl Timestamp {
    /// The instant `minutes` minutes after this one.
    pub open spec fn spec_plus_minutes(self, minutes: int) -> int {
        self.unix_nanos + minutes * NANOS_PER_MINUTE
    }

    /// The instant `minutes` minutes after this one, or `None` where the
    /// count leaves the range of the representation.
    pub fn plus_minutes(&self, minutes: i64) -> (later: Option<Timestamp>)
        ensures
            match later {
                Some(t) => t.unix_nanos == self.spec_plus_minutes(minutes as int),
                None => !(i128::MIN <= self.spec_plus_minutes(minutes as int) <= i128::MAX),
            },
    {
        let span: i128 = (minutes as i128) * NANOS_PER_MINUTE;
        match self.unix_nanos.checked_add(span) {
            Some(unix_nanos) => Some(Timestamp { unix_nanos }),
            None => None,
        }
    }

    /// The present instant.
    pub fn now() -> Timestamp {
        now_utc()
    }

    /// The RFC 3339 text of the instant, where it has one.
    pub fn to_rfc3339(&self) -> (text: Option<String>)
        ensures
            match text {
                Some(t) => rfc3339_text(self.unix_nanos as int) == Some(t@),
                None => rfc3339_text(self.unix_nanos as int) is None,
            },
    {
        format_rfc3339(self.unix_nanos)
    }
}

/// `OffsetDateTime::now_utc`: the system clock's reading, of which nothing is
/// known in advance.
#[verifier::external_body]
pub(crate) fn now_utc() -> Timestamp {
    Timestamp { unix_nanos: time::OffsetDateTime::now_utc().unix_timestamp_nanos() }
}

/// `chrono::Utc::now`: the system clock's reading, of which nothing is known
/// in advance, as `DateTime::timestamp` and `DateTime::timestamp_subsec_nanos`
/// give it: whole seconds, and the nanoseconds beyond them.
#[verifier::external_body]
fn chrono_utc_now() -> (i64, u32) {
    let now = chrono::Utc::now();
    (now.timestamp(), now.timestamp_subsec_nanos())
}

/// The present instant, as `chrono` reads the clock: the whole seconds and the
/// nanoseconds beyond them, counted together.
pub(crate) fn chrono_now() -> (now: Timestamp)
    ensures
        exists|seconds: i64, nanos: u32| now == #[trigger] Timestamp::spec_from_parts(seconds, nanos),
{
    let (seconds, nanos) = chrono_utc_now();
    Timestamp::from_parts(seconds, nanos)
}

/// `OffsetDateTime::format` with `Rfc3339`, on the UTC instant built by
/// `OffsetDateTime::from_unix_timestamp_nanos`: the named text, or `None`
/// where `time` cannot represent the instant or write its year.
#[verifier::external_body]
pub(crate) fn format_rfc3339(unix_nanos: i128) -> (text: Option<String>)
    ensures
        match text {
            Some(t) => rfc3339_text(unix_nanos as int) == Some(t@),
            None => rfc3339_text(unix_nanos as int) is None,
        },
{
    let instant = time::OffsetDateTime::from_unix_timestamp_nanos(unix_nanos).ok()?;
    instant.format(&time::format_description::well_known::Rfc3339).ok()
}

impl Timestamp {
    /// The instant that lies `seconds` whole seconds and `nanos` nanoseconds
    /// after the Unix epoch.
    pub open spec fn spec_from_parts(seconds: i64, nanos: u32) -> Timestamp {
        Timestamp { unix_nanos: (seconds * NANOS_PER_SECOND + nanos) as i128 }
    }

    /// The instant that lies `seconds` whole seconds and `nanos` nanoseconds
    /// after the Unix epoch.
    pub fn from_parts(seconds: i64, nanos: u32) -> (instant: Timestamp)
        ensures
            instant == Self::spec_from_parts(seconds, nanos),
            instant.unix_nanos == seconds * NANOS_PER_SECOND + nanos,
    {
        Timestamp { unix_nanos: (seconds as i128) * NANOS_PER_SECOND + (nanos as i128) }
    }
}

} // verus!
