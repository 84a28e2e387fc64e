//! Points in time, normalized to UTC, and their RFC 3339 text.
//!
//! A [`Timestamp`] holds a UTC instant as whole seconds since the Unix epoch
//! plus nanoseconds. Formatting, parsing and the clock come from `chrono`; the
//! text that `chrono` produces for an instant, and the instant it reads from a
//! text, are referred to by name in contracts rather than spelled out.

use vstd::prelude::*;

verus! {

/// Seconds since the epoch of the earliest instant that can be represented.
pub const MIN_SECONDS: i64 = -8_334_601_228_800;

/// Seconds since the epoch of the last second that can be represented.
pub const MAX_SECONDS: i64 = 8_210_266_876_799;

/// Whether `secs` seconds and `nanos` nanoseconds since the Unix epoch denote
/// a representable instant. Nanoseconds of a full second or more stand for a
/// leap second and are admitted only in the last second of a minute.
pub open spec fn representable(secs: int, nanos: int) -> bool {
    &&& MIN_SECONDS <= secs <= MAX_SECONDS
    &&& 0 <= nanos < 2_000_000_000
    &&& (nanos >= 1_000_000_000 ==> secs % 60 == 59)
}

/// The RFC 3339 text of the UTC instant `secs`/`nanos`, as `chrono` writes it.
pub uninterp spec fn rfc3339_text(secs: int, nanos: int) -> Seq<char>;

/// What reading `text` as RFC 3339 gives: the UTC instant as seconds and
/// nanoseconds since the epoch, or the message of the parse failure.
pub uninterp spec fn rfc3339_instant(text: Seq<char>) -> Result<(i64, u32), Seq<char>>;

/// The mathematical content of a [`Timestamp`].
pub struct Instant {
    pub secs: int,
    pub nanos: int,
}

/// A UTC instant.
#[derive(Debug, Clone, Copy, PartialEq, Eq)]
pub struct Timestamp {
    secs: i64,
    nanos: u32,
}

impl View for Timestamp {
    type V = Instant;

    closed spec fn view(&self) -> Instant {
        Instant { secs: self.secs as int, nanos: self.nanos as int }
    }
}

/// Reads the system clock through `chrono::Utc::now` and splits the result
/// with `DateTime::timestamp` and `DateTime::timestamp_subsec_nanos`. The
/// contract claims only that the pair is one that `DateTime::from_timestamp`
/// accepts, which `chrono` documents as a round trip.
#[verifier::external_body]
fn clock_now() -> (res: (i64, u32))
    ensures
        representable(res.0 as int, res.1 as int),
{
    let now = chrono::Utc::now();
    (now.timestamp(), now.timestamp_subsec_nanos())
}

/// Builds the instant with `chrono::DateTime::from_timestamp` and formats it
/// with `DateTime::to_rfc3339`. The precondition is the range on which
/// `from_timestamp` returns a value; the result is named, not described.
#[verifier::external_body]
fn format_instant(secs: i64, nanos: u32) -> (res: String)
    requires
        representable(secs as int, nanos as int),
    ensures
        res@ == rfc3339_text(secs as int, nanos as int),
{
    chrono::DateTime::from_timestamp(secs, nanos).unwrap().to_rfc3339()
}

/// Parses with `chrono::DateTime::parse_from_rfc3339`, moves the result to UTC
/// with `DateTime::with_timezone` and splits it into seconds and nanoseconds;
/// a failure is turned into its message. The contract names the outcome and
/// claims that a parsed instant is one `DateTime::from_timestamp` accepts.
#[verifier::external_body]
fn parse_instant(text: &str) -> (res: Result<(i64, u32), String>)
    ensures
        match res {
            Ok(p) => rfc3339_instant(text@) == Ok::<(i64, u32), Seq<char>>(p),
            Err(m) => rfc3339_instant(text@) == Err::<(i64, u32), Seq<char>>(m@),
        },
        res matches Ok(p) ==> representable(p.0 as int, p.1 as int),
{
    match chrono::DateTime::parse_from_rfc3339(text) {
        Ok(parsed) => {
            let utc = parsed.with_timezone(&chrono::Utc);
            Ok((utc.timestamp(), utc.timestamp_subsec_nanos()))
        },
        Err(e) => Err(e.to_string()),
    }
}

/// What parsing `text` yields at the level of instants: the instant read, or
/// the message of the failure.
pub open spec fn parsed_instant(text: Seq<char>) -> Result<Instant, Seq<char>> {
    match rfc3339_instant(text) {
        Ok(p) => Ok(Instant { secs: p.0 as int, nanos: p.1 as int }),
        Err(m) => Err(m),
    }
}

impl Timestamp {
    #[verifier::type_invariant]
    spec fn in_range(self) -> bool {
        representable(self.secs as int, self.nanos as int)
    }

    /// The instant `secs` seconds and `nanos` nanoseconds after the Unix
    /// epoch, if it is representable.
    pub fn new(secs: i64, nanos: u32) -> (res: Option<Timestamp>)
        ensures
            res is Some <==> representable(secs as int, nanos as int),
            res matches Some(t) ==> t@ == (Instant { secs: secs as int, nanos: nanos as int }),
    {
        if secs < MIN_SECONDS || secs > MAX_SECONDS || nanos >= 2_000_000_000 {
            return None;
        }
        if nanos >= 1_000_000_000 {
            let since_min: i64 = secs - MIN_SECONDS;
            if since_min % 60 != 59 {
                return None;
            }
        }
        Some(Timestamp { secs, nanos })
    }

    /// The current time.
    pub fn now() -> (t: Timestamp)
        ensures
            representable(t@.secs, t@.nanos),
    {
        let (secs, nanos) = clock_now();
        Timestamp { secs, nanos }
    }

    /// Whole seconds since the Unix epoch.
    pub fn unix_seconds(&self) -> (secs: i64)
        ensures
            secs == self@.secs,
            representable(self@.secs, self@.nanos),
    {
        proof {
            use_type_invariant(self);
        }
        self.secs
    }

    /// Nanoseconds past the whole second.
    pub fn subsec_nanos(&self) -> (nanos: u32)
        ensures
            nanos == self@.nanos,
            representable(self@.secs, self@.nanos),
    {
        proof {
            use_type_invariant(self);
        }
        self.nanos
    }

    /// The RFC 3339 text of this instant.
    pub fn to_rfc3339(&self) -> (text: String)
        ensures
            text@ == rfc3339_text(self@.secs, self@.nanos),
    {
        proof {
            use_type_invariant(self);
        }
        format_instant(self.secs, self.nanos)
    }

    /// Reads an RFC 3339 text. Any offset in the text is folded into the
    /// instant, which is kept in UTC. A malformed text gives the parser's
    /// message.
    pub fn parse_from_rfc3339(text: &str) -> (res: Result<Timestamp, String>)
        ensures
            match res {
                Ok(t) => parsed_instant(text@) == Ok::<Instant, Seq<char>>(t@),
                Err(m) => parsed_instant(text@) == Err::<Instant, Seq<char>>(m@),
            },
    {
        match parse_instant(text) {
            Ok((secs, nanos)) => Ok(Timestamp { secs, nanos }),
            Err(m) => Err(m),
        }
    }
}

} // verus!
