//! Points in time, as tasks record them.

use crate::json::{Json, JsonValue};
use crate::model::opt_view;
use crate::text::opt_text;
use crate::wire::Wire;
use vstd::prelude::*;

verus! {

/// A point in time: whole seconds since the start of 1970 in UTC, leap
/// seconds not counted, and the nanoseconds since the last whole second.
pub struct Instant {
    pub secs: int,
    pub nanos: int,
}

impl Instant {
    /// Whether this point in time comes strictly before `other`.
    pub open spec fn before(self, other: Instant) -> bool {
        self.secs < other.secs || (self.secs == other.secs && self.nanos < other.nanos)
    }
}

/// Points in time are in a strict order: none comes before itself, the order
/// carries over, and of two different ones one comes first.
pub proof fn lemma_before_is_a_strict_order(a: Instant, b: Instant, c: Instant)
    ensures
        !a.before(a),
        a.before(b) && b.before(c) ==> a.before(c),
        a.before(b) || b.before(a) || a == b,
{
}

/// The RFC 3339 text that `chrono` writes for a point in time, in UTC with a
/// `Z` and as many fractional digits as the nanoseconds need; `None` where
/// `chrono` has no date and time for these numbers.
pub uninterp spec fn rfc3339_text(secs: int, nanos: int) -> Option<Seq<char>>;

/// The point in time that `chrono` reads from a text, as seconds and
/// nanoseconds; `None` where it reads none.
pub uninterp spec fn rfc3339_instant(text: Seq<char>) -> Option<(int, int)>;

#[verifier::external_type_specification]
#[verifier::external_body]
pub struct ExSystemTime(std::time::SystemTime);

/// `SystemTime::now` of std: the reading of the system clock.
#[verifier::external_body]
fn system_now() -> (r: std::time::SystemTime) {
    std::time::SystemTime::now()
}

/// `SystemTime::duration_since` of std, from the start of 1970: the time
/// that has passed since then, or `None` where the reading lies before it.
#[verifier::external_body]
fn since_epoch(reading: &std::time::SystemTime) -> (r: Option<std::time::Duration>) {
    reading.duration_since(std::time::UNIX_EPOCH).ok()
}

/// `Duration::as_nanos` of std: the whole nanoseconds of a span of time.
#[verifier::external_body]
fn whole_nanos(span: &std::time::Duration) -> (r: u128) {
    span.as_nanos()
}

/// The nanoseconds that the system clock counts since the start of 1970;
/// `None` where it stands before that.
pub(crate) fn clock_nanos() -> (r: Option<u128>) {
    let reading = system_now();
    match since_epoch(&reading) {
        Some(span) => Some(whole_nanos(&span)),
        None => None,
    }
}

/// The nanoseconds in a second.
pub const NANOS_PER_SECOND: u128 = 1_000_000_000;

/// The point in time that lies a number of nanoseconds after the start of
/// 1970.
pub open spec fn instant_after(nanos: u128) -> Instant {
    Instant {
        secs: (nanos / NANOS_PER_SECOND) as int,
        nanos: (nanos % NANOS_PER_SECOND) as int,
    }
}

/// The point in time that a count of nanoseconds since the start of 1970
/// stands for; `None` where there is no count, or no date and time for it.
pub open spec fn instant_of_nanos(nanos: Option<u128>) -> Option<Instant> {
    match nanos {
        Some(n) => if n / NANOS_PER_SECOND <= i64::MAX && rfc3339_text(
            instant_after(n).secs,
            instant_after(n).nanos,
        ) is Some {
            Some(instant_after(n))
        } else {
            None
        },
        None => None,
    }
}

/// `DateTime::from_timestamp` of `chrono`, followed by
/// `DateTime::to_rfc3339_opts` with `SecondsFormat::AutoSi` and a `Z`: the
/// text of a point in time.
#[verifier::external_body]
fn rfc3339_write(secs: i64, nanos: u32) -> (r: Option<String>)
    ensures
        opt_text(r) == rfc3339_text(secs as int, nanos as int),
{
    chrono::DateTime::from_timestamp(secs, nanos).map(
        |t| t.to_rfc3339_opts(chrono::SecondsFormat::AutoSi, true),
    )
}

/// `str::parse` for `chrono`'s `DateTime<Utc>`, taken apart by
/// `DateTime::timestamp` and `DateTime::timestamp_subsec_nanos`: the point
/// in time that a text names. `chrono` has a date and time for what it read.
#[verifier::external_body]
fn rfc3339_read(text: &str) -> (r: Option<(i64, u32)>)
    ensures
        match r {
            Some(t) => rfc3339_instant(text@) == Some((t.0 as int, t.1 as int)) && rfc3339_text(
                t.0 as int,
                t.1 as int,
            ) is Some,
            None => rfc3339_instant(text@) is None,
        },
{
    text.parse::<chrono::DateTime<chrono::Utc>>().ok().map(
        |t| (t.timestamp(), t.timestamp_subsec_nanos()),
    )
}

/// A point in time that has a date and a time of day.
#[derive(Debug, Clone, Copy, PartialEq, Eq)]
pub struct Timestamp {
    secs: i64,
    nanos: u32,
}

impl View for Timestamp {
    type V = Instant;

    closed spec fn view(&self) -> Instant {
        Instant { secs: self.secs as int, nanos: self.nanos as int }
    }
}

impl Timestamp {
    #[verifier::type_invariant]
    spec fn has_text(self) -> bool {
        rfc3339_text(self.secs as int, self.nanos as int) is Some
    }

    /// The point in time with these seconds and nanoseconds, where there is
    /// a date and time for it.
    pub fn new(secs: i64, nanos: u32) -> (r: Option<Timestamp>)
        ensures
            match r {
                Some(t) => t@ == (Instant { secs: secs as int, nanos: nanos as int })
                    && rfc3339_text(secs as int, nanos as int) is Some,
                None => rfc3339_text(secs as int, nanos as int) is None,
            },
    {
        match rfc3339_write(secs, nanos) {
            Some(_) => Some(Timestamp { secs, nanos }),
            None => None,
        }
    }

    /// The point in time that a count of nanoseconds since the start of
    /// 1970 stands for, where there is a count and a date and time for it.
    pub fn from_epoch_nanos(nanos: Option<u128>) -> (r: Option<Timestamp>)
        ensures
            opt_view(r) == instant_of_nanos(nanos),
    {
        match nanos {
            Some(n) => {
                let secs = n / NANOS_PER_SECOND;
                let rest = n % NANOS_PER_SECOND;
                if secs <= 0x7fff_ffff_ffff_ffff {
                    Timestamp::new(secs as i64, rest as u32)
                } else {
                    None
                }
            },
            None => None,
        }
    }

    /// The reading of the system clock; `None` where the clock stands
    /// before 1970 or beyond the dates that can be written.
    pub fn now() -> (r: Option<Timestamp>)
        ensures
            r matches Some(t) ==> 0 <= t@.secs && 0 <= t@.nanos < NANOS_PER_SECOND && rfc3339_text(
                t@.secs,
                t@.nanos,
            ) is Some,
    {
        Timestamp::from_epoch_nanos(clock_nanos())
    }

    /// The whole seconds since the start of 1970.
    pub fn secs(&self) -> (r: i64)
        ensures
            r == self@.secs,
    {
        self.secs
    }

    /// The nanoseconds since the last whole second.
    pub fn nanos(&self) -> (r: u32)
        ensures
            r == self@.nanos,
    {
        self.nanos
    }

    /// Whether this point in time comes strictly before `other`.
    pub fn is_before(&self, other: &Timestamp) -> (r: bool)
        ensures
            r == self@.before(other@),
    {
        self.secs < other.secs || (self.secs == other.secs && self.nanos < other.nanos)
    }

    /// The RFC 3339 text of this point in time.
    pub fn to_text(&self) -> (r: String)
        ensures
            rfc3339_text(self@.secs, self@.nanos) == Some(r@),
    {
        proof {
            use_type_invariant(self);
        }
        match rfc3339_write(self.secs, self.nanos) {
            Some(text) => text,
            None => String::new(),
        }
    }

    /// The point in time that a text names.
    pub fn parse(text: &str) -> (r: Option<Timestamp>)
        ensures
            match r {
                Some(t) => rfc3339_instant(text@) == Some((t@.secs, t@.nanos)),
                None => rfc3339_instant(text@) is None,
            },
    {
        match rfc3339_read(text) {
            Some(t) => Some(Timestamp { secs: t.0, nanos: t.1 }),
            None => None,
        }
    }

    /// Whether this point in time is read back from its own text.
    pub fn survives_text(&self) -> (r: bool)
        ensures
            r == Timestamp::survives(self@),
    {
        let text = self.to_text();
        match rfc3339_read(text.as_str()) {
            Some(t) => t.0 == self.secs && t.1 == self.nanos,
            None => false,
        }
    }
}

impl Wire for Timestamp {
    open spec fn encode(v: Instant) -> JsonValue {
        JsonValue::String(rfc3339_text(v.secs, v.nanos).unwrap())
    }

    open spec fn decode(j: JsonValue) -> Option<Instant> {
        match j {
            JsonValue::String(s) => match rfc3339_instant(s) {
                Some(t) => Some(Instant { secs: t.0, nanos: t.1 }),
                None => None,
            },
            _ => None,
        }
    }

    /// A point in time survives where `chrono` reads it back from the text
    /// that it wrote for it.
    open spec fn survives(v: Instant) -> bool {
        match rfc3339_text(v.secs, v.nanos) {
            Some(text) => rfc3339_instant(text) == Some((v.secs, v.nanos)),
            None => false,
        }
    }

    fn to_json(&self) -> (j: Json) {
        let text = self.to_text();
        Json::String(text)
    }

    fn from_json(j: &Json) -> (r: Option<Timestamp>) {
        match j.as_str() {
            Some(s) => Timestamp::parse(s),
            None => None,
        }
    }

    proof fn lemma_round_trip(v: Instant) {
    }
}

} // verus!
