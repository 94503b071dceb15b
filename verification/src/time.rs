//! UTC instants as plain values, rendered through chrono.
use vstd::prelude::*;

verus! {

/// Seconds and nanoseconds that name an instant chrono can represent: from
/// the first second of January 1, 262143 BCE (year -262143) to the last of
/// December 31, 262142 CE, with a fraction below one second, or below two in
/// the last second of a minute (a leap second).
pub open spec fn timestamp_in_range(secs: i64, nanos: u32) -> bool {
    &&& -8_334_601_228_800 <= secs <= 8_210_266_876_799
    &&& (nanos < 1_000_000_000 || (nanos < 2_000_000_000 && secs % 60 == 59))
}

/// The RFC 3339 text chrono gives the UTC instant `secs`.`nanos` after the
/// Unix epoch.
pub uninterp spec fn rfc3339_utc(secs: i64, nanos: u32) -> Seq<char>;

/// chrono: `DateTime::<Utc>::from_timestamp(secs, nanos)` followed by
/// `to_rfc3339()`. The first call accepts exactly the instants in range (its
/// day count lies inside `NaiveDate`'s years -262143..=262142, and
/// `NaiveTime` takes a fraction of up to two seconds in a second that ends a
/// minute), so the second always runs; the text itself is named, not
/// spelled out.
#[verifier::external_body]
fn chrono_rfc3339(secs: i64, nanos: u32) -> (r: String)
    requires
        timestamp_in_range(secs, nanos),
    ensures
        r@ == rfc3339_utc(secs, nanos),
{
    match chrono::DateTime::from_timestamp(secs, nanos) {
        Some(t) => t.to_rfc3339(),
        None => String::new(),
    }
}

/// The instant an RFC 3339 text denotes, as chrono's `parse_from_rfc3339`
/// reads it, in UTC seconds and nanoseconds; `None` when chrono rejects it.
pub uninterp spec fn rfc3339_instant(text: Seq<char>) -> Option<(i64, u32)>;

/// chrono: `DateTime::parse_from_rfc3339(text)` in UTC seconds and
/// nanoseconds. What it accepts has a four-digit year, an offset of whole
/// minutes and a seconds field of at most 60 (a leap second being kept in
/// the last second of its minute), so the instant lies in range.
#[verifier::external_body]
fn chrono_parse_rfc3339(text: &str) -> (r: Option<(i64, u32)>)
    ensures
        r == rfc3339_instant(text@),
        r matches Some((s, n)) ==> timestamp_in_range(s, n),
{
    match chrono::DateTime::parse_from_rfc3339(text) {
        Ok(dt) => Some((dt.timestamp(), dt.timestamp_subsec_nanos())),
        Err(_) => None,
    }
}

/// chrono: `Utc::now()` in seconds and nanoseconds. It panics on a clock
/// before 1970 and on one past chrono's range (its `from_timestamp(..)
/// .unwrap()`), so the seconds are never negative and the instant is in
/// range; the fraction, a `Duration`'s, is below one second. Which instant
/// it is depends on the clock.
#[verifier::external_body]
fn chrono_now() -> (r: (i64, u32))
    ensures
        r.0 >= 0,
        r.1 < 1_000_000_000,
        timestamp_in_range(r.0, r.1),
{
    let t = chrono::Utc::now();
    (t.timestamp(), t.timestamp_subsec_nanos())
}

/// An instant in UTC, held as seconds since the Unix epoch and nanoseconds.
#[derive(Debug, Clone, Copy)]
pub struct UtcDateTime {
    secs: i64,
    nanos: u32,
}

impl UtcDateTime {
    #[verifier::type_invariant]
    spec fn in_range(self) -> bool {
        timestamp_in_range(self.secs, self.nanos)
    }

    /// Whole seconds since the epoch.
    pub closed spec fn seconds(self) -> i64 {
        self.secs
    }

    /// Nanoseconds past the whole second.
    pub closed spec fn subsec(self) -> u32 {
        self.nanos
    }

    /// The instant `secs`.`nanos` after the epoch, if it is in range.
    pub fn from_timestamp(secs: i64, nanos: u32) -> (r: Option<UtcDateTime>)
        ensures
            r is Some <==> timestamp_in_range(secs, nanos),
            r matches Some(t) ==> t.seconds() == secs && t.subsec() == nanos,
    {
        if secs < -8_334_601_228_800 || secs > 8_210_266_876_799 {
            return None;
        }
        // Shift by a multiple of 60 so the remainder is taken of a natural number.
        let shifted = (secs + 8_334_601_228_800i64) as u64;
        assert(shifted % 60 == secs % 60) by {
            assert(8_334_601_228_800int == 60 * 138_910_020_480int);
            assert((secs + 60 * 138_910_020_480int) % 60 == secs % 60) by (nonlinear_arith);
        }
        if nanos < 1_000_000_000 || (nanos < 2_000_000_000 && shifted % 60 == 59) {
            Some(UtcDateTime { secs, nanos })
        } else {
            None
        }
    }

    /// Whole seconds since the Unix epoch.
    pub fn timestamp(&self) -> (r: i64)
        ensures
            r == self.seconds(),
    {
        self.secs
    }

    /// Nanoseconds past the whole second.
    pub fn timestamp_subsec_nanos(&self) -> (r: u32)
        ensures
            r == self.subsec(),
    {
        self.nanos
    }

    /// The instant an RFC 3339 text denotes, when chrono accepts it.
    pub fn parse_rfc3339(text: &str) -> (r: Option<UtcDateTime>)
        ensures
            match r {
                Some(t) => rfc3339_instant(text@) == Some((t.seconds(), t.subsec())),
                None => rfc3339_instant(text@) is None,
            },
    {
        match chrono_parse_rfc3339(text) {
            Some((secs, nanos)) => UtcDateTime::from_timestamp(secs, nanos),
            None => None,
        }
    }

    /// The current instant: never before the epoch, with a fraction below one
    /// second.
    pub(crate) fn now() -> (r: UtcDateTime)
        ensures
            r.seconds() >= 0,
            r.subsec() < 1_000_000_000,
    {
        let (secs, nanos) = chrono_now();
        UtcDateTime { secs, nanos }
    }

    /// The instant in RFC 3339 form, as chrono renders it.
    pub fn to_rfc3339(&self) -> (r: String)
        ensures
            r@ == rfc3339_utc(self.seconds(), self.subsec()),
    {
        proof {
            use_type_invariant(self);
        }
        chrono_rfc3339(self.secs, self.nanos)
    }
}

} // verus!
