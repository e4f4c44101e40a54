//! Image timestamps, in seconds since the Unix epoch.
use vstd::prelude::*;

verus! {

/// The character is one of the ASCII decimal digits.
pub open spec fn is_digit(c: char) -> bool {
    '0' <= c && c <= '9'
}

/// A non-empty run of decimal digits.
pub open spec fn all_digits(s: Seq<char>) -> bool {
    s.len() > 0 && forall|i: int| 0 <= i < s.len() ==> is_digit(#[trigger] s[i])
}

/// The value of a run of decimal digits, most significant first.
pub open spec fn digits_value(s: Seq<char>) -> int
    decreases s.len(),
{
    if s.len() == 0 {
        0
    } else {
        digits_value(s.drop_last()) * 10 + (s.last() as int - '0' as int)
    }
}

/// The integer written in decimal, with an optional leading `+` or `-`.
pub open spec fn decimal_value(s: Seq<char>) -> Option<int> {
    if s.len() > 0 && s[0] == '-' && all_digits(s.skip(1)) {
        Some(-digits_value(s.skip(1)))
    } else if s.len() > 0 && s[0] == '+' && all_digits(s.skip(1)) {
        Some(digits_value(s.skip(1)))
    } else if all_digits(s) {
        Some(digits_value(s))
    } else {
        None
    }
}

/// What parsing the text as an `i64` yields: a decimal integer that fits.
pub open spec fn parsed_i64(s: Seq<char>) -> Option<i64> {
    match decimal_value(s) {
        Some(v) => if i64::MIN <= v <= i64::MAX {
            Some(v as i64)
        } else {
            None
        },
        None => None,
    }
}

/// The text that chrono writes for a UTC date and time, `None` where the
/// number of seconds lies outside chrono's calendar.
pub uninterp spec fn utc_text(secs: int) -> Option<Seq<char>>;

/// Relies on `<i64 as FromStr>::from_str`: an optional sign followed by one
/// or more decimal digits, whose value fits in `i64`; anything else fails.
#[verifier::external_body]
fn parse_i64(s: &str) -> (r: Option<i64>)
    ensures
        r == parsed_i64(s@),
{
    s.parse::<i64>().ok()
}

/// Relies on chrono's `DateTime::<Utc>::from_timestamp` and its `Display`:
/// the result depends on the number of seconds alone.
#[verifier::external_body]
fn utc_string(secs: i64) -> (r: Option<String>)
    ensures
        match r {
            Some(t) => utc_text(secs as int) == Some(t@),
            None => utc_text(secs as int) is None,
        },
{
    match chrono::DateTime::<chrono::Utc>::from_timestamp(secs, 0) {
        Some(t) => Some(t.to_string()),
        None => None,
    }
}

/// The text did not hold a decimal integer that fits in 64 bits.
#[derive(Debug, Clone, Copy, PartialEq, Eq, Structural)]
pub struct ParseDatetimeError;

/// The time at which an image was built, in seconds since the Unix epoch.
#[derive(Debug, Clone, Copy, PartialEq, Eq, Structural)]
pub struct UpdateDatetime {
    datetime: i64,
}

impl UpdateDatetime {
    /// The number of seconds since the epoch.
    pub closed spec fn epoch_spec(self) -> int {
        self.datetime as int
    }

    /// Two timestamps are equal exactly when they hold the same second.
    pub proof fn lemma_epoch_determines(a: UpdateDatetime, b: UpdateDatetime)
        ensures
            (a.epoch_spec() == b.epoch_spec()) <==> (a == b),
    {
    }

    /// The timestamp of the given second.
    pub fn from_epoch(epoch: i64) -> (r: Self)
        ensures
            r.epoch_spec() == epoch,
    {
        UpdateDatetime { datetime: epoch }
    }

    /// The number of seconds since the epoch.
    pub fn epoch(&self) -> (r: i64)
        ensures
            r == self.epoch_spec(),
    {
        self.datetime
    }

    /// Reads a timestamp written as a decimal number of seconds.
    pub fn from_str(s: &str) -> (r: Result<Self, ParseDatetimeError>)
        ensures
            r is Ok <==> parsed_i64(s@) is Some,
            r matches Ok(d) ==> parsed_i64(s@) matches Some(v) && d.epoch_spec() == v,
    {
        match parse_i64(s) {
            Some(v) => Ok(UpdateDatetime::from_epoch(v)),
            None => Err(ParseDatetimeError),
        }
    }

    /// This timestamp is strictly later than `other`.
    pub fn is_newer_than(&self, other: &UpdateDatetime) -> (r: bool)
        ensures
            r == (self.epoch_spec() > other.epoch_spec()),
    {
        self.datetime > other.datetime
    }

    /// The timestamp as a UTC date and time, as in `2023-11-14 22:13:20 UTC`;
    /// `None` where it lies outside the calendar.
    pub fn to_utc_string(&self) -> (r: Option<String>)
        ensures
            match r {
                Some(t) => utc_text(self.epoch_spec()) == Some(t@),
                None => utc_text(self.epoch_spec()) is None,
            },
    {
        utc_string(self.datetime)
    }
}

} // verus!
