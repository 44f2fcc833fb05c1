//! The moment of a signature: one timestamp and the UTC date that belongs to it.
//!
//! The `X-TC-Timestamp` header, the string to sign and the credential scope
//! must all come from the same instant. A [`SignatureContext`] is made once
//! per request and handed to everything that needs the time.

use vstd::prelude::*;

verus! {

/// The UTC calendar date of a Unix time in seconds, written as chrono writes
/// a date (`2021-01-01`), or `None` for a time outside chrono's calendar.
pub uninterp spec fn utc_date_of(timestamp: i64) -> Option<Seq<char>>;

/// Calls `chrono::DateTime::from_timestamp` and, on the time it returns,
/// `naive_utc`, `date` and `to_string`.
///
/// Trusted: the text returned is chrono's UTC date of `timestamp`, and `None`
/// comes back exactly when chrono has no date for it.
#[verifier::external_body]
fn utc_date(timestamp: i64) -> (date: Option<String>)
    ensures
        match date {
            Some(text) => utc_date_of(timestamp) == Some(text@),
            None => utc_date_of(timestamp) is None,
        },
{
    match chrono::DateTime::from_timestamp(timestamp, 0) {
        Some(time) => Some(time.naive_utc().date().to_string()),
        None => None,
    }
}

/// A timestamp together with its UTC date.
#[derive(Debug)]
pub struct SignatureContext {
    timestamp: i64,
    date: String,
}

/// What a [`SignatureContext`] holds, as mathematical values.
pub struct SignatureContextView {
    pub timestamp: int,
    pub date: Seq<char>,
}

impl View for SignatureContext {
    type V = SignatureContextView;

    closed spec fn view(&self) -> SignatureContextView {
        SignatureContextView { timestamp: self.timestamp as int, date: self.date@ }
    }
}

impl SignatureContext {
    #[verifier::type_invariant]
    spec fn date_belongs_to_timestamp(self) -> bool {
        utc_date_of(self.timestamp) == Some(self.date@)
    }

    /// Whether `date` is the UTC date of the timestamp `seconds`.
    pub open spec fn is_date_of(date: Seq<char>, seconds: int) -> bool {
        &&& i64::MIN <= seconds <= i64::MAX
        &&& utc_date_of(seconds as i64) == Some(date)
    }

    /// Captures the time `timestamp`, in seconds since the Unix epoch.
    ///
    /// Returns `None` exactly when the timestamp has no calendar date.
    pub fn at(timestamp: i64) -> (context: Option<Self>)
        ensures
            context is Some <==> utc_date_of(timestamp) is Some,
            context matches Some(c) ==> c@.timestamp == timestamp && utc_date_of(timestamp) == Some(
                c@.date,
            ),
    {
        match utc_date(timestamp) {
            Some(date) => Some(SignatureContext { timestamp, date }),
            None => None,
        }
    }

    /// The captured time in seconds since the Unix epoch.
    pub fn timestamp(&self) -> (seconds: i64)
        ensures
            seconds == self@.timestamp,
    {
        self.timestamp
    }

    /// The UTC date of the captured time.
    pub fn date(&self) -> (date: &str)
        ensures
            date@ == self@.date,
            Self::is_date_of(date@, self@.timestamp),
    {
        proof {
            use_type_invariant(self);
        }
        self.date.as_str()
    }
}

} // verus!
