//! The rate-limit window reported by the API in three response headers.
use std::sync::atomic::{AtomicI64, AtomicU16, Ordering};
use vstd::prelude::*;

verus! {

/// A decimal digit.
pub open spec fn is_digit(c: char) -> bool {
    '0' <= c && c <= '9'
}

/// A non-empty run of decimal digits.
pub open spec fn is_digits(s: Seq<char>) -> bool {
    s.len() > 0 && forall|i: int| 0 <= i < s.len() ==> #[trigger] is_digit(s[i])
}

/// The number that a run of decimal digits spells.
pub open spec fn digits_value(s: Seq<char>) -> nat
    decreases s.len(),
{
    if s.len() == 0 {
        0
    } else {
        digits_value(s.drop_last()) * 10 + ((s.last() as int) - ('0' as int)) as nat
    }
}

/// The text of an unsigned decimal integer: an optional `+`, then digits.
pub open spec fn unsigned_text_value(s: Seq<char>) -> Option<nat> {
    if s.len() > 0 && s[0] == '+' && is_digits(s.skip(1)) {
        Some(digits_value(s.skip(1)))
    } else if is_digits(s) {
        Some(digits_value(s))
    } else {
        None
    }
}

/// The text of a signed decimal integer: an optional `+` or `-`, then digits.
pub open spec fn signed_text_value(s: Seq<char>) -> Option<int> {
    if s.len() > 0 && s[0] == '-' && is_digits(s.skip(1)) {
        Some(-digits_value(s.skip(1)))
    } else {
        match unsigned_text_value(s) {
            Some(n) => Some(n as int),
            None => None,
        }
    }
}

/// What reading `s` as a `u16` gives: `None` unless it is decimal text in range.
pub open spec fn u16_of_text(s: Seq<char>) -> Option<u16> {
    match unsigned_text_value(s) {
        Some(n) => if n <= u16::MAX {
            Some(n as u16)
        } else {
            None
        },
        None => None,
    }
}

/// What reading `s` as an `i64` gives: `None` unless it is decimal text in range.
pub open spec fn i64_of_text(s: Seq<char>) -> Option<i64> {
    match signed_text_value(s) {
        Some(n) => if i64::MIN <= n && n <= i64::MAX {
            Some(n as i64)
        } else {
            None
        },
        None => None,
    }
}

/// Relies on `<u16 as FromStr>::from_str`: an optional `+` followed by decimal
/// digits, rejected when empty, when any other character occurs, or when out of range.
#[verifier::external_body]
fn parse_u16(s: &str) -> (r: Option<u16>)
    ensures
        r == u16_of_text(s@),
{
    s.parse::<u16>().ok()
}

/// Relies on `<i64 as FromStr>::from_str`: an optional `+` or `-` followed by
/// decimal digits, rejected when empty, when any other character occurs, or when out of range.
#[verifier::external_body]
fn parse_i64(s: &str) -> (r: Option<i64>)
    ensures
        r == i64_of_text(s@),
{
    s.parse::<i64>().ok()
}

/// The value of an optional header text read as a `u16`.
pub open spec fn header_u16(h: Option<String>) -> Option<u16> {
    match h {
        Some(s) => u16_of_text(s@),
        None => None,
    }
}

/// The value of an optional header text read as an `i64`.
pub open spec fn header_i64(h: Option<String>) -> Option<i64> {
    match h {
        Some(s) => i64_of_text(s@),
        None => None,
    }
}

fn read_u16(h: &Option<String>) -> (r: Option<u16>)
    ensures
        r == header_u16(*h),
{
    match h {
        Some(s) => parse_u16(s.as_str()),
        None => None,
    }
}

fn read_i64(h: &Option<String>) -> (r: Option<i64>)
    ensures
        r == header_i64(*h),
{
    match h {
        Some(s) => parse_i64(s.as_str()),
        None => None,
    }
}

/// The three rate-limit headers of one response (`X-Rate-Limit-Limit`,
/// `X-Rate-Limit-Remaining`, `X-Rate-Limit-Reset`) as text, each `None` where
/// the header is absent or its value is not text.
pub struct RateHeaders {
    pub limit: Option<String>,
    pub remaining: Option<String>,
    pub reset: Option<String>,
}

/// The cells that one response sets: `None` leaves a cell as it was.
#[derive(Clone, Copy, Debug, PartialEq, Eq, Structural)]
pub struct RateUpdate {
    pub limit: Option<u16>,
    pub remaining: Option<u16>,
    pub reset: Option<i64>,
}

/// The update that a response's headers call for: each cell whose header
/// reads as a number of the cell's type takes that number.
pub open spec fn update_of(h: RateHeaders) -> RateUpdate {
    RateUpdate {
        limit: header_u16(h.limit),
        remaining: header_u16(h.remaining),
        reset: header_i64(h.reset),
    }
}

impl RateUpdate {
    /// Reads the three header texts, each on its own.
    pub fn from_headers(h: &RateHeaders) -> (r: RateUpdate)
        ensures
            r == update_of(*h),
    {
        RateUpdate {
            limit: read_u16(&h.limit),
            remaining: read_u16(&h.remaining),
            reset: read_i64(&h.reset),
        }
    }
}

/// A snapshot of the throttling window: requests allowed per window, requests
/// left in it, and seconds until it resets.
#[derive(Clone, Copy, Debug, PartialEq, Eq, Structural)]
pub struct RateLimit {
    pub limit: u16,
    pub remaining: u16,
    pub reset: i64,
}

impl RateLimit {
    /// The window as it is after `u`: each cell that `u` sets takes the new
    /// value, every other cell keeps its own.
    pub open spec fn after(self, u: RateUpdate) -> RateLimit {
        RateLimit {
            limit: match u.limit {
                Some(v) => v,
                None => self.limit,
            },
            remaining: match u.remaining {
                Some(v) => v,
                None => self.remaining,
            },
            reset: match u.reset {
                Some(v) => v,
                None => self.reset,
            },
        }
    }

    /// The window before any response has been seen: every cell zero.
    pub fn new() -> (r: RateLimit)
        ensures
            r == (RateLimit { limit: 0, remaining: 0, reset: 0 }),
    {
        RateLimit { limit: 0, remaining: 0, reset: 0 }
    }

    /// Applies the update of one response.
    pub fn apply(&mut self, u: &RateUpdate)
        ensures
            *final(self) == old(self).after(*u),
    {
        if let Some(v) = u.limit {
            self.limit = v;
        }
        if let Some(v) = u.remaining {
            self.remaining = v;
        }
        if let Some(v) = u.reset {
            self.reset = v;
        }
    }

    /// Applies what the headers of one response call for.
    pub fn observe(&mut self, h: &RateHeaders)
        ensures
            *final(self) == old(self).after(update_of(*h)),
    {
        let u = RateUpdate::from_headers(h);
        self.apply(&u);
    }
}

/// When all three headers read as numbers, the window afterwards is exactly
/// those three numbers, whatever it was before.
pub proof fn lemma_all_headers_set(prev: RateLimit, h: RateHeaders, limit: u16, remaining: u16, reset: i64)
    requires
        header_u16(h.limit) == Some(limit),
        header_u16(h.remaining) == Some(remaining),
        header_i64(h.reset) == Some(reset),
    ensures
        prev.after(update_of(h)) == (RateLimit { limit, remaining, reset }),
{
}

/// A header that is absent or does not read as a number leaves its cell as
/// it was, whatever the other two headers hold.
pub proof fn lemma_unreadable_header_keeps_cell(prev: RateLimit, h: RateHeaders)
    ensures
        header_u16(h.limit) is None ==> prev.after(update_of(h)).limit == prev.limit,
        header_u16(h.remaining) is None ==> prev.after(update_of(h)).remaining == prev.remaining,
        header_i64(h.reset) is None ==> prev.after(update_of(h)).reset == prev.reset,
        h.limit is None ==> prev.after(update_of(h)).limit == prev.limit,
        h.remaining is None ==> prev.after(update_of(h)).remaining == prev.remaining,
        h.reset is None ==> prev.after(update_of(h)).reset == prev.reset,
{
}

/// The window shared by concurrent calls: three cells, each read and written
/// atomically on its own, with no lock across them.
#[derive(Debug)]
pub struct RateTracker {
    limit: AtomicU16,
    remaining: AtomicU16,
    reset: AtomicI64,
}

impl RateTracker {
    /// A tracker whose cells all start at zero.
    pub fn new() -> (r: RateTracker) {
        RateTracker { limit: AtomicU16::new(0), remaining: AtomicU16::new(0), reset: AtomicI64::new(0) }
    }

    /// Stores into each cell the value that the headers give it, and leaves
    /// the others alone; returns the update that was stored.
    pub fn observe(&self, h: &RateHeaders) -> (r: RateUpdate)
        ensures
            r == update_of(*h),
    {
        let u = RateUpdate::from_headers(h);
        if let Some(v) = u.limit {
            self.limit.store(v, Ordering::Relaxed);
        }
        if let Some(v) = u.remaining {
            self.remaining.store(v, Ordering::Relaxed);
        }
        if let Some(v) = u.reset {
            self.reset.store(v, Ordering::Relaxed);
        }
        u
    }

    /// Requests allowed per window, as last reported.
    pub fn limit(&self) -> u16 {
        self.limit.load(Ordering::Relaxed)
    }

    /// Requests left in the current window, as last reported.
    pub fn remaining(&self) -> u16 {
        self.remaining.load(Ordering::Relaxed)
    }

    /// Seconds until the window resets, as last reported.
    pub fn reset(&self) -> i64 {
        self.reset.load(Ordering::Relaxed)
    }

    /// The three cells, each read on its own.
    pub fn snapshot(&self) -> (r: RateLimit) {
        RateLimit { limit: self.limit(), remaining: self.remaining(), reset: self.reset() }
    }
}

} // verus!
