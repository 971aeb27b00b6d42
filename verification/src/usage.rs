//! The usage and reset-credit responses of the Codex backend, and what the
//! popup shows of them.
//!
//! JSON decoding happens before these functions: they take the decoded fields
//! as plain values.  A usage percentage is carried as an integer count of
//! `2^-52` percent (`PERCENT_UNIT` to the percent), a binary fixed point that
//! holds every `f64` percentage from 1 up exactly: `61.5` % is
//! `61.5 * 2^52`.

use vstd::prelude::*;
use crate::text::{chars_of, trim, trimmed};

verus! {

/// One percent, in the unit that usage shares are counted in (`2^52`).
pub const PERCENT_UNIT: u64 = 4_503_599_627_370_496;

/// A whole window, 100 %, in that unit.
pub const FULL_SHARE: u64 = 450_359_962_737_049_600;

/// One rate-limit window as the popup shows it.
#[derive(Clone, Copy, Debug, Default, PartialEq, Eq, Structural)]
pub struct UsageWindow {
    /// Used share of the window, `PERCENT_UNIT` to the percent, within
    /// `0..=FULL_SHARE`.
    pub used_share: u64,
    /// Unix time (seconds) at which the window resets, where known.
    pub reset_at: Option<i64>,
}

/// What one usage request yields.
#[derive(Clone, Debug, Default, PartialEq, Eq)]
pub struct UsageSnapshot {
    pub email: Option<String>,
    pub plan_type: Option<String>,
    /// The five-hour window.
    pub primary: Option<UsageWindow>,
    /// The weekly window.
    pub secondary: Option<UsageWindow>,
    pub reset_credit_count: Option<u32>,
    /// Unix time (seconds) at which the snapshot was taken.
    pub fetched_at: i64,
}

/// What one reset-credit request yields.
#[derive(Clone, Copy, Debug, Default, PartialEq, Eq, Structural)]
pub struct ResetCreditsSnapshot {
    pub available_count: u32,
    pub earliest_expires_at: Option<i64>,
}

/// A rate-limit window as the backend reports it.
#[derive(Clone, Copy, Debug, Default, PartialEq, Eq, Structural)]
pub struct RawWindow {
    /// `used_percent`, `PERCENT_UNIT` to the percent, where present.
    pub used_share: Option<i64>,
    pub reset_at: Option<i64>,
    pub reset_after_seconds: Option<i64>,
}

/// The `rate_limit` object of a usage response.
#[derive(Clone, Copy, Debug, Default, PartialEq, Eq, Structural)]
pub struct RawRateLimit {
    pub primary_window: Option<RawWindow>,
    pub secondary_window: Option<RawWindow>,
}

/// The `rate_limit_reset_credits` object of a usage response.
#[derive(Clone, Copy, Debug, Default, PartialEq, Eq, Structural)]
pub struct RawResetCreditsSummary {
    pub available_count: Option<u32>,
}

/// A usage response.
#[derive(Clone, Debug, Default, PartialEq, Eq)]
pub struct RawUsageResponse {
    pub email: Option<String>,
    pub plan_type: Option<String>,
    pub rate_limit: Option<RawRateLimit>,
    pub rate_limit_reset_credits: Option<RawResetCreditsSummary>,
}

/// One entry of the `credits` list of a reset-credit response.
#[derive(Clone, Debug, Default, PartialEq, Eq)]
pub struct RawResetCredit {
    pub status: Option<String>,
    pub expires_at: Option<String>,
}

/// A reset-credit response; a missing `credits` list is an empty one.
#[derive(Clone, Debug, Default, PartialEq, Eq)]
pub struct RawResetCreditsResponse {
    pub available_count: Option<u32>,
    pub credits: Vec<RawResetCredit>,
}

/// The characters of an optional string.
pub open spec fn opt_view(o: Option<String>) -> Option<Seq<char>> {
    match o {
        Some(s) => Some(s@),
        None => None,
    }
}

/// A timestamp in milliseconds (anything above 10^12) is brought to seconds.
pub open spec fn spec_normalize_timestamp(t: int) -> int {
    if t > 1_000_000_000_000 {
        t / 1000
    } else {
        t
    }
}

/// Brings a millisecond timestamp to seconds; a timestamp in seconds is kept.
pub fn normalize_timestamp(timestamp: i64) -> (t: i64)
    ensures
        t == spec_normalize_timestamp(timestamp as int),
{
    if timestamp > 1_000_000_000_000 {
        timestamp / 1000
    } else {
        timestamp
    }
}

/// The trimmed string, where it is not empty.
pub open spec fn spec_clean(o: Option<Seq<char>>) -> Option<Seq<char>> {
    match o {
        Some(s) => if trimmed(s).len() > 0 {
            Some(trimmed(s))
        } else {
            None
        },
        None => None,
    }
}

/// Trims a string and drops it when nothing is left.
pub fn clean_string(value: Option<String>) -> (out: Option<String>)
    ensures
        opt_view(out) == spec_clean(opt_view(value)),
{
    match value {
        Some(s) => {
            let t = trim(s.as_str());
            if t.as_str().is_empty() {
                None
            } else {
                Some(t)
            }
        },
        None => None,
    }
}

/// A cleaned string is not empty and has no whitespace at either end.
pub proof fn lemma_clean_is_trimmed(o: Option<Seq<char>>)
    ensures
        spec_clean(o) matches Some(s) ==> s.len() > 0 && trimmed(s) == s,
{
    if let Some(s) = o {
        crate::text::lemma_trimmed_idempotent(s);
    }
}

/// A timestamp in milliseconds and the same instant in seconds normalise
/// alike, for instants after 2001-09-09 (10^9 s) and up to 10^12 s.
pub proof fn lemma_milliseconds_match_seconds(t: int)
    requires
        1_000_000_000 < t <= 1_000_000_000_000,
    ensures
        spec_normalize_timestamp(t * 1000) == t,
        spec_normalize_timestamp(t) == t,
{
}

/// A share clamped to `0..=FULL_SHARE` (0 % to 100 %).
pub open spec fn clamp_share(v: i64) -> u64 {
    if v < 0 {
        0
    } else if v > FULL_SHARE {
        FULL_SHARE
    } else {
        v as u64
    }
}

/// When a window resets: `reset_at` (normalised to seconds), else `now` plus a
/// non-negative `reset_after_seconds`.
pub open spec fn window_reset_at(w: RawWindow, now: i64) -> Option<i64> {
    match w.reset_at {
        Some(t) => Some(spec_normalize_timestamp(t as int) as i64),
        None => match w.reset_after_seconds {
            Some(s) => if s >= 0 {
                Some((now + s) as i64)
            } else {
                None
            },
            None => None,
        },
    }
}

/// A window with a usage figure, clamped, and its reset time.
pub open spec fn spec_normalize_window(w: RawWindow, now: i64) -> Option<UsageWindow> {
    match w.used_share {
        Some(v) => Some(
            UsageWindow { used_share: clamp_share(v), reset_at: window_reset_at(w, now) },
        ),
        None => None,
    }
}

/// `now` plus the window's reset delay fits in an `i64` wherever it is computed.
pub open spec fn reset_delay_fits(w: RawWindow, now: i64) -> bool {
    (w.used_share is Some && w.reset_at is None && w.reset_after_seconds is Some
        && w.reset_after_seconds->0 >= 0) ==> now + w.reset_after_seconds->0 <= i64::MAX
}

/// A normalised window's usage lies within 0 % and 100 %.
pub proof fn lemma_window_used_in_range(w: RawWindow, now: i64)
    ensures
        spec_normalize_window(w, now) matches Some(u) ==> u.used_share <= FULL_SHARE,
{
}

/// Normalises one window: no usage figure, no window.
pub fn normalize_window(window: &RawWindow, now: i64) -> (out: Option<UsageWindow>)
    requires
        reset_delay_fits(*window, now),
    ensures
        out == spec_normalize_window(*window, now),
{
    let used = match window.used_share {
        Some(v) => v,
        None => return None,
    };
    let used_share: u64 = if used < 0 {
        0
    } else if used > FULL_SHARE as i64 {
        FULL_SHARE
    } else {
        used as u64
    };
    let reset_at = match window.reset_at {
        Some(t) => Some(normalize_timestamp(t)),
        None => match window.reset_after_seconds {
            Some(s) => if s >= 0 {
                Some(now + s)
            } else {
                None
            },
            None => None,
        },
    };
    Some(UsageWindow { used_share, reset_at })
}

/// The primary window of a response, where there is one.
pub open spec fn raw_primary(raw: RawUsageResponse) -> Option<RawWindow> {
    match raw.rate_limit {
        Some(l) => l.primary_window,
        None => None,
    }
}

/// The secondary window of a response, where there is one.
pub open spec fn raw_secondary(raw: RawUsageResponse) -> Option<RawWindow> {
    match raw.rate_limit {
        Some(l) => l.secondary_window,
        None => None,
    }
}

/// A window normalised, where there is one.
pub open spec fn spec_window_of(w: Option<RawWindow>, now: i64) -> Option<UsageWindow> {
    match w {
        Some(w) => spec_normalize_window(w, now),
        None => None,
    }
}

/// The window's reset delay, if any, can be added to `now`.
pub open spec fn window_fits(w: Option<RawWindow>, now: i64) -> bool {
    match w {
        Some(w) => reset_delay_fits(w, now),
        None => true,
    }
}

/// Every reset delay of the response can be added to `now`.
pub open spec fn usage_fits(raw: RawUsageResponse, now: i64) -> bool {
    window_fits(raw_primary(raw), now) && window_fits(raw_secondary(raw), now)
}

/// The reset-credit count that a usage response carries.
pub open spec fn raw_reset_credit_count(raw: RawUsageResponse) -> Option<u32> {
    match raw.rate_limit_reset_credits {
        Some(summary) => summary.available_count,
        None => None,
    }
}

/// What a usage response taken at `now` becomes.
pub open spec fn is_usage_snapshot(snap: UsageSnapshot, raw: RawUsageResponse, now: i64) -> bool {
    &&& opt_view(snap.email) == spec_clean(opt_view(raw.email))
    &&& opt_view(snap.plan_type) == spec_clean(opt_view(raw.plan_type))
    &&& snap.primary == spec_window_of(raw_primary(raw), now)
    &&& snap.secondary == spec_window_of(raw_secondary(raw), now)
    &&& snap.reset_credit_count == raw_reset_credit_count(raw)
    &&& snap.fetched_at == now
}

fn window_of(w: &Option<RawWindow>, now: i64) -> (out: Option<UsageWindow>)
    requires
        window_fits(*w, now),
    ensures
        out == spec_window_of(*w, now),
{
    match w {
        Some(w) => normalize_window(w, now),
        None => None,
    }
}

/// Turns a usage response taken at `now` into a snapshot.
pub fn usage_snapshot_at(raw: RawUsageResponse, now: i64) -> (snap: UsageSnapshot)
    requires
        usage_fits(raw, now),
    ensures
        is_usage_snapshot(snap, raw, now),
{
    let (primary, secondary) = match &raw.rate_limit {
        Some(limit) => (window_of(&limit.primary_window, now), window_of(&limit.secondary_window, now)),
        None => (None, None),
    };
    let reset_credit_count = match &raw.rate_limit_reset_credits {
        Some(summary) => summary.available_count,
        None => None,
    };
    UsageSnapshot {
        email: clean_string(raw.email),
        plan_type: clean_string(raw.plan_type),
        primary,
        secondary,
        reset_credit_count,
        fetched_at: now,
    }
}

#[verifier::external_type_specification]
#[verifier::external_body]
pub struct ExSystemTime(std::time::SystemTime);

/// The system clock's current reading; wraps `SystemTime::now`.  Nothing is
/// stated of it: it depends on the clock.
#[verifier::external_body]
fn system_time_now() -> (t: std::time::SystemTime) {
    std::time::SystemTime::now()
}

/// The time from the Unix epoch to `t`; wraps
/// `SystemTime::duration_since(UNIX_EPOCH)`, `None` where `t` lies before the
/// epoch.  The value depends on what `t` holds, which Verus does not see, so
/// nothing more is stated.
#[verifier::external_body]
fn duration_since_epoch(t: &std::time::SystemTime) -> (d: Option<core::time::Duration>) {
    match t.duration_since(std::time::UNIX_EPOCH) {
        Ok(d) => Some(d),
        Err(_) => None,
    }
}

/// The whole seconds of a duration; wraps `Duration::as_secs`.  Nothing is
/// stated: Verus does not see inside a `Duration`.
#[verifier::external_body]
fn whole_seconds(d: &core::time::Duration) -> (s: u64) {
    d.as_secs()
}

/// Why a usage response could not be stamped with the current time.
#[derive(Clone, Copy, Debug, PartialEq, Eq, Structural)]
pub enum ClockError {
    /// The system clock reads before 1970, or beyond what an `i64` holds.
    Unreadable,
    /// A reset delay of the response cannot be added to the clock reading
    /// `now` without overflowing an `i64`.
    ResetOutOfRange { now: i64 },
}

/// The message for a clock error.
pub open spec fn spec_clock_error_message(e: ClockError) -> Seq<char> {
    match e {
        ClockError::Unreadable => "The system clock cannot be read"@,
        ClockError::ResetOutOfRange { .. } => "Invalid usage response: reset time out of range"@,
    }
}

impl ClockError {
    /// The message shown for the error.
    pub fn message(&self) -> (m: String)
        ensures
            m@ == spec_clock_error_message(*self),
    {
        match self {
            ClockError::Unreadable => String::from_str("The system clock cannot be read"),
            ClockError::ResetOutOfRange { .. } => String::from_str(
                "Invalid usage response: reset time out of range",
            ),
        }
    }
}

/// Whether every reset delay of a response can be added to `now` (tested at
/// run time).
fn usage_fits_at(raw: &RawUsageResponse, now: i64) -> (b: bool)
    ensures
        b == usage_fits(*raw, now),
{
    let primary = match &raw.rate_limit {
        Some(l) => l.primary_window,
        None => None,
    };
    let secondary = match &raw.rate_limit {
        Some(l) => l.secondary_window,
        None => None,
    };
    window_fits_at(&primary, now) && window_fits_at(&secondary, now)
}

fn window_fits_at(w: &Option<RawWindow>, now: i64) -> (b: bool)
    ensures
        b == window_fits(*w, now),
{
    match w {
        Some(w) => {
            if w.used_share.is_some() && w.reset_at.is_none() {
                match w.reset_after_seconds {
                    Some(s) => s < 0 || now <= i64::MAX - s,
                    None => true,
                }
            } else {
                true
            }
        },
        None => true,
    }
}

/// Turns a usage response into a snapshot stamped with the clock reading
/// `secs` (seconds since the Unix epoch; `None` where the clock read before
/// it).  Fails where there is no reading or it exceeds an `i64`, and where a
/// reset delay of the response cannot be added to it.
pub fn usage_at_reading(raw: RawUsageResponse, secs: Option<u64>) -> (res: Result<
    UsageSnapshot,
    ClockError,
>)
    ensures
        match secs {
            Some(t) => if t <= i64::MAX {
                if usage_fits(raw, t as i64) {
                    res matches Ok(snap) && snap.fetched_at == t && is_usage_snapshot(
                        snap,
                        raw,
                        t as i64,
                    )
                } else {
                    res == Err::<UsageSnapshot, ClockError>(
                        ClockError::ResetOutOfRange { now: t as i64 },
                    )
                }
            } else {
                res == Err::<UsageSnapshot, ClockError>(ClockError::Unreadable)
            },
            None => res == Err::<UsageSnapshot, ClockError>(ClockError::Unreadable),
        },
{
    let now = match secs {
        Some(t) => if t <= i64::MAX as u64 {
            t as i64
        } else {
            return Err(ClockError::Unreadable);
        },
        None => return Err(ClockError::Unreadable),
    };
    if !usage_fits_at(&raw, now) {
        return Err(ClockError::ResetOutOfRange { now });
    }
    Ok(usage_snapshot_at(raw, now))
}

/// The seconds since the Unix epoch that the system clock reads, `None`
/// where it reads before the epoch.
fn clock_seconds() -> (secs: Option<u64>) {
    let reading = system_time_now();
    match duration_since_epoch(&reading) {
        Some(d) => Some(whole_seconds(&d)),
        None => None,
    }
}

/// Turns a usage response into a snapshot stamped with the system clock's
/// reading: what `usage_at_reading` gives for the seconds the clock reads
/// since the Unix epoch (a clock before the epoch gives no reading).  Which
/// reading that is depends on the clock.
pub fn parse_usage(raw: RawUsageResponse) -> (res: Result<UsageSnapshot, ClockError>)
    ensures
        match res {
            Ok(snap) => snap.fetched_at >= 0 && usage_fits(raw, snap.fetched_at)
                && is_usage_snapshot(snap, raw, snap.fetched_at),
            Err(ClockError::ResetOutOfRange { now }) => now >= 0 && !usage_fits(raw, now),
            Err(ClockError::Unreadable) => true,
        },
{
    let secs = clock_seconds();
    usage_at_reading(raw, secs)
}

/// The word "available", which marks a usable reset credit.
pub open spec fn available_word() -> Seq<char> {
    seq!['a', 'v', 'a', 'i', 'l', 'a', 'b', 'l', 'e']
}

/// ASCII upper-case letters folded to lower case; every other character kept.
pub open spec fn ascii_lower(c: char) -> char {
    if 65 <= (c as u32) <= 90 {
        ((c as u32) + 32) as char
    } else {
        c
    }
}

/// Equality up to ASCII case (what `str::eq_ignore_ascii_case` decides).
pub open spec fn eq_ignore_ascii_case(a: Seq<char>, b: Seq<char>) -> bool {
    &&& a.len() == b.len()
    &&& forall|i: int| 0 <= i < a.len() ==> ascii_lower(#[trigger] a[i]) == ascii_lower(b[i])
}

/// A status that marks an available credit: none, or "available" in any
/// ASCII case.
pub open spec fn status_available(status: Option<String>) -> bool {
    match status {
        Some(s) => eq_ignore_ascii_case(s@, available_word()),
        None => true,
    }
}

/// A credit counts as available when its status says so.
pub open spec fn credit_is_available(c: RawResetCredit) -> bool {
    status_available(c.status)
}

fn to_ascii_lower(c: char) -> (out: char)
    ensures
        out == ascii_lower(c),
{
    let v = c as u32;
    if 65 <= v && v <= 90 {
        ((v + 32) as u8) as char
    } else {
        c
    }
}

fn status_is_available(status: &Option<String>) -> (b: bool)
    ensures
        b == status_available(*status),
{
    match status {
        None => true,
        Some(s) => {
            let v = chars_of(s.as_str());
            let w: Vec<char> = vec!['a', 'v', 'a', 'i', 'l', 'a', 'b', 'l', 'e'];
            assert(w@ == available_word());
            if v.len() != w.len() {
                return false;
            }
            let mut i: usize = 0;
            while i < v.len()
                invariant
                    i <= v@.len() == w@.len(),
                    v@ == s@,
                    w@ == available_word(),
                    status_available(*status) == eq_ignore_ascii_case(s@, available_word()),
                    forall|j: int| 0 <= j < i ==> ascii_lower(#[trigger] v@[j]) == ascii_lower(w@[j]),
                decreases v@.len() - i,
            {
                if to_ascii_lower(v[i]) != to_ascii_lower(w[i]) {
                    assert(ascii_lower(s@[i as int]) != ascii_lower(available_word()[i as int]));
                    return false;
                }
                i += 1;
            }
            true
        },
    }
}

/// How many credits are available.
pub open spec fn count_available(cs: Seq<RawResetCredit>) -> nat
    decreases cs.len(),
{
    if cs.len() == 0 {
        0
    } else {
        count_available(cs.drop_last()) + if credit_is_available(cs.last()) {
            1nat
        } else {
            0nat
        }
    }
}

/// The smaller of two optional times; a missing one does not count.
pub open spec fn min_opt(a: Option<i64>, b: Option<i64>) -> Option<i64> {
    match (a, b) {
        (Some(x), Some(y)) => Some(if x <= y { x } else { y }),
        (Some(x), None) => Some(x),
        (None, b) => b,
    }
}

/// The expiry that a credit contributes: its parsed `expires_at`, when it is
/// available and has one.
pub open spec fn candidate_expiry(c: RawResetCredit, parsed: Option<i64>) -> Option<i64> {
    if credit_is_available(c) && c.expires_at is Some {
        parsed
    } else {
        None
    }
}

/// The earliest expiry among the available credits, `parsed[i]` being the
/// parsed `expires_at` of `cs[i]`.
pub open spec fn earliest_expiry(cs: Seq<RawResetCredit>, parsed: Seq<Option<i64>>) -> Option<i64>
    decreases cs.len(),
{
    if cs.len() == 0 {
        None
    } else {
        min_opt(
            earliest_expiry(cs.drop_last(), parsed.drop_last()),
            candidate_expiry(cs.last(), parsed.last()),
        )
    }
}

/// The available count of a reset-credit response: the reported one, else the
/// number of available credits (as a `u32`, wrapping as `as u32` does).
pub open spec fn spec_available_count(reported: Option<u32>, cs: Seq<RawResetCredit>) -> u32 {
    match reported {
        Some(n) => n,
        None => count_available(cs) as u32,
    }
}

/// The earliest expiry is no later than the expiry of any available credit,
/// and is the expiry of one of them.
pub proof fn lemma_earliest_expiry_is_minimum(cs: Seq<RawResetCredit>, parsed: Seq<Option<i64>>)
    requires
        cs.len() == parsed.len(),
    ensures
        forall|i: int|
            0 <= i < cs.len() && candidate_expiry(cs[i], parsed[i]) is Some ==> (earliest_expiry(
                cs,
                parsed,
            ) is Some && earliest_expiry(cs, parsed)->0 <= candidate_expiry(cs[i], parsed[i])->0),
        earliest_expiry(cs, parsed) matches Some(e) ==> exists|i: int|
            0 <= i < cs.len() && candidate_expiry(cs[i], parsed[i]) == Some(e),
    decreases cs.len(),
{
    if cs.len() > 0 {
        let n = cs.len() - 1;
        lemma_earliest_expiry_is_minimum(cs.drop_last(), parsed.drop_last());
        assert forall|i: int|
            0 <= i < cs.len() && candidate_expiry(cs[i], parsed[i]) is Some implies (earliest_expiry(
            cs,
            parsed,
        ) is Some && earliest_expiry(cs, parsed)->0 <= candidate_expiry(cs[i], parsed[i])->0) by {
            if i < n {
                assert(cs[i] == cs.drop_last()[i]);
                assert(parsed[i] == parsed.drop_last()[i]);
            }
        }
        if let Some(e) = earliest_expiry(cs, parsed) {
            if candidate_expiry(cs.last(), parsed.last()) == Some(e) {
                assert(candidate_expiry(cs[n], parsed[n]) == Some(e));
            } else {
                let j = choose|j: int|
                    0 <= j < cs.drop_last().len() && candidate_expiry(
                        cs.drop_last()[j],
                        parsed.drop_last()[j],
                    ) == Some(e);
                assert(cs[j] == cs.drop_last()[j]);
                assert(parsed[j] == parsed.drop_last()[j]);
            }
        }
    }
}

/// Sums up a reset-credit response, given the parsed `expires_at` of each
/// credit (`parsed[i]` for `credits[i]`; entries of credits without one are
/// ignored).
pub fn summarize_reset_credits(
    available_count: Option<u32>,
    credits: &Vec<RawResetCredit>,
    parsed: &Vec<Option<i64>>,
) -> (snap: ResetCreditsSnapshot)
    requires
        parsed@.len() == credits@.len(),
    ensures
        snap.available_count == spec_available_count(available_count, credits@),
        snap.earliest_expires_at == earliest_expiry(credits@, parsed@),
{
    let mut count: usize = 0;
    let mut earliest: Option<i64> = None;
    let mut i: usize = 0;
    while i < credits.len()
        invariant
            i <= credits@.len() == parsed@.len(),
            count == count_available(credits@.take(i as int)),
            count <= i,
            earliest == earliest_expiry(credits@.take(i as int), parsed@.take(i as int)),
        decreases credits@.len() - i,
    {
        let credit = &credits[i];
        assert(credits@.take(i + 1).drop_last() == credits@.take(i as int));
        assert(parsed@.take(i + 1).drop_last() == parsed@.take(i as int));
        if status_is_available(&credit.status) {
            count += 1;
            if credit.expires_at.is_some() {
                if let Some(t) = parsed[i] {
                    earliest = match earliest {
                        Some(e) => Some(if e <= t { e } else { t }),
                        None => Some(t),
                    };
                }
            }
        }
        i += 1;
    }
    assert(credits@.take(credits@.len() as int) == credits@);
    assert(parsed@.take(parsed@.len() as int) == parsed@);
    let available = match available_count {
        Some(n) => n,
        None => count as u32,
    };
    ResetCreditsSnapshot { available_count: available, earliest_expires_at: earliest }
}

/// Names the Unix time (seconds) that `DateTime::parse_from_rfc3339` followed by
/// `DateTime::timestamp` gives for a text, `None` where chrono rejects it.
pub uninterp spec fn rfc3339_unix_seconds(text: Seq<char>) -> Option<i64>;

/// Parses an RFC 3339 date-time to Unix seconds; wraps chrono's
/// `DateTime::parse_from_rfc3339` and `DateTime::timestamp`.  The result is
/// claimed to be a function of the text alone (the offset is part of the text).
#[verifier::external_body]
fn parse_rfc3339_seconds(text: &str) -> (t: Option<i64>)
    ensures
        t == rfc3339_unix_seconds(text@),
{
    match chrono::DateTime::parse_from_rfc3339(text) {
        Ok(value) => Some(value.timestamp()),
        Err(_) => None,
    }
}

/// The parsed `expires_at` of a credit, where it has one.
pub open spec fn parsed_expiry(c: RawResetCredit) -> Option<i64> {
    match c.expires_at {
        Some(s) => rfc3339_unix_seconds(s@),
        None => None,
    }
}

/// Sums up a reset-credit response: the available count and the earliest
/// expiry among available credits whose expiry parses as RFC 3339.
pub fn parse_reset_credits(raw: &RawResetCreditsResponse) -> (snap: ResetCreditsSnapshot)
    ensures
        snap.available_count == spec_available_count(raw.available_count, raw.credits@),
        snap.earliest_expires_at == earliest_expiry(
            raw.credits@,
            Seq::new(raw.credits@.len(), |i: int| parsed_expiry(raw.credits@[i])),
        ),
{
    let mut parsed: Vec<Option<i64>> = Vec::new();
    let mut i: usize = 0;
    while i < raw.credits.len()
        invariant
            i <= raw.credits@.len(),
            parsed@.len() == i,
            forall|j: int| 0 <= j < i ==> parsed@[j] == parsed_expiry(#[trigger] raw.credits@[j]),
        decreases raw.credits@.len() - i,
    {
        let t = match &raw.credits[i].expires_at {
            Some(s) => parse_rfc3339_seconds(s.as_str()),
            None => None,
        };
        parsed.push(t);
        i += 1;
    }
    assert(parsed@ == Seq::new(raw.credits@.len(), |i: int| parsed_expiry(raw.credits@[i])));
    summarize_reset_credits(raw.available_count, &raw.credits, &parsed)
}

} // verus!
