//! What the usage popup shows and how its state moves: the display state and
//! how request results change it, the texts of its rows, identity line, reset
//! credits and footer, and its size.

use vstd::prelude::*;
use crate::text::{
    chars_of, decimal, is_white, is_whitespace, push_char, push_chars, push_decimal, push_str,
    push_two_digits, string_from_chars, trimmed, two_digits,
};
use crate::usage::{opt_view, ResetCreditsSnapshot, UsageSnapshot, UsageWindow, FULL_SHARE, PERCENT_UNIT};

verus! {

// ---------------------------------------------------------------------------
// Display state
// ---------------------------------------------------------------------------

/// Everything the popup shows: the last snapshot, the last reset-credit
/// figures, and the error of the last usage request, if it failed.
#[derive(Clone, Debug, Default, PartialEq, Eq)]
pub struct DisplayState {
    pub snapshot: Option<UsageSnapshot>,
    pub credits: Option<ResetCreditsSnapshot>,
    pub last_error: Option<String>,
}

/// The reset-credit figures after a usage snapshot that reports `count`: a zero
/// count empties them, another count replaces the available count and keeps
/// the known expiry, no count keeps them.
pub open spec fn merge_credit_count(
    credits: Option<ResetCreditsSnapshot>,
    count: Option<u32>,
) -> Option<ResetCreditsSnapshot> {
    match count {
        None => credits,
        Some(n) => if n == 0 {
            Some(ResetCreditsSnapshot { available_count: 0, earliest_expires_at: None })
        } else {
            match credits {
                Some(c) => Some(ResetCreditsSnapshot { available_count: n, ..c }),
                None => Some(ResetCreditsSnapshot { available_count: n, earliest_expires_at: None }),
            }
        },
    }
}

/// Takes in the outcome of a usage request: a snapshot replaces the shown one,
/// clears the error and updates the credit count; an error is kept beside the
/// last snapshot.
pub fn apply_usage_result(state: &mut DisplayState, result: Result<UsageSnapshot, String>)
    ensures
        match result {
            Ok(snap) => {
                &&& final(state).snapshot == Some(snap)
                &&& final(state).last_error is None
                &&& final(state).credits == merge_credit_count(
                    old(state).credits,
                    snap.reset_credit_count,
                )
            },
            Err(e) => {
                &&& final(state).last_error == Some(e)
                &&& final(state).snapshot == old(state).snapshot
                &&& final(state).credits == old(state).credits
            },
        },
{
    match result {
        Ok(snapshot) => {
            if let Some(count) = snapshot.reset_credit_count {
                if count == 0 {
                    state.credits = Some(
                        ResetCreditsSnapshot { available_count: 0, earliest_expires_at: None },
                    );
                } else {
                    match state.credits {
                        Some(c) => {
                            state.credits = Some(
                                ResetCreditsSnapshot {
                                    available_count: count,
                                    earliest_expires_at: c.earliest_expires_at,
                                },
                            );
                        },
                        None => {
                            state.credits = Some(
                                ResetCreditsSnapshot {
                                    available_count: count,
                                    earliest_expires_at: None,
                                },
                            );
                        },
                    }
                }
            }
            state.snapshot = Some(snapshot);
            state.last_error = None;
        },
        Err(error) => {
            state.last_error = Some(error);
        },
    }
}

/// Takes in the outcome of a reset-credit request: new figures replace the
/// shown ones; a failure changes nothing.
pub fn apply_credits_result(state: &mut DisplayState, result: Result<ResetCreditsSnapshot, String>)
    ensures
        final(state).snapshot == old(state).snapshot,
        final(state).last_error == old(state).last_error,
        final(state).credits == (match result {
            Ok(c) => Some(c),
            Err(_) => old(state).credits,
        }),
{
    if let Ok(c) = result {
        state.credits = Some(c);
    }
}

/// The status line: refreshing, failed, updated, or waiting.
pub open spec fn spec_status_text(refreshing: bool, state: DisplayState) -> Seq<char> {
    if refreshing {
        "正在更新…"@
    } else if state.last_error is Some {
        "更新失败"@
    } else if state.snapshot is Some {
        "已更新"@
    } else {
        "等待更新"@
    }
}

/// A failed request shows as failed whatever was shown before: when no
/// request is running and the state holds an error, the status line is
/// "更新失败", whether or not an earlier snapshot is still held; it says
/// "已更新" only without an error.
pub proof fn lemma_popup_error_status_wins(refreshing: bool, state: DisplayState, snapshot: Option<UsageSnapshot>)
    ensures
        !refreshing && state.last_error is Some ==> spec_status_text(refreshing, state)
            == "更新失败"@,
        spec_status_text(refreshing, state) == "已更新"@ ==> !refreshing && state.last_error is None
            && state.snapshot is Some,
        state.last_error is Some ==> spec_status_text(refreshing, state) == spec_status_text(
            refreshing,
            DisplayState { snapshot, ..state },
        ),
{
    reveal_strlit("正在更新…");
    reveal_strlit("已更新");
    reveal_strlit("更新失败");
    reveal_strlit("等待更新");
    assert("正在更新…"@.len() != "已更新"@.len());
    assert("更新失败"@.len() != "已更新"@.len());
    assert("等待更新"@.len() != "已更新"@.len());
}

/// The status line of the popup.
pub fn status_text(refreshing: bool, state: &DisplayState) -> (s: &'static str)
    ensures
        s@ == spec_status_text(refreshing, *state),
{
    if refreshing {
        "正在更新…"
    } else if state.last_error.is_some() {
        "更新失败"
    } else if state.snapshot.is_some() {
        "已更新"
    } else {
        "等待更新"
    }
}

// ---------------------------------------------------------------------------
// Local clock
// ---------------------------------------------------------------------------

/// A point in local time, as far as the popup shows it.
#[derive(Clone, Copy, Debug, PartialEq, Eq, Structural)]
pub struct ClockParts {
    pub month: u32,
    pub day: u32,
    pub hour: u32,
    pub minute: u32,
}

impl ClockParts {
    /// Month `1..=12`, day `1..=31`, hour `0..=23`, minute `0..=59`.
    pub open spec fn wf(self) -> bool {
        1 <= self.month <= 12 && 1 <= self.day <= 31 && self.hour <= 23 && self.minute <= 59
    }
}

/// `MM-DD HH:MM`.
pub open spec fn month_day_time(c: ClockParts) -> Seq<char> {
    two_digits(c.month as int) + seq!['-'] + two_digits(c.day as int) + seq![' '] + two_digits(
        c.hour as int,
    ) + seq![':'] + two_digits(c.minute as int)
}

/// `HH:MM`.
pub open spec fn hour_minute(c: ClockParts) -> Seq<char> {
    two_digits(c.hour as int) + seq![':'] + two_digits(c.minute as int)
}

fn push_hour_minute(out: &mut String, c: ClockParts)
    requires
        c.wf(),
    ensures
        final(out)@ == old(out)@ + hour_minute(c),
{
    push_two_digits(out, c.hour);
    push_char(out, ':');
    push_two_digits(out, c.minute);
    assert(final(out)@ == old(out)@ + hour_minute(c));
}

fn push_month_day_time(out: &mut String, c: ClockParts)
    requires
        c.wf(),
    ensures
        final(out)@ == old(out)@ + month_day_time(c),
{
    push_two_digits(out, c.month);
    push_char(out, '-');
    push_two_digits(out, c.day);
    push_char(out, ' ');
    push_two_digits(out, c.hour);
    push_char(out, ':');
    push_two_digits(out, c.minute);
    assert(final(out)@ == old(out)@ + month_day_time(c));
}

// ---------------------------------------------------------------------------
// Usage rows
// ---------------------------------------------------------------------------

/// A share (`PERCENT_UNIT` to the percent) as a whole percentage, rounded to
/// the nearest, ties to the even one (as `{:.0}` rounds).
pub open spec fn whole_percent(share: int) -> int {
    let q = share / (PERCENT_UNIT as int);
    let r = share % (PERCENT_UNIT as int);
    let half = (PERCENT_UNIT / 2) as int;
    if r > half {
        q + 1
    } else if r < half {
        q
    } else if q % 2 == 0 {
        q
    } else {
        q + 1
    }
}

/// Rounds a share to a whole percentage.
pub(crate) fn whole_percent_of(share: u64) -> (p: u64)
    requires
        share <= FULL_SHARE,
    ensures
        p == whole_percent(share as int),
        p <= 100,
{
    let q = share / PERCENT_UNIT;
    let r = share % PERCENT_UNIT;
    let half = PERCENT_UNIT / 2;
    if r > half {
        q + 1
    } else if r < half {
        q
    } else if q % 2 == 0 {
        q
    } else {
        q + 1
    }
}

/// The share shown in a row: what is left, or what is used.  What is left is
/// the exact difference from the whole window; it is not first rounded to a
/// 53-bit binary fraction, so a used share below 50 % with bits finer than
/// `2^-47` percent can round differently where that difference lies within
/// such a bit of a half percent (`0.5 + 2^-53` % used shows 99 % left, where
/// rounding the difference first would show 100 %).
pub open spec fn shown_share(w: UsageWindow, remaining: bool) -> u64 {
    if remaining {
        (FULL_SHARE - w.used_share) as u64
    } else {
        w.used_share
    }
}

/// What is shown as left and as used add up to the whole window, and either
/// rounds to a whole percent within 0 to 100.
pub proof fn lemma_shown_shares(w: UsageWindow)
    requires
        w.used_share <= FULL_SHARE,
    ensures
        shown_share(w, true) + shown_share(w, false) == FULL_SHARE,
        0 <= whole_percent(shown_share(w, true) as int) <= 100,
        0 <= whole_percent(shown_share(w, false) as int) <= 100,
{
}

/// Rounding to a whole percentage goes to the nearest one: a whole
/// percentage is kept, the result lies within half a percent of the share,
/// and a share exactly between two whole percentages goes to the even one.
pub proof fn lemma_whole_percent_nearest(share: int, k: int)
    requires
        share >= 0,
        k >= 0,
    ensures
        whole_percent(k * PERCENT_UNIT) == k,
        -(PERCENT_UNIT / 2) as int <= whole_percent(share) * PERCENT_UNIT - share <= (PERCENT_UNIT
            / 2) as int,
        share == k * PERCENT_UNIT + (PERCENT_UNIT / 2) as int ==> whole_percent(share) % 2 == 0
            && (whole_percent(share) == k || whole_percent(share) == k + 1),
{
    let u = PERCENT_UNIT as int;
    assert((k * u) / u == k && (k * u) % u == 0) by (nonlinear_arith)
        requires
            u == 4503599627370496,
            k >= 0,
    ;
    assert(share == (share / u) * u + share % u && 0 <= share % u < u) by (nonlinear_arith)
        requires
            u == 4503599627370496,
            share >= 0,
    ;
    if share == k * u + u / 2 {
        assert(share / u == k && share % u == u / 2) by (nonlinear_arith)
            requires
                u == 4503599627370496,
                k >= 0,
                share == k * u + u / 2,
        ;
    }
}

/// A whole used percentage `u` shows as `u` used and `100 - u` left.
pub proof fn lemma_whole_percent_rows(w: UsageWindow, u: int)
    requires
        0 <= u <= 100,
        w.used_share == u * PERCENT_UNIT,
    ensures
        spec_row_value(Some(w), false) == decimal(u as nat) + "% "@ + "已用"@,
        spec_row_value(Some(w), true) == decimal((100 - u) as nat) + "% "@ + "剩余"@,
{
    lemma_whole_percent_nearest(w.used_share as int, u);
    assert(FULL_SHARE - w.used_share == (100 - u) * PERCENT_UNIT);
    lemma_whole_percent_nearest((FULL_SHARE - w.used_share) as int, 100 - u);
}

/// `"23% 已用"` or `"77% 剩余"`; `"--"` without a window.
pub open spec fn spec_row_value(w: Option<UsageWindow>, remaining: bool) -> Seq<char> {
    match w {
        Some(w) => decimal(whole_percent(shown_share(w, remaining) as int) as nat) + "% "@
            + if remaining {
            "剩余"@
        } else {
            "已用"@
        },
        None => "--"@,
    }
}

/// `"重置 MM-DD HH:MM"`, or `"重置时间 --"` when the reset time is not known.
pub open spec fn spec_row_reset(clock: Option<ClockParts>) -> Seq<char> {
    match clock {
        Some(c) => "重置 "@ + month_day_time(c),
        None => "重置时间 --"@,
    }
}

/// The texts of one usage row and the share that its bar shows.
#[derive(Clone, Debug, PartialEq, Eq)]
pub struct RowText {
    pub value: String,
    pub reset: String,
    /// The share shown, `PERCENT_UNIT` to the percent.
    pub shown_share: Option<u64>,
}

/// The row for a window whose reset time reads `clock` in local time
/// (`None` where there is no reset time or no local reading of it).
pub fn row_strings(window: Option<UsageWindow>, remaining: bool, clock: Option<ClockParts>) -> (row:
    RowText)
    requires
        window matches Some(w) ==> w.used_share <= FULL_SHARE,
        clock matches Some(c) ==> c.wf(),
    ensures
        row.value@ == spec_row_value(window, remaining),
        row.reset@ == spec_row_reset(clock),
        row.shown_share == (match window {
            Some(w) => Some(shown_share(w, remaining)),
            None => None,
        }),
{
    let (value, shown) = match window {
        Some(w) => {
            let share: u64 = if remaining {
                FULL_SHARE - w.used_share
            } else {
                w.used_share
            };
            let whole = whole_percent_of(share);
            let mut s = String::new();
            push_decimal(&mut s, whole);
            push_str(&mut s, "% ");
            push_str(
                &mut s,
                if remaining {
                    "剩余"
                } else {
                    "已用"
                },
            );
            (s, Some(share))
        },
        None => (String::from_str("--"), None),
    };
    let reset = match clock {
        Some(c) => {
            let mut s = String::from_str("重置 ");
            push_month_day_time(&mut s, c);
            s
        },
        None => String::from_str("重置时间 --"),
    };
    RowText { value, reset, shown_share: shown }
}

// ---------------------------------------------------------------------------
// Identity line
// ---------------------------------------------------------------------------

/// Names the characters that `char::to_uppercase` yields for `c`.
pub uninterp spec fn char_uppercase(c: char) -> Seq<char>;

/// The upper-case mapping of a character; wraps `char::to_uppercase`.
#[verifier::external_body]
fn uppercase_of(c: char) -> (s: String)
    ensures
        s@ == char_uppercase(c),
{
    c.to_uppercase().collect::<String>()
}

/// A plan name for display, given the upper-case form of its first character:
/// the name trimmed, its first character replaced by `first_upper`.
pub open spec fn spec_capitalize_plan(first_upper: Seq<char>, plan: Seq<char>) -> Seq<char> {
    let t = trimmed(plan);
    if t.len() == 0 {
        Seq::empty()
    } else {
        first_upper + t.skip(1)
    }
}

/// A plan name for display: trimmed, its first character in upper case.
pub open spec fn spec_format_plan(plan: Seq<char>) -> Seq<char> {
    let t = trimmed(plan);
    spec_capitalize_plan(
        if t.len() == 0 {
            Seq::empty()
        } else {
            char_uppercase(t[0])
        },
        plan,
    )
}

/// Trims a plan name and puts `first_upper` (the upper-case form of its first
/// character) in place of that character; an empty name stays empty.
pub fn capitalize_plan(first_upper: &str, plan: &str) -> (s: String)
    ensures
        s@ == spec_capitalize_plan(first_upper@, plan@),
{
    let t = crate::text::trim(plan);
    let v = chars_of(t.as_str());
    if v.len() == 0 {
        return String::new();
    }
    let mut s = String::from_str(first_upper);
    push_chars(&mut s, &v, 1, v.len());
    assert(v@.subrange(1, v@.len() as int) == v@.skip(1));
    s
}

/// Formats a plan name (`"plus"` shows as `"Plus"`).
pub fn format_plan(plan: &str) -> (s: String)
    ensures
        s@ == spec_format_plan(plan@),
{
    let t = crate::text::trim(plan);
    let v = chars_of(t.as_str());
    if v.len() == 0 {
        return String::new();
    }
    let first = uppercase_of(v[0]);
    capitalize_plan(first.as_str(), plan)
}

/// At most `max` characters: a longer text keeps its first `max / 2` and its
/// last `max - max / 2 - 1` characters around an ellipsis.
pub open spec fn spec_compact_middle(s: Seq<char>, max: nat) -> Seq<char> {
    if s.len() <= max {
        s
    } else {
        let left = max / 2;
        let right = if max >= left + 1 {
            (max - left - 1) as nat
        } else {
            0
        };
        s.take(left as int) + seq!['…'] + s.skip(s.len() - right)
    }
}

/// Shortens a text in its middle to at most `max_chars` characters.
pub fn compact_middle(value: &str, max_chars: usize) -> (s: String)
    ensures
        s@ == spec_compact_middle(value@, max_chars as nat),
{
    let v = chars_of(value);
    if v.len() <= max_chars {
        return String::from_str(value);
    }
    let left = max_chars / 2;
    let right = if max_chars >= left + 1 {
        max_chars - (left + 1)
    } else {
        0
    };
    let mut s = string_from_chars(&v, 0, left);
    push_char(&mut s, '…');
    push_chars(&mut s, &v, v.len() - right, v.len());
    assert(v@.subrange(0, left as int) == v@.take(left as int));
    assert(v@.subrange(v@.len() - right, v@.len() as int) == v@.skip(v@.len() - right));
    s
}

/// A shortened text fits its limit (of at least one character), and a text
/// that fits already is kept as it is.
pub proof fn lemma_compact_middle_fits(s: Seq<char>, max: nat)
    ensures
        s.len() <= max ==> spec_compact_middle(s, max) == s,
        max >= 1 ==> spec_compact_middle(s, max).len() <= max,
{
}

/// A text longer than the limit (of at least one character) is cut in its
/// middle: the result is exactly `max` characters, it begins with the first
/// `max / 2` characters of the text, then an ellipsis, and it ends with the
/// last `max - max / 2 - 1` characters of the text.
pub proof fn lemma_compact_middle_keeps_both_ends(s: Seq<char>, max: nat)
    requires
        s.len() > max >= 1,
    ensures
        spec_compact_middle(s, max).len() == max,
        spec_compact_middle(s, max).take((max / 2) as int) == s.take((max / 2) as int),
        spec_compact_middle(s, max)[(max / 2) as int] == '…',
        spec_compact_middle(s, max).skip((max / 2 + 1) as int) == s.skip(
            s.len() - (max - max / 2 - 1),
        ),
{
    let r = spec_compact_middle(s, max);
    assert(r.take((max / 2) as int) == s.take((max / 2) as int));
    assert(r.skip((max / 2 + 1) as int) == s.skip(s.len() - (max - max / 2 - 1)));
}

/// The identity line keeps its end: a line longer than 46 characters shows
/// its first 23 characters, an ellipsis and its last 22 (so the plan name at
/// the end of "email · Plan" stays visible).
pub proof fn lemma_identity_keeps_plan(snapshot: Option<UsageSnapshot>)
    ensures
        spec_identity(snapshot).len() > 46 ==> {
            &&& spec_compact_middle(spec_identity(snapshot), 46).take(23) == spec_identity(
                snapshot,
            ).take(23)
            &&& spec_compact_middle(spec_identity(snapshot), 46).skip(24) == spec_identity(
                snapshot,
            ).skip(spec_identity(snapshot).len() - 22)
        },
{
    if spec_identity(snapshot).len() > 46 {
        lemma_compact_middle_keeps_both_ends(spec_identity(snapshot), 46);
    }
}

/// The identity line without shortening: email and plan, either, or a
/// placeholder.
pub open spec fn spec_identity(snapshot: Option<UsageSnapshot>) -> Seq<char> {
    let email = match snapshot {
        Some(s) => opt_view(s.email),
        None => None,
    };
    let plan = match snapshot {
        Some(s) => match s.plan_type {
            Some(p) => Some(spec_format_plan(p@)),
            None => None,
        },
        None => None,
    };
    match (email, plan) {
        (Some(e), Some(p)) => e + " · "@ + p,
        (Some(e), None) => e,
        (None, Some(p)) => p,
        (None, None) => "Codex 账户"@,
    }
}

/// The identity line of the popup, shortened to 46 characters.
pub fn identity_text(snapshot: Option<&UsageSnapshot>) -> (s: String)
    ensures
        s@ == spec_compact_middle(
            spec_identity(
                match snapshot {
                    Some(s) => Some(*s),
                    None => None,
                },
            ),
            46,
        ),
{
    let ghost snap = match snapshot {
        Some(s) => Some(*s),
        None => None,
    };
    let plan: Option<String> = match snapshot {
        Some(s) => match &s.plan_type {
            Some(p) => Some(format_plan(p.as_str())),
            None => None,
        },
        None => None,
    };
    let email: Option<&String> = match snapshot {
        Some(s) => match &s.email {
            Some(e) => Some(e),
            None => None,
        },
        None => None,
    };
    let text = match (email, plan) {
        (Some(e), Some(p)) => {
            let mut t = e.clone();
            push_str(&mut t, " · ");
            push_str(&mut t, p.as_str());
            t
        },
        (Some(e), None) => e.clone(),
        (None, Some(p)) => p,
        (None, None) => String::from_str("Codex 账户"),
    };
    assert(text@ == spec_identity(snap));
    compact_middle(text.as_str(), 46)
}

// ---------------------------------------------------------------------------
// Reset credits
// ---------------------------------------------------------------------------

/// `"N 张可用"`.
pub open spec fn spec_credit_value(count: u32) -> Seq<char> {
    decimal(count as nat) + " 张可用"@
}

/// `"最近 MM-DD HH:MM 到期"`, or a note that the expiry is not known.
pub open spec fn spec_credit_expiry(clock: Option<ClockParts>) -> Seq<char> {
    match clock {
        Some(c) => "最近 "@ + month_day_time(c) + " 到期"@,
        None => "到期时间暂不可用"@,
    }
}

/// The reset-credit line for the credits, the earliest expiry reading `clock`
/// in local time: present exactly when credits are available.
pub open spec fn credit_line(
    res: Option<(String, String)>,
    credits: Option<ResetCreditsSnapshot>,
    clock: Option<ClockParts>,
) -> bool {
    match credits {
        Some(c) => if c.available_count > 0 {
            res matches Some(p) && p.0@ == spec_credit_value(c.available_count) && p.1@
                == spec_credit_expiry(clock)
        } else {
            res is None
        },
        None => res is None,
    }
}

/// The reset-credit line where credits are available, the earliest expiry
/// reading `clock` in local time.
pub fn credit_strings(credits: Option<ResetCreditsSnapshot>, clock: Option<ClockParts>) -> (res:
    Option<(String, String)>)
    requires
        clock matches Some(c) ==> c.wf(),
    ensures
        credit_line(res, credits, clock),
{
    let c = match credits {
        Some(c) => c,
        None => return None,
    };
    if c.available_count == 0 {
        return None;
    }
    let mut value = String::new();
    push_decimal(&mut value, c.available_count as u64);
    push_str(&mut value, " 张可用");
    let expiry = match clock {
        Some(k) => {
            let mut s = String::from_str("最近 ");
            push_month_day_time(&mut s, k);
            push_str(&mut s, " 到期");
            s
        },
        None => String::from_str("到期时间暂不可用"),
    };
    Some((value, expiry))
}

/// Whether the popup has room for the reset-credit line.
pub open spec fn shows_credits(credits: Option<ResetCreditsSnapshot>) -> bool {
    credits matches Some(c) && c.available_count > 0
}

/// The popup's height without the reset-credit line.
pub const PANEL_HEIGHT_BASE: i32 = 212;

/// The popup's height with the reset-credit line.
pub const PANEL_HEIGHT_CREDITS: i32 = 252;

/// The popup's width.
pub const PANEL_WIDTH: i32 = 320;

/// The popup's height for the credits it shows.
pub fn panel_height(credits: Option<ResetCreditsSnapshot>) -> (h: i32)
    ensures
        h == (if shows_credits(credits) {
            PANEL_HEIGHT_CREDITS
        } else {
            PANEL_HEIGHT_BASE
        }),
{
    match credits {
        Some(c) => if c.available_count > 0 {
            PANEL_HEIGHT_CREDITS
        } else {
            PANEL_HEIGHT_BASE
        },
        None => PANEL_HEIGHT_BASE,
    }
}

// ---------------------------------------------------------------------------
// Footer
// ---------------------------------------------------------------------------

/// The text with each run of whitespace between words turned into one space
/// and whitespace at either end dropped (`split_whitespace` joined by `' '`),
/// built character by character: the output so far and whether a space is
/// owed before the next word.
pub open spec fn squash_state(s: Seq<char>) -> (Seq<char>, bool)
    decreases s.len(),
{
    if s.len() == 0 {
        (Seq::empty(), false)
    } else {
        let prev = squash_state(s.drop_last());
        let c = s.last();
        if is_white(c) {
            (prev.0, prev.0.len() > 0)
        } else if prev.1 {
            (prev.0.push(' ').push(c), false)
        } else {
            (prev.0.push(c), false)
        }
    }
}

/// The words of a text joined by single spaces.
pub open spec fn squash_whitespace(s: Seq<char>) -> Seq<char> {
    squash_state(s).0
}

/// An error on one line of at most 52 characters: whitespace squashed, and a
/// longer text cut to 51 characters and an ellipsis.
pub open spec fn spec_compact_error(error: Seq<char>) -> Seq<char> {
    let line = squash_whitespace(error);
    if line.len() <= 52 {
        line
    } else {
        line.take(51).push('…')
    }
}

fn squash(v: &Vec<char>) -> (out: Vec<char>)
    ensures
        out@ == squash_whitespace(v@),
{
    let mut out: Vec<char> = Vec::new();
    let mut pending = false;
    let mut i: usize = 0;
    while i < v.len()
        invariant
            i <= v@.len(),
            (out@, pending) == squash_state(v@.take(i as int)),
        decreases v@.len() - i,
    {
        assert(v@.take(i + 1).drop_last() == v@.take(i as int));
        let c = v[i];
        if is_whitespace(c) {
            pending = out.len() > 0;
        } else {
            if pending {
                out.push(' ');
            }
            out.push(c);
            pending = false;
        }
        i += 1;
    }
    assert(v@.take(v@.len() as int) == v@);
    out
}

/// Puts an error on one short line for the footer.
pub fn compact_error(error: &str) -> (s: String)
    ensures
        s@ == spec_compact_error(error@),
{
    let v = chars_of(error);
    let line = squash(&v);
    if line.len() <= 52 {
        string_from_chars(&line, 0, line.len())
    } else {
        let mut s = string_from_chars(&line, 0, 51);
        push_char(&mut s, '…');
        assert(line@.subrange(0, 51) == line@.take(51));
        s
    }
}

/// A compacted error fits on a line of 52 characters.
pub proof fn lemma_compact_error_fits(error: Seq<char>)
    ensures
        spec_compact_error(error).len() <= 52,
{
}

/// An error that fits on the line (52 characters once whitespace is
/// squashed) is shown whole; a longer one keeps its first 51 characters and
/// ends in an ellipsis, so the line is exactly 52 characters.
pub proof fn lemma_compact_error_keeps_text(error: Seq<char>)
    ensures
        squash_whitespace(error).len() <= 52 ==> spec_compact_error(error) == squash_whitespace(
            error,
        ),
        squash_whitespace(error).len() > 52 ==> {
            &&& spec_compact_error(error).len() == 52
            &&& spec_compact_error(error).take(51) == squash_whitespace(error).take(51)
            &&& spec_compact_error(error)[51] == '…'
        },
{
    let line = squash_whitespace(error);
    if line.len() > 52 {
        assert(spec_compact_error(error).take(51) == line.take(51));
    }
}

/// The footer: the error of the last request, else when the snapshot was
/// taken (`clock` being that time on the local clock), else a hint.
pub open spec fn spec_footer(state: DisplayState, clock: Option<ClockParts>) -> Seq<char> {
    match state.last_error {
        Some(e) => spec_compact_error(e@),
        None => match state.snapshot {
            Some(_) => match clock {
                Some(c) => "更新 "@ + hour_minute(c),
                None => "已更新"@,
            },
            None => "读取 Codex 登录信息后显示用量"@,
        },
    }
}

/// The footer shows the error whenever the last request failed, whatever
/// snapshot or time there is; the update time only without an error.
pub proof fn lemma_footer_shows_error(state: DisplayState, clock: Option<ClockParts>, other: Option<ClockParts>, snapshot: Option<UsageSnapshot>)
    ensures
        state.last_error matches Some(e) ==> spec_footer(state, clock) == spec_compact_error(e@)
            && spec_footer(DisplayState { snapshot, ..state }, other) == spec_compact_error(e@),
        state.last_error is None && state.snapshot is Some ==> (clock matches Some(c)
            ==> spec_footer(state, clock) == "更新 "@ + hour_minute(c)),
{
}

/// The footer, the snapshot time reading `clock` in local time.
pub fn footer_text(state: &DisplayState, clock: Option<ClockParts>) -> (s: String)
    requires
        clock matches Some(c) ==> c.wf(),
    ensures
        s@ == spec_footer(*state, clock),
{
    if let Some(error) = &state.last_error {
        return compact_error(error.as_str());
    }
    if state.snapshot.is_some() {
        return match clock {
            Some(c) => {
                let mut s = String::from_str("更新 ");
                push_hour_minute(&mut s, c);
                s
            },
            None => String::from_str("已更新"),
        };
    }
    String::from_str("读取 Codex 登录信息后显示用量")
}

// ---------------------------------------------------------------------------
// The whole popup
// ---------------------------------------------------------------------------

/// Everything the popup paints, but for the colours.
#[derive(Clone, Debug, PartialEq, Eq)]
pub struct PopupView {
    pub status: &'static str,
    pub status_is_error: bool,
    pub identity: String,
    /// The label of the five-hour row.
    pub primary_label: &'static str,
    /// The five-hour window.
    pub primary: RowText,
    /// The label of the weekly row.
    pub secondary_label: &'static str,
    /// The weekly window.
    pub secondary: RowText,
    pub reset_credit: Option<(String, String)>,
    pub footer: String,
    pub height: i32,
}

/// The usage windows of a state are within range (as snapshots make them).
pub open spec fn windows_in_range(state: DisplayState) -> bool {
    state.snapshot matches Some(s) ==> {
        &&& (s.primary matches Some(w) ==> w.used_share <= FULL_SHARE)
        &&& (s.secondary matches Some(w) ==> w.used_share <= FULL_SHARE)
    }
}

/// A snapshot's five-hour window.
pub open spec fn primary_of(state: DisplayState) -> Option<UsageWindow> {
    match state.snapshot {
        Some(s) => s.primary,
        None => None,
    }
}

/// A snapshot's weekly window.
pub open spec fn secondary_of(state: DisplayState) -> Option<UsageWindow> {
    match state.snapshot {
        Some(s) => s.secondary,
        None => None,
    }
}

/// The reset time of a window, where it has one.
pub open spec fn reset_time(window: Option<UsageWindow>) -> Option<i64> {
    match window {
        Some(w) => w.reset_at,
        None => None,
    }
}

/// The earliest expiry that the reset-credit line shows, where credits are
/// available and it is known.
pub open spec fn credit_time(credits: Option<ResetCreditsSnapshot>) -> Option<i64> {
    match credits {
        Some(c) => if c.available_count > 0 {
            c.earliest_expires_at
        } else {
            None
        },
        None => None,
    }
}

/// The time the footer shows: the snapshot's, where no error is shown.
pub open spec fn footer_time(state: DisplayState) -> Option<i64> {
    if state.last_error is None {
        match state.snapshot {
            Some(s) => Some(s.fetched_at),
            None => None,
        }
    } else {
        None
    }
}

/// The Unix times that the popup shows in local time.
#[derive(Clone, Copy, Debug, PartialEq, Eq, Structural)]
pub struct PopupTimes {
    pub primary_reset: Option<i64>,
    pub secondary_reset: Option<i64>,
    pub credit_expiry: Option<i64>,
    pub fetched: Option<i64>,
}

/// The times a state's popup shows, to be read on the local clock: the two
/// reset times, the earliest credit expiry where credits are available, and
/// the snapshot time where no error is shown.
pub fn popup_times(state: &DisplayState) -> (t: PopupTimes)
    ensures
        t.primary_reset == reset_time(primary_of(*state)),
        t.secondary_reset == reset_time(secondary_of(*state)),
        t.credit_expiry == credit_time(state.credits),
        t.fetched == footer_time(*state),
{
    let (primary, secondary) = match &state.snapshot {
        Some(s) => (s.primary, s.secondary),
        None => (None, None),
    };
    PopupTimes {
        primary_reset: match primary {
            Some(w) => w.reset_at,
            None => None,
        },
        secondary_reset: match secondary {
            Some(w) => w.reset_at,
            None => None,
        },
        credit_expiry: match state.credits {
            Some(c) => if c.available_count > 0 {
                c.earliest_expires_at
            } else {
                None
            },
            None => None,
        },
        fetched: if state.last_error.is_none() {
            match &state.snapshot {
                Some(s) => Some(s.fetched_at),
                None => None,
            }
        } else {
            None
        },
    }
}

/// The local-time readings of the popup's times (`None` where there is no
/// time, or no local reading of it).
#[derive(Clone, Copy, Debug, PartialEq, Eq, Structural)]
pub struct PopupClocks {
    pub primary_reset: Option<ClockParts>,
    pub secondary_reset: Option<ClockParts>,
    pub credit_expiry: Option<ClockParts>,
    pub fetched: Option<ClockParts>,
}

/// Every reading is a valid date and time.
pub open spec fn clocks_wf(c: PopupClocks) -> bool {
    &&& (c.primary_reset matches Some(p) ==> p.wf())
    &&& (c.secondary_reset matches Some(p) ==> p.wf())
    &&& (c.credit_expiry matches Some(p) ==> p.wf())
    &&& (c.fetched matches Some(p) ==> p.wf())
}

/// A usage row for a window whose reset time reads `clock`.
pub open spec fn is_row(row: RowText, window: Option<UsageWindow>, remaining: bool, clock: Option<ClockParts>) -> bool {
    &&& row.value@ == spec_row_value(window, remaining)
    &&& row.reset@ == spec_row_reset(clock)
    &&& row.shown_share == (match window {
        Some(w) => Some(shown_share(w, remaining)),
        None => None,
    })
}

/// What the popup paints for a state, while a request is running or not,
/// showing what is left or what is used, with its times read as `clocks`
/// (the readings of `popup_times`).
pub fn popup_view(state: &DisplayState, refreshing: bool, remaining: bool, clocks: PopupClocks) -> (v:
    PopupView)
    requires
        windows_in_range(*state),
        clocks_wf(clocks),
    ensures
        v.status@ == spec_status_text(refreshing, *state),
        v.status_is_error == state.last_error is Some,
        v.identity@ == spec_compact_middle(spec_identity(state.snapshot), 46),
        v.primary_label@ == "5 小时"@,
        is_row(v.primary, primary_of(*state), remaining, clocks.primary_reset),
        v.secondary_label@ == "每周"@,
        is_row(v.secondary, secondary_of(*state), remaining, clocks.secondary_reset),
        credit_line(v.reset_credit, state.credits, clocks.credit_expiry),
        v.footer@ == spec_footer(*state, clocks.fetched),
        v.height == (if shows_credits(state.credits) {
            PANEL_HEIGHT_CREDITS
        } else {
            PANEL_HEIGHT_BASE
        }),
{
    let (primary, secondary) = match &state.snapshot {
        Some(s) => (s.primary, s.secondary),
        None => (None, None),
    };
    PopupView {
        status: status_text(refreshing, state),
        status_is_error: state.last_error.is_some(),
        identity: identity_text(state.snapshot.as_ref()),
        primary_label: "5 小时",
        primary: row_strings(primary, remaining, clocks.primary_reset),
        secondary_label: "每周",
        secondary: row_strings(secondary, remaining, clocks.secondary_reset),
        reset_credit: credit_strings(state.credits, clocks.credit_expiry),
        footer: footer_text(state, clocks.fetched),
        height: panel_height(state.credits),
    }
}

} // verus!
