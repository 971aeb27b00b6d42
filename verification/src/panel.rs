//! The usage panel of the tray-command front end: its state, status line,
//! footer, plan badge and the texts of its two usage cards.

use vstd::prelude::*;
use crate::display::{
    hour_minute, reset_time, spec_row_reset, whole_percent, whole_percent_of, ClockParts, RowText,
    row_strings,
};
use crate::text::{chars_of, decimal, push_char, push_decimal, push_str, string_from_chars};
use crate::usage::{opt_view, UsageSnapshot, UsageWindow, FULL_SHARE};

verus! {

/// The state the panel shows.
#[derive(Clone, Debug, Default, PartialEq, Eq)]
pub struct UsageView {
    pub snapshot: Option<UsageSnapshot>,
    pub error: Option<String>,
    pub refreshing: bool,
}

impl UsageView {
    /// Starts a refresh unless one is running; says whether it started.  A
    /// running refresh is the one fetch in flight: no second one starts until
    /// `apply_result` ends it.
    pub fn begin_refresh(&mut self) -> (started: bool)
        ensures
            started == !old(self).refreshing,
            final(self).refreshing,
            final(self).snapshot == old(self).snapshot,
            final(self).error == old(self).error,
    {
        if self.refreshing {
            return false;
        }
        self.refreshing = true;
        true
    }

    /// Takes in a request's outcome: the refresh is over; a snapshot replaces
    /// the shown one and clears the error, an error is kept beside it.
    pub fn apply_result(&mut self, result: Result<UsageSnapshot, String>)
        ensures
            !final(self).refreshing,
            match result {
                Ok(s) => final(self).snapshot == Some(s) && final(self).error is None,
                Err(e) => final(self).error == Some(e) && final(self).snapshot == old(
                    self,
                ).snapshot,
            },
    {
        self.refreshing = false;
        match result {
            Ok(snapshot) => {
                self.snapshot = Some(snapshot);
                self.error = None;
            },
            Err(error) => {
                self.error = Some(error);
            },
        }
    }
}

/// The panel's status line.
pub open spec fn spec_panel_status(view: UsageView) -> Seq<char> {
    if view.refreshing {
        "正在更新"@
    } else if view.error is Some {
        "更新失败"@
    } else if view.snapshot is Some {
        "已更新"@
    } else {
        "等待更新"@
    }
}

/// The panel's status line.
pub fn panel_status(view: &UsageView) -> (s: &'static str)
    ensures
        s@ == spec_panel_status(*view),
{
    if view.refreshing {
        "正在更新"
    } else if view.error.is_some() {
        "更新失败"
    } else if view.snapshot.is_some() {
        "已更新"
    } else {
        "等待更新"
    }
}

/// Line breaks (`\r`, `\n`) turned into spaces.
pub open spec fn unbreak(s: Seq<char>) -> Seq<char> {
    s.map_values(|c: char| if c == '\r' || c == '\n' { ' ' } else { c })
}

/// An error on one line of at most 68 characters; a longer one is cut to 65
/// characters followed by `...`.
pub open spec fn spec_compact_error(error: Seq<char>) -> Seq<char> {
    let line = unbreak(error);
    if line.len() <= 68 {
        line
    } else {
        line.take(65) + "..."@
    }
}

/// A compacted error fits on a line of 68 characters and has no line breaks.
pub proof fn lemma_compact_error_fits(error: Seq<char>)
    ensures
        spec_compact_error(error).len() <= 68,
        forall|i: int|
            0 <= i < spec_compact_error(error).len() ==> #[trigger] spec_compact_error(error)[i]
                != '\n' && spec_compact_error(error)[i] != '\r',
{
    reveal_strlit("...");
    let line = unbreak(error);
    if line.len() > 68 {
        let out = line.take(65) + "..."@;
        assert forall|i: int| 0 <= i < out.len() implies #[trigger] out[i] != '\n' && out[i] != '\r' by {
            if i >= 65 {
                assert(out[i] == '.');
            }
        }
    }
}

/// An error of at most 68 characters is shown whole (line breaks as spaces);
/// a longer one keeps its first 65 characters and ends in "...".
pub proof fn lemma_panel_error_keeps_text(error: Seq<char>)
    ensures
        error.len() <= 68 ==> spec_compact_error(error) == unbreak(error),
        error.len() > 68 ==> {
            &&& spec_compact_error(error).len() == 68
            &&& spec_compact_error(error).take(65) == unbreak(error).take(65)
            &&& spec_compact_error(error).skip(65) == seq!['.', '.', '.']
        },
{
    reveal_strlit("...");
    let line = unbreak(error);
    if line.len() > 68 {
        assert(spec_compact_error(error).take(65) == line.take(65));
        assert(spec_compact_error(error).skip(65) == seq!['.', '.', '.']);
    }
}

/// Puts an error on one line for the panel's footer.
pub fn compact_error(error: &str) -> (s: String)
    ensures
        s@ == spec_compact_error(error@),
{
    let v = chars_of(error);
    let mut line: Vec<char> = Vec::new();
    let mut i: usize = 0;
    while i < v.len()
        invariant
            i <= v@.len(),
            v@ == error@,
            line@ == unbreak(v@.take(i as int)),
        decreases v@.len() - i,
    {
        let c = v[i];
        line.push(
            if c == '\r' || c == '\n' {
                ' '
            } else {
                c
            },
        );
        assert(unbreak(v@.take(i + 1)) == unbreak(v@.take(i as int)).push(
            if c == '\r' || c == '\n' {
                ' '
            } else {
                c
            },
        ));
        i += 1;
    }
    assert(v@.take(v@.len() as int) == v@);
    if line.len() <= 68 {
        string_from_chars(&line, 0, line.len())
    } else {
        let mut s = string_from_chars(&line, 0, 65);
        push_str(&mut s, "...");
        assert(line@.subrange(0, 65) == line@.take(65));
        s
    }
}

/// The panel's footer: the error, else the snapshot's local time (`clock`),
/// else a hint.
pub open spec fn spec_panel_footer(view: UsageView, clock: Option<ClockParts>) -> Seq<char> {
    match view.error {
        Some(e) => spec_compact_error(e@),
        None => match view.snapshot {
            Some(_) => match clock {
                Some(c) => "最近更新 "@ + hour_minute(c),
                None => "已更新"@,
            },
            None => "读取现有 Codex 登录信息"@,
        },
    }
}

/// The footer, the snapshot time reading `clock` in local time.
pub fn panel_footer(view: &UsageView, clock: Option<ClockParts>) -> (s: String)
    requires
        clock matches Some(c) ==> c.wf(),
    ensures
        s@ == spec_panel_footer(*view, clock),
{
    if let Some(error) = &view.error {
        return compact_error(error.as_str());
    }
    if view.snapshot.is_some() {
        return match clock {
            Some(c) => {
                let mut s = String::from_str("最近更新 ");
                crate::text::push_two_digits(&mut s, c.hour);
                push_char(&mut s, ':');
                crate::text::push_two_digits(&mut s, c.minute);
                s
            },
            None => String::from_str("已更新"),
        };
    }
    String::from_str("读取现有 Codex 登录信息")
}

/// Names what `str::to_uppercase` returns for a text.
pub uninterp spec fn str_uppercase(s: Seq<char>) -> Seq<char>;

/// A text in upper case; wraps `str::to_uppercase`.
#[verifier::external_body]
fn uppercase(s: &str) -> (out: String)
    ensures
        out@ == str_uppercase(s@),
{
    s.to_uppercase()
}

/// The plan badge: the plan name in upper case, where the snapshot has one.
pub fn plan_badge(view: &UsageView) -> (badge: Option<String>)
    ensures
        opt_view(badge) == (match view.snapshot {
            Some(s) => match s.plan_type {
                Some(p) => Some(str_uppercase(p@)),
                None => None,
            },
            None => None,
        }),
{
    match &view.snapshot {
        Some(s) => match &s.plan_type {
            Some(p) => Some(uppercase(p.as_str())),
            None => None,
        },
        None => None,
    }
}

/// A usage card's figures: `"U% 已用  ·  L% 可用"`, used and left rounded to
/// whole percents; `"--"` without a window.
pub open spec fn spec_card_value(w: Option<UsageWindow>) -> Seq<char> {
    match w {
        Some(w) => decimal(whole_percent(w.used_share as int) as nat) + "% 已用  ·  "@
            + decimal(whole_percent(FULL_SHARE - w.used_share) as nat) + "% 可用"@,
        None => "--"@,
    }
}

fn push_whole_percent(out: &mut String, share: u64)
    requires
        share <= FULL_SHARE,
    ensures
        final(out)@ == old(out)@ + decimal(whole_percent(share as int) as nat),
{
    push_decimal(out, whole_percent_of(share));
}

/// The figures of a usage card.
pub fn card_value(window: Option<UsageWindow>) -> (s: String)
    requires
        window matches Some(w) ==> w.used_share <= FULL_SHARE,
    ensures
        s@ == spec_card_value(window),
{
    match window {
        Some(w) => {
            let mut s = String::new();
            push_whole_percent(&mut s, w.used_share);
            push_str(&mut s, "% 已用  ·  ");
            push_whole_percent(&mut s, FULL_SHARE - w.used_share);
            push_str(&mut s, "% 可用");
            s
        },
        None => String::from_str("--"),
    }
}

/// The reset line of a usage card whose reset time reads `clock` in local
/// time (the same line as a popup row's).
pub fn card_reset(window: Option<UsageWindow>, clock: Option<ClockParts>) -> (s: String)
    requires
        window matches Some(w) ==> w.used_share <= FULL_SHARE,
        clock matches Some(c) ==> c.wf(),
    ensures
        s@ == spec_row_reset(clock),
{
    let row: RowText = row_strings(window, false, clock);
    row.reset
}

/// One usage card: its figures, its reset line, and the used share that its
/// bar shows (nothing used without a window).
#[derive(Clone, Debug, PartialEq, Eq)]
pub struct CardText {
    pub value: String,
    pub reset: String,
    pub used_share: u64,
}

/// The card shown for a window whose reset time reads `clock`: exact figures,
/// bar and reset line.
pub open spec fn is_card(c: CardText, window: Option<UsageWindow>, clock: Option<ClockParts>) -> bool {
    &&& c.value@ == spec_card_value(window)
    &&& c.reset@ == spec_row_reset(clock)
    &&& c.used_share == (match window {
        Some(w) => w.used_share,
        None => 0,
    })
}

/// The card for a window whose reset time reads `clock` in local time.
pub fn usage_card(window: Option<UsageWindow>, clock: Option<ClockParts>) -> (c: CardText)
    requires
        window matches Some(w) ==> w.used_share <= FULL_SHARE,
        clock matches Some(k) ==> k.wf(),
    ensures
        is_card(c, window, clock),
{
    CardText {
        value: card_value(window),
        reset: card_reset(window, clock),
        used_share: match window {
            Some(w) => w.used_share,
            None => 0,
        },
    }
}

/// Everything the panel shows, but for colours and layout.
#[derive(Clone, Debug, PartialEq, Eq)]
pub struct PanelView {
    pub plan_badge: Option<String>,
    pub status: &'static str,
    pub status_is_error: bool,
    pub five_hour: CardText,
    pub weekly: CardText,
    pub footer: String,
}

/// The snapshot's five-hour window.
pub open spec fn view_primary(view: UsageView) -> Option<UsageWindow> {
    match view.snapshot {
        Some(s) => s.primary,
        None => None,
    }
}

/// The snapshot's weekly window.
pub open spec fn view_secondary(view: UsageView) -> Option<UsageWindow> {
    match view.snapshot {
        Some(s) => s.secondary,
        None => None,
    }
}

/// The time the panel's footer shows: the snapshot's, where no error is shown.
pub open spec fn panel_footer_time(view: UsageView) -> Option<i64> {
    if view.error is None {
        match view.snapshot {
            Some(s) => Some(s.fetched_at),
            None => None,
        }
    } else {
        None
    }
}

/// The Unix times that the panel shows in local time.
#[derive(Clone, Copy, Debug, PartialEq, Eq, Structural)]
pub struct PanelTimes {
    pub five_hour_reset: Option<i64>,
    pub weekly_reset: Option<i64>,
    pub fetched: Option<i64>,
}

/// The times the panel shows, to be read on the local clock: the two reset
/// times, and the snapshot time where no error is shown.
pub fn panel_times(view: &UsageView) -> (t: PanelTimes)
    ensures
        t.five_hour_reset == reset_time(view_primary(*view)),
        t.weekly_reset == reset_time(view_secondary(*view)),
        t.fetched == panel_footer_time(*view),
{
    let (primary, secondary) = match &view.snapshot {
        Some(s) => (s.primary, s.secondary),
        None => (None, None),
    };
    PanelTimes {
        five_hour_reset: match primary {
            Some(w) => w.reset_at,
            None => None,
        },
        weekly_reset: match secondary {
            Some(w) => w.reset_at,
            None => None,
        },
        fetched: if view.error.is_none() {
            match &view.snapshot {
                Some(s) => Some(s.fetched_at),
                None => None,
            }
        } else {
            None
        },
    }
}

/// The local-time readings of the panel's times (`None` where there is no
/// time, or no local reading of it).
#[derive(Clone, Copy, Debug, PartialEq, Eq, Structural)]
pub struct PanelClocks {
    pub five_hour_reset: Option<ClockParts>,
    pub weekly_reset: Option<ClockParts>,
    pub fetched: Option<ClockParts>,
}

/// What the panel shows for its state, with its times read as `clocks` (the
/// readings of `panel_times`).
pub fn panel_view(view: &UsageView, clocks: PanelClocks) -> (p: PanelView)
    requires
        view_primary(*view) matches Some(w) ==> w.used_share <= FULL_SHARE,
        view_secondary(*view) matches Some(w) ==> w.used_share <= FULL_SHARE,
        clocks.five_hour_reset matches Some(c) ==> c.wf(),
        clocks.weekly_reset matches Some(c) ==> c.wf(),
        clocks.fetched matches Some(c) ==> c.wf(),
    ensures
        opt_view(p.plan_badge) == (match view.snapshot {
            Some(s) => match s.plan_type {
                Some(t) => Some(str_uppercase(t@)),
                None => None,
            },
            None => None,
        }),
        p.status@ == spec_panel_status(*view),
        p.status_is_error == view.error is Some,
        is_card(p.five_hour, view_primary(*view), clocks.five_hour_reset),
        is_card(p.weekly, view_secondary(*view), clocks.weekly_reset),
        p.footer@ == spec_panel_footer(*view, clocks.fetched),
{
    let (primary, secondary) = match &view.snapshot {
        Some(s) => (s.primary, s.secondary),
        None => (None, None),
    };
    PanelView {
        plan_badge: plan_badge(view),
        status: panel_status(view),
        status_is_error: view.error.is_some(),
        five_hour: usage_card(primary, clocks.five_hour_reset),
        weekly: usage_card(secondary, clocks.weekly_reset),
        footer: panel_footer(view, clocks.fetched),
    }
}

/// A failed refresh shows as failed whatever was shown before: when no refresh
/// is running and the view holds an error, the status line is "更新失败",
/// whether or not an earlier snapshot is still held; it says "已更新" only
/// without an error, and a running refresh outranks both.
pub proof fn lemma_error_status_wins(view: UsageView, snapshot: Option<UsageSnapshot>)
    ensures
        !view.refreshing && view.error is Some ==> spec_panel_status(view) == "更新失败"@,
        spec_panel_status(view) == "已更新"@ ==> view.error is None && view.snapshot is Some,
        view.error is Some ==> spec_panel_status(view) == spec_panel_status(
            UsageView { snapshot, ..view },
        ),
        view.refreshing ==> spec_panel_status(view) == "正在更新"@,
{
    reveal_strlit("已更新");
    reveal_strlit("更新失败");
    reveal_strlit("正在更新");
    reveal_strlit("等待更新");
    assert("正在更新"@.len() != "已更新"@.len());
    assert("更新失败"@.len() != "已更新"@.len());
    assert("等待更新"@.len() != "已更新"@.len());
}

} // verus!
