//! Where the popup and the tray menu appear, how often and how soon requests
//! may repeat, how a tray click toggles the popup, and the decoding of the
//! Win32 values the windows receive.

use vstd::prelude::*;

verus! {

/// The work area of a monitor (the screen without the taskbar), in pixels.
#[derive(Clone, Copy, Debug, Default, PartialEq, Eq, Structural)]
pub struct WorkArea {
    pub left: i32,
    pub top: i32,
    pub right: i32,
    pub bottom: i32,
}

/// `v` brought into `lo..=hi`.
pub open spec fn clamp_int(v: int, lo: int, hi: int) -> int {
    if v < lo {
        lo
    } else if v > hi {
        hi
    } else {
        v
    }
}

/// The larger of two integers.
pub open spec fn max_int(a: int, b: int) -> int {
    if a >= b {
        a
    } else {
        b
    }
}

/// The left edge of a window `width` wide, centred under the cursor and kept
/// `margin` inside the work area (the left margin wins where the area is too
/// narrow).
pub open spec fn spec_centered_x(cursor_x: int, width: int, work: WorkArea, margin: int) -> int {
    let min_x = work.left + margin;
    let max_x = max_int(work.right - width - margin, min_x);
    clamp_int(cursor_x - width / 2, min_x, max_x)
}

/// The arithmetic of `spec_centered_x` stays within `i32`.
pub open spec fn centered_x_fits(cursor_x: int, width: int, work: WorkArea, margin: int) -> bool {
    &&& work.left + margin <= i32::MAX
    &&& work.right - width - margin >= i32::MIN
    &&& cursor_x - width / 2 >= i32::MIN
}

fn centered_x(cursor_x: i32, width: i32, work: WorkArea, margin: i32) -> (x: i32)
    requires
        0 < width,
        0 <= margin,
        width + margin <= i32::MAX,
        centered_x_fits(cursor_x as int, width as int, work, margin as int),
    ensures
        x == spec_centered_x(cursor_x as int, width as int, work, margin as int),
{
    let min_x = work.left + margin;
    let right_x = work.right - width - margin;
    let max_x = if right_x >= min_x {
        right_x
    } else {
        min_x
    };
    let centred = cursor_x - width / 2;
    if centred < min_x {
        min_x
    } else if centred > max_x {
        max_x
    } else {
        centred
    }
}

/// Where the usage popup opens: centred under the cursor, 10 pixels above the
/// bottom of the work area, 8 pixels inside its other edges.
pub open spec fn spec_popup_position(cursor_x: int, work: WorkArea, height: int) -> (int, int) {
    (
        spec_centered_x(cursor_x, 320, work, 8),
        max_int(work.bottom - height - 10, work.top + 8),
    )
}

/// The arithmetic of `spec_popup_position` stays within `i32`.
pub open spec fn popup_position_fits(cursor_x: int, work: WorkArea, height: int) -> bool {
    &&& centered_x_fits(cursor_x, 320, work, 8)
    &&& work.bottom - height - 10 >= i32::MIN
    &&& work.bottom - height <= i32::MAX
    &&& work.top + 8 <= i32::MAX
}

/// Places the usage popup for a cursor in a work area.
pub fn popup_position(cursor_x: i32, work: WorkArea, height: i32) -> (pos: (i32, i32))
    requires
        popup_position_fits(cursor_x as int, work, height as int),
    ensures
        (pos.0 as int, pos.1 as int) == spec_popup_position(cursor_x as int, work, height as int),
{
    let x = centered_x(cursor_x, 320, work, 8);
    let low = work.bottom - height - 10;
    let high = work.top + 8;
    (x, if low >= high { low } else { high })
}

/// Where the tray menu opens: centred on the cursor, its bottom 8 pixels above
/// it, kept 8 pixels inside the work area.
pub open spec fn spec_menu_position(cursor_x: int, cursor_y: int, work: WorkArea) -> (int, int) {
    let min_y = work.top + 8;
    let max_y = max_int(work.bottom - 318 - 8, min_y);
    (spec_centered_x(cursor_x, 220, work, 8), clamp_int(cursor_y - 318 - 8, min_y, max_y))
}

/// The arithmetic of `spec_menu_position` stays within `i32`.
pub open spec fn menu_position_fits(cursor_x: int, cursor_y: int, work: WorkArea) -> bool {
    &&& centered_x_fits(cursor_x, 220, work, 8)
    &&& work.top + 8 <= i32::MAX
    &&& work.bottom - 318 - 8 >= i32::MIN
    &&& cursor_y - 318 - 8 >= i32::MIN
}

/// Places the tray menu for a cursor in a work area.
pub fn menu_position(cursor_x: i32, cursor_y: i32, work: WorkArea) -> (pos: (i32, i32))
    requires
        menu_position_fits(cursor_x as int, cursor_y as int, work),
    ensures
        (pos.0 as int, pos.1 as int) == spec_menu_position(cursor_x as int, cursor_y as int, work),
{
    let x = centered_x(cursor_x, 220, work, 8);
    let min_y = work.top + 8;
    let low = work.bottom - 318 - 8;
    let max_y = if low >= min_y {
        low
    } else {
        min_y
    };
    let want = cursor_y - 318 - 8;
    let y = if want < min_y {
        min_y
    } else if want > max_y {
        max_y
    } else {
        want
    };
    (x, y)
}

/// The new top edge of the visible popup when its height changes: its bottom
/// edge stays, but it does not rise above 8 pixels below the work area's top.
pub fn resized_top(bottom: i32, height: i32, work_top: i32) -> (top: i32)
    requires
        i32::MIN <= bottom - height <= i32::MAX,
        work_top + 8 <= i32::MAX,
    ensures
        top == max_int(bottom - height, work_top + 8),
{
    let a = bottom - height;
    let b = work_top + 8;
    if a >= b {
        a
    } else {
        b
    }
}

/// A window placed by `spec_centered_x` keeps `margin` inside a work area that
/// is wide enough for it.
pub proof fn lemma_centered_inside(cursor_x: int, width: int, work: WorkArea, margin: int)
    requires
        width > 0,
        work.right - work.left >= width + 2 * margin,
    ensures
        work.left + margin <= spec_centered_x(cursor_x, width, work, margin),
        spec_centered_x(cursor_x, width, work, margin) + width <= work.right - margin,
{
}

// ---------------------------------------------------------------------------
// Timing
// ---------------------------------------------------------------------------

/// How long the popup stays open, in milliseconds.
pub const HIDE_DELAY_MS: u32 = 8000;

/// The least time between two usage requests, in nanoseconds.
pub const USAGE_DEBOUNCE_NANOS: u64 = 10_000_000_000;

/// The least time between two reset-credit requests, in nanoseconds.
pub const CREDITS_REFRESH_NANOS: u64 = 3_600_000_000_000;

/// How soon after the popup lost focus a tray click still counts as the
/// click that closed it, in nanoseconds.
pub const DEACTIVATE_TOGGLE_NANOS: u64 = 750_000_000;

/// The refresh period when nothing else is chosen, in minutes.
pub const DEFAULT_REFRESH_MINUTES: u32 = 5;

/// The time from `earlier` to `later`, zero where `later` comes first (as
/// `Instant::duration_since` saturates).
pub open spec fn elapsed(earlier: u64, later: u64) -> int {
    if later >= earlier {
        later - earlier
    } else {
        0
    }
}

/// When a kind of request was last let through (a monotonic time in
/// nanoseconds).
#[derive(Clone, Copy, Debug, Default, PartialEq, Eq, Structural)]
pub struct RequestThrottle {
    pub last: Option<u64>,
}

impl RequestThrottle {
    /// A throttle that lets the first request through.
    pub fn new() -> (t: Self)
        ensures
            t.last is None,
    {
        RequestThrottle { last: None }
    }

    /// A request at `now` is due unless the last one let through is less than
    /// `min_interval` ago.
    pub open spec fn is_due(self, now: u64, min_interval: u64) -> bool {
        match self.last {
            Some(p) => elapsed(p, now) >= min_interval,
            None => true,
        }
    }

    /// Lets a request at `now` through when it is due, and then remembers it.
    pub fn mark_request_due(&mut self, now: u64, min_interval: u64) -> (due: bool)
        ensures
            due == old(self).is_due(now, min_interval),
            final(self).last == (if due {
                Some(now)
            } else {
                old(self).last
            }),
    {
        if let Some(previous) = self.last {
            let since = if now >= previous {
                now - previous
            } else {
                0
            };
            if since < min_interval {
                return false;
            }
        }
        self.last = Some(now);
        true
    }
}

/// Once a request is let through at `now`, none is let through within the
/// interval after it, and one is again from the end of the interval on.
pub proof fn lemma_throttle_debounces(now: u64, later: u64, min_interval: u64)
    requires
        now <= later,
    ensures
        (RequestThrottle { last: Some(now) }).is_due(later, min_interval) <==> later - now
            >= min_interval,
{
}

/// One kind of request: whether a fetch of it is in flight, and when the
/// last one was let through.
#[derive(Clone, Copy, Debug, Default, PartialEq, Eq, Structural)]
pub struct RequestGate {
    pub in_flight: bool,
    pub throttle: RequestThrottle,
}

/// A fetch may start at `now`: none is in flight, and the last one started
/// at least `min_interval` ago.
pub open spec fn start_allowed(g: RequestGate, now: u64, min_interval: u64) -> bool {
    !g.in_flight && g.throttle.is_due(now, min_interval)
}

impl RequestGate {
    /// Nothing in flight, nothing let through yet.
    pub fn new() -> (g: Self)
        ensures
            !g.in_flight,
            g.throttle.last is None,
    {
        RequestGate { in_flight: false, throttle: RequestThrottle::new() }
    }

    /// Starts a fetch at `now` where one may start: it is then in flight and
    /// remembered; otherwise nothing changes.
    pub fn try_start(&mut self, now: u64, min_interval: u64) -> (started: bool)
        ensures
            started == start_allowed(*old(self), now, min_interval),
            started ==> final(self).in_flight && final(self).throttle.last == Some(now),
            !started ==> *final(self) == *old(self),
    {
        if self.in_flight {
            return false;
        }
        if self.throttle.mark_request_due(now, min_interval) {
            self.in_flight = true;
            true
        } else {
            false
        }
    }

    /// The fetch in flight has ended.
    pub fn finish(&mut self)
        ensures
            !final(self).in_flight,
            final(self).throttle == old(self).throttle,
    {
        self.in_flight = false;
    }
}

/// At most one fetch is in flight, and starts lie at least the interval
/// apart: after a fetch started at `started_at`, no other starts until it has
/// finished, and then one starts at `later` exactly when the interval has
/// passed.
pub proof fn lemma_one_fetch_in_flight(started_at: u64, later: u64, min_interval: u64)
    requires
        started_at <= later,
    ensures
        !start_allowed(
            RequestGate { in_flight: true, throttle: RequestThrottle { last: Some(started_at) } },
            later,
            min_interval,
        ),
        start_allowed(
            RequestGate { in_flight: false, throttle: RequestThrottle { last: Some(started_at) } },
            later,
            min_interval,
        ) <==> later - started_at >= min_interval,
{
}

/// When the popup last lost focus (a monotonic time in nanoseconds).
#[derive(Clone, Copy, Debug, Default, PartialEq, Eq, Structural)]
pub struct DeactivateMarker {
    pub last: Option<u64>,
}

impl DeactivateMarker {
    /// No loss of focus recorded.
    pub fn new() -> (m: Self)
        ensures
            m.last is None,
    {
        DeactivateMarker { last: None }
    }

    /// Records that the popup lost focus at `now`.
    pub fn mark_popup_deactivated(&mut self, now: u64)
        ensures
            final(self).last == Some(now),
    {
        self.last = Some(now);
    }

    /// Forgets a recorded loss of focus.
    pub fn clear_popup_deactivate_marker(&mut self)
        ensures
            final(self).last is None,
    {
        self.last = None;
    }

    /// The recorded loss of focus lies at most the toggle window before `now`.
    pub open spec fn is_recent(self, now: u64) -> bool {
        match self.last {
            Some(p) => elapsed(p, now) <= DEACTIVATE_TOGGLE_NANOS,
            None => false,
        }
    }

    /// Whether the popup lost focus just before `now`; the record is used up.
    pub fn consume_recent_popup_deactivate(&mut self, now: u64) -> (recent: bool)
        ensures
            recent == old(self).is_recent(now),
            final(self).last is None,
    {
        let recent = match self.last {
            Some(previous) => {
                let since = if now >= previous {
                    now - previous
                } else {
                    0
                };
                since <= DEACTIVATE_TOGGLE_NANOS
            },
            None => false,
        };
        self.last = None;
        recent
    }
}

/// A loss of focus is used up by the first click that asks about it: in the
/// record that `consume_recent_popup_deactivate` leaves (none), no later click
/// finds a recent loss of focus.
pub proof fn lemma_deactivate_consumed_once(after: DeactivateMarker, later: u64)
    requires
        after.last is None,
    ensures
        !after.is_recent(later),
{
}

/// What a left click on the tray icon does to the popup.
#[derive(Clone, Copy, Debug, PartialEq, Eq, Structural)]
pub enum ToggleAction {
    /// Close the visible popup.
    Hide,
    /// Nothing: the click is the one that just took focus from the popup.
    Ignore,
    /// Open the popup.
    Show,
}

/// Decides what a tray click at `now` does: a visible popup closes; a popup
/// that lost focus within the toggle window stays closed; otherwise it opens.
/// The focus record is used up either way.
pub fn toggle_popup(marker: &mut DeactivateMarker, visible: bool, now: u64) -> (action: ToggleAction)
    ensures
        final(marker).last is None,
        action == (if visible {
            ToggleAction::Hide
        } else if old(marker).is_recent(now) {
            ToggleAction::Ignore
        } else {
            ToggleAction::Show
        }),
{
    if visible {
        marker.clear_popup_deactivate_marker();
        return ToggleAction::Hide;
    }
    if marker.consume_recent_popup_deactivate(now) {
        ToggleAction::Ignore
    } else {
        ToggleAction::Show
    }
}

/// The refresh periods the menu offers: 5, 30 or 60 minutes; anything else
/// falls back to 5.
pub open spec fn spec_refresh_minutes(minutes: u32) -> u32 {
    if minutes == 5 || minutes == 30 || minutes == 60 {
        minutes
    } else {
        5
    }
}

/// Every refresh period is one the menu offers, and offered ones are kept.
pub proof fn lemma_refresh_minutes_offered(minutes: u32)
    ensures
        spec_refresh_minutes(minutes) == 5 || spec_refresh_minutes(minutes) == 30
            || spec_refresh_minutes(minutes) == 60,
        spec_refresh_minutes(spec_refresh_minutes(minutes)) == spec_refresh_minutes(minutes),
{
}

/// Choosing a period the menu offers (5, 30 or 60 minutes) sets exactly that
/// period, and the radio row of that period is then the selected one; only a
/// period the menu does not offer falls back to 5 minutes.
pub proof fn lemma_offered_period_is_kept(model: crate::menu::MenuModel, minutes: u32)
    ensures
        (minutes == 5 || minutes == 30 || minutes == 60) ==> spec_refresh_minutes(minutes)
            == minutes,
        !(minutes == 5 || minutes == 30 || minutes == 60) ==> spec_refresh_minutes(minutes) == 5,
        minutes == 60 ==> crate::menu::spec_radio_selected(
            crate::menu::MenuModel { refresh_minutes: spec_refresh_minutes(minutes), ..model },
            crate::menu::MenuItem::Refresh60,
        ),
        minutes == 30 ==> crate::menu::spec_radio_selected(
            crate::menu::MenuModel { refresh_minutes: spec_refresh_minutes(minutes), ..model },
            crate::menu::MenuItem::Refresh30,
        ),
{
}

/// Brings a refresh period to one the menu offers.
pub fn normalize_refresh_minutes(minutes: u32) -> (m: u32)
    ensures
        m == spec_refresh_minutes(minutes),
{
    if minutes == 5 || minutes == 30 || minutes == 60 {
        minutes
    } else {
        5
    }
}

/// The refresh timer period in milliseconds: at least one minute.
pub fn refresh_interval_ms(minutes: u32) -> (ms: u32)
    requires
        minutes <= 71582,
    ensures
        ms == (if minutes >= 1 {
            minutes
        } else {
            1
        }) * 60000,
{
    let m = if minutes >= 1 {
        minutes
    } else {
        1
    };
    m * 60 * 1000
}

// ---------------------------------------------------------------------------
// Win32 values
// ---------------------------------------------------------------------------

/// The signed 16-bit value of the low 16 bits of `v`.
pub open spec fn signed_low_word(v: int) -> int {
    let u = v % 65536;
    if u >= 32768 {
        u - 65536
    } else {
        u
    }
}

/// The cursor position packed in a mouse message's `lparam`: signed 16-bit x
/// in the low word, y in the next.
pub fn point_from_lparam(lparam: isize) -> (p: (i32, i32))
    ensures
        p.0 as int == signed_low_word((lparam as u32) as int),
        p.1 as int == signed_low_word((lparam as u32) as int / 65536),
{
    let raw = lparam as u32;
    let lo: u32 = raw & 0xffff;
    let hi: u32 = (raw >> 16) & 0xffff;
    assert(lo == raw % 65536 && hi == (raw / 65536) % 65536) by (bit_vector)
        requires
            lo == raw & 0xffff,
            hi == (raw >> 16) & 0xffff,
    ;
    let x = lo as u16 as i16 as i32;
    let y = hi as u16 as i16 as i32;
    assert(x == if lo >= 32768 { lo - 65536 } else { lo as int }) by (bit_vector)
        requires
            lo < 65536,
            x == lo as u16 as i16 as i32,
    ;
    assert(y == if hi >= 32768 { hi - 65536 } else { hi as int }) by (bit_vector)
        requires
            hi < 65536,
            y == hi as u16 as i16 as i32,
    ;
    (x, y)
}

/// The red, green and blue bytes of a Win32 `COLORREF` (`0x00BBGGRR`).
pub fn rgb_from_colorref(color: u32) -> (rgb: (u8, u8, u8))
    ensures
        rgb.0 as int == color % 256,
        rgb.1 as int == (color / 256) % 256,
        rgb.2 as int == (color / 65536) % 256,
{
    let r = color & 0xff;
    let g = (color >> 8) & 0xff;
    let b = (color >> 16) & 0xff;
    assert(r == color % 256 && g == (color / 256) % 256 && b == (color / 65536) % 256)
        by (bit_vector)
        requires
            r == color & 0xff,
            g == (color >> 8) & 0xff,
            b == (color >> 16) & 0xff,
    ;
    (r as u8, g as u8, b as u8)
}

/// Apps use the dark theme when the `AppsUseLightTheme` value was read (status
/// 0) and is 0.
pub fn apps_use_dark_theme_from(status: u32, value: u32) -> (dark: bool)
    ensures
        dark == (status == 0 && value == 0),
{
    status == 0 && value == 0
}

} // verus!
