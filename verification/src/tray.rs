//! The tray icon's side of the popup: the commands it sends, where it opens
//! the popup, what its context menu returns, and the auto-hide timer that a
//! later command makes void.

use vstd::prelude::*;
use crate::popup::{max_int, spec_centered_x, centered_x_fits, WorkArea};

verus! {

/// The popup's width when the tray opens it.
pub const PANEL_WIDTH: i32 = 360;

/// The popup's height when the tray opens it.
pub const PANEL_HEIGHT: i32 = 236;

/// The context-menu entry that refreshes.
pub const CMD_REFRESH: usize = 1001;

/// The context-menu entry that quits.
pub const CMD_EXIT: usize = 1002;

/// How long the popup stays open, in milliseconds.
pub const AUTO_HIDE_DELAY_MS: u64 = 8000;

/// How often usage is refreshed, in seconds.
pub const REFRESH_INTERVAL_SECS: u64 = 300;

/// What the tray asks of the popup.
#[derive(Clone, Copy, Debug, PartialEq, Eq, Structural)]
pub enum TrayCommand {
    Show,
    Hide,
    Refresh,
    Exit,
}

/// The command of a context-menu choice, where it has one.
pub fn command_for_menu_choice(id: usize) -> (c: Option<TrayCommand>)
    ensures
        c == (if id == CMD_REFRESH {
            Some(TrayCommand::Refresh)
        } else if id == CMD_EXIT {
            Some(TrayCommand::Exit)
        } else {
            None
        }),
{
    if id == CMD_REFRESH {
        Some(TrayCommand::Refresh)
    } else if id == CMD_EXIT {
        Some(TrayCommand::Exit)
    } else {
        None
    }
}

/// A message to the window that owns the tray icon.
#[derive(Clone, Copy, Debug, PartialEq, Eq, Structural)]
pub enum TrayWindowEvent {
    /// The tray icon reports a mouse event: a left or right button release, or
    /// another.
    TrayIcon { left_up: bool, right_up: bool },
    /// The window was activated or deactivated (`wparam` of `WM_ACTIVATE`).
    Activate(usize),
    /// The window is going away (`WM_NCDESTROY`).
    NcDestroy,
    Other,
}

/// What the tray icon's window does about a message.
#[derive(Clone, Copy, Debug, PartialEq, Eq, Structural)]
pub enum TrayWindowAction {
    /// Hand a command to the popup.
    Send(TrayCommand),
    /// Open the context menu (which may send `Refresh` or `Exit`).
    ShowContextMenu,
    /// Delete the tray icon and detach the message handler.
    RemoveIcon,
}

/// What the tray icon's window does about a message, in order, and whether
/// the message then goes on to the window's own handler (tray-icon messages
/// are answered with 0 instead).
pub open spec fn spec_tray_window_reply(event: TrayWindowEvent) -> (Seq<TrayWindowAction>, bool) {
    match event {
        TrayWindowEvent::TrayIcon { left_up, right_up } => (
            if left_up {
                seq![TrayWindowAction::Send(TrayCommand::Show)]
            } else if right_up {
                seq![TrayWindowAction::ShowContextMenu]
            } else {
                Seq::empty()
            },
            false,
        ),
        TrayWindowEvent::Activate(wparam) => (
            if crate::events::spec_is_inactive(wparam) {
                seq![TrayWindowAction::Send(TrayCommand::Hide)]
            } else {
                Seq::empty()
            },
            true,
        ),
        TrayWindowEvent::NcDestroy => (seq![TrayWindowAction::RemoveIcon], true),
        TrayWindowEvent::Other => (Seq::empty(), true),
    }
}

/// Decides what the tray icon's window does about a message.
pub fn tray_window_reply(event: TrayWindowEvent) -> (reply: (Vec<TrayWindowAction>, bool))
    ensures
        (reply.0@, reply.1) == spec_tray_window_reply(event),
{
    let mut actions: Vec<TrayWindowAction> = Vec::new();
    let mut pass_on = true;
    match event {
        TrayWindowEvent::TrayIcon { left_up, right_up } => {
            if left_up {
                actions.push(TrayWindowAction::Send(TrayCommand::Show));
            } else if right_up {
                actions.push(TrayWindowAction::ShowContextMenu);
            }
            pass_on = false;
        },
        TrayWindowEvent::Activate(wparam) => {
            if crate::events::is_inactive(wparam) {
                actions.push(TrayWindowAction::Send(TrayCommand::Hide));
            }
        },
        TrayWindowEvent::NcDestroy => {
            actions.push(TrayWindowAction::RemoveIcon);
        },
        TrayWindowEvent::Other => {},
    }
    assert((actions@, pass_on) == spec_tray_window_reply(event));
    (actions, pass_on)
}

/// Where the tray opens the popup: centred under the cursor, 12 pixels above
/// the bottom of the work area, 10 pixels inside its other edges.
pub open spec fn spec_tray_popup_position(cursor_x: int, work: WorkArea) -> (int, int) {
    (
        spec_centered_x(cursor_x, PANEL_WIDTH as int, work, 10),
        max_int(work.bottom - PANEL_HEIGHT - 12, work.top + 10),
    )
}

/// Places the popup that the tray opens.
pub fn tray_popup_position(cursor_x: i32, work: WorkArea) -> (pos: (i32, i32))
    requires
        centered_x_fits(cursor_x as int, PANEL_WIDTH as int, work, 10),
        work.bottom - PANEL_HEIGHT - 12 >= i32::MIN,
        work.top + 10 <= i32::MAX,
    ensures
        (pos.0 as int, pos.1 as int) == spec_tray_popup_position(cursor_x as int, work),
{
    let min_x = work.left + 10;
    let right_x = work.right - PANEL_WIDTH - 10;
    let max_x = if right_x >= min_x {
        right_x
    } else {
        min_x
    };
    let centred = cursor_x - PANEL_WIDTH / 2;
    let x = if centred < min_x {
        min_x
    } else if centred > max_x {
        max_x
    } else {
        centred
    };
    let low = work.bottom - PANEL_HEIGHT - 12;
    let high = work.top + 10;
    (x, if low >= high { low } else { high })
}

/// The generation of the auto-hide timer: each show or hide starts a new one,
/// and a timer hides the popup only if no show or hide came after it.
#[derive(Clone, Copy, Debug, Default, PartialEq, Eq, Structural)]
pub struct HideTimer {
    pub generation: u64,
}

impl HideTimer {
    /// Starts a new generation for a timer set now; returns it.
    pub fn arm(&mut self) -> (g: u64)
        requires
            old(self).generation < u64::MAX,
        ensures
            g == old(self).generation + 1,
            final(self).generation == g,
    {
        self.generation = self.generation + 1;
        self.generation
    }

    /// Makes every pending timer void.
    pub fn cancel(&mut self)
        ensures
            final(self).generation == wrapping_next(old(self).generation),
    {
        self.generation = self.generation.wrapping_add(1);
    }

    /// Whether a timer of generation `g` still hides the popup when it fires.
    pub fn fires(&self, g: u64) -> (b: bool)
        ensures
            b == (self.generation == g),
    {
        self.generation == g
    }
}

/// What the popup does on a tray command.
#[derive(Clone, Copy, Debug, PartialEq, Eq, Structural)]
pub enum TrayEffect {
    /// Place and show the popup.
    ShowPopup,
    /// Request usage unless a request is running.
    StartRefresh,
    /// Send `Hide` after the auto-hide delay, tagged with this generation.
    ScheduleHide(u64),
    /// Hide the popup.
    HidePopup,
    /// Remove the tray icon.
    RemoveTray,
    /// Quit the application.
    Quit,
}

/// The generation after `generation`, wrapping at the top as the atomic
/// counter does.
pub open spec fn wrapping_next(generation: u64) -> u64 {
    if generation == u64::MAX {
        0
    } else {
        (generation + 1) as u64
    }
}

/// The timer generation after a tray command: `Show` and `Hide` start a new
/// one.
pub open spec fn spec_next_generation(generation: u64, command: TrayCommand) -> u64 {
    match command {
        TrayCommand::Show | TrayCommand::Hide => wrapping_next(generation),
        _ => generation,
    }
}

/// What the popup does on a tray command, in order.
pub open spec fn spec_tray_effects(generation: u64, command: TrayCommand) -> Seq<TrayEffect> {
    match command {
        TrayCommand::Show => seq![
            TrayEffect::ShowPopup,
            TrayEffect::StartRefresh,
            TrayEffect::ScheduleHide((generation + 1) as u64),
        ],
        TrayCommand::Hide => seq![TrayEffect::HidePopup],
        TrayCommand::Refresh => seq![TrayEffect::StartRefresh],
        TrayCommand::Exit => seq![TrayEffect::RemoveTray, TrayEffect::Quit],
    }
}

/// Handles one tray command: `Show` shows the popup, refreshes and arms a new
/// auto-hide timer; `Hide` voids pending timers and hides it; `Refresh`
/// refreshes; `Exit` removes the icon and quits.  A `Show` needs a generation
/// below the top, since the new one is computed by adding one.
pub fn handle_tray_command(timer: &mut HideTimer, command: TrayCommand) -> (effects: Vec<TrayEffect>)
    requires
        command == TrayCommand::Show ==> old(timer).generation < u64::MAX,
    ensures
        effects@ == spec_tray_effects(old(timer).generation, command),
        final(timer).generation == spec_next_generation(old(timer).generation, command),
{
    let mut effects: Vec<TrayEffect> = Vec::new();
    match command {
        TrayCommand::Show => {
            effects.push(TrayEffect::ShowPopup);
            effects.push(TrayEffect::StartRefresh);
            let g = timer.arm();
            effects.push(TrayEffect::ScheduleHide(g));
        },
        TrayCommand::Hide => {
            timer.cancel();
            effects.push(TrayEffect::HidePopup);
        },
        TrayCommand::Refresh => {
            effects.push(TrayEffect::StartRefresh);
        },
        TrayCommand::Exit => {
            effects.push(TrayEffect::RemoveTray);
            effects.push(TrayEffect::Quit);
        },
    }
    assert(effects@ == spec_tray_effects(old(timer).generation, command));
    effects
}

/// A timer armed by a `Show` no longer hides the popup once another `Show` or
/// a `Hide` has been handled, and still does after a `Refresh` or an `Exit`.
pub proof fn lemma_later_command_voids_timer(g: u64, later: TrayCommand)
    ensures
        spec_next_generation(g, later) != g <==> (later == TrayCommand::Show || later
            == TrayCommand::Hide),
{
}

/// The timer generation after handling `commands` in order, from `generation`.
pub open spec fn generation_after(generation: u64, commands: Seq<TrayCommand>) -> u64
    decreases commands.len(),
{
    if commands.len() == 0 {
        generation
    } else {
        spec_next_generation(generation_after(generation, commands.drop_last()), commands.last())
    }
}

/// Whether a command starts a new timer generation (`Show` or `Hide`).
pub open spec fn voids_timer(command: TrayCommand) -> bool {
    command == TrayCommand::Show || command == TrayCommand::Hide
}

/// How many of `commands` are a `Show` or a `Hide`.
pub open spec fn voiding_count(commands: Seq<TrayCommand>) -> nat
    decreases commands.len(),
{
    if commands.len() == 0 {
        0
    } else {
        voiding_count(commands.drop_last()) + if voids_timer(commands.last()) {
            1nat
        } else {
            0nat
        }
    }
}

proof fn lemma_generation_after_counts(g: u64, commands: Seq<TrayCommand>)
    ensures
        generation_after(g, commands) as int == (g + voiding_count(commands)) % 0x1_0000_0000_0000_0000,
    decreases commands.len(),
{
    if commands.len() > 0 {
        lemma_generation_after_counts(g, commands.drop_last());
        let prev = generation_after(g, commands.drop_last());
        let k = voiding_count(commands.drop_last());
        if voids_timer(commands.last()) {
            assert(((g + k) % 0x1_0000_0000_0000_0000 + 1) % 0x1_0000_0000_0000_0000 == (g + k + 1)
                % 0x1_0000_0000_0000_0000) by (nonlinear_arith);
        }
    }
}

/// A timer armed with generation `g` (the `ScheduleHide(g)` of a `Show`) still
/// hides the popup after the tray commands that follow exactly when none of
/// them is a `Show` or a `Hide`: a stale timer never hides a popup shown again
/// or hidden since.  (The generation wraps, so this needs fewer than 2^64
/// `Show`s and `Hide`s in between.)
pub proof fn lemma_stale_timer_never_fires(g: u64, later: Seq<TrayCommand>)
    requires
        voiding_count(later) <= u64::MAX,
    ensures
        generation_after(g, later) == g <==> voiding_count(later) == 0,
{
    lemma_generation_after_counts(g, later);
}

/// What each tray command does: `Show` shows the popup, refreshes, and arms a
/// hide timer of a new generation that fires unless another `Show` or `Hide`
/// comes first; `Hide` hides the popup; `Refresh` only refreshes; `Exit`
/// removes the tray icon and quits.
pub proof fn lemma_tray_command_intents(g: u64, later: Seq<TrayCommand>)
    requires
        g < u64::MAX,
        voiding_count(later) <= u64::MAX,
    ensures
        ({
            let e = spec_tray_effects(g, TrayCommand::Show);
            &&& e.len() == 3
            &&& e[0] == TrayEffect::ShowPopup
            &&& e[1] == TrayEffect::StartRefresh
            &&& e[2] == TrayEffect::ScheduleHide(spec_next_generation(g, TrayCommand::Show))
            &&& spec_next_generation(g, TrayCommand::Show) != g
            &&& (generation_after(spec_next_generation(g, TrayCommand::Show), later)
                == spec_next_generation(g, TrayCommand::Show) <==> voiding_count(later) == 0)
        }),
        spec_tray_effects(g, TrayCommand::Hide).len() == 1 && spec_tray_effects(
            g,
            TrayCommand::Hide,
        )[0] == TrayEffect::HidePopup,
        spec_tray_effects(g, TrayCommand::Refresh).len() == 1 && spec_tray_effects(
            g,
            TrayCommand::Refresh,
        )[0] == TrayEffect::StartRefresh,
        spec_tray_effects(g, TrayCommand::Exit).len() == 2 && spec_tray_effects(
            g,
            TrayCommand::Exit,
        )[0] == TrayEffect::RemoveTray && spec_tray_effects(g, TrayCommand::Exit)[1]
            == TrayEffect::Quit,
{
    lemma_stale_timer_never_fires(spec_next_generation(g, TrayCommand::Show), later);
}

} // verus!
