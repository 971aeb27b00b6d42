//! The window messages of the popup and of the tray menu, turned into what
//! each window does about them.

use vstd::prelude::*;
use crate::menu::{
    hit_test, menu_action, spec_hit_test, spec_menu_action, update_hover, MenuAction, MenuModel,
};

verus! {

/// The timer that refreshes usage.
pub const TIMER_REFRESH: usize = 1;

/// The timer that hides the popup.
pub const TIMER_HIDE: usize = 2;

/// Whether an activation message's `wparam` says the window lost focus (its
/// low word is `WA_INACTIVE`, 0).
pub open spec fn spec_is_inactive(wparam: usize) -> bool {
    wparam % 65536 == 0
}

/// Whether an activation message's `wparam` says the window lost focus.
pub fn is_inactive(wparam: usize) -> (b: bool)
    ensures
        b == spec_is_inactive(wparam),
{
    wparam % 65536 == 0
}

/// A message to the popup window.
#[derive(Clone, Copy, Debug, PartialEq, Eq, Structural)]
pub enum PopupEvent {
    /// The tray icon reports a mouse event: a left or right button release, or
    /// another.
    TrayIcon { left_up: bool, right_up: bool },
    /// A timer fired.
    Timer(usize),
    /// New usage or reset-credit figures arrived.
    ContentUpdated,
    /// The window was activated or deactivated (`wparam` of `WM_ACTIVATE`).
    Activate(usize),
    /// A system setting or the theme changed.
    SettingsChanged,
    EraseBackground,
    Paint,
    Destroy,
    /// Anything else.
    Other,
}

/// What the popup window does.
#[derive(Clone, Copy, Debug, PartialEq, Eq, Structural)]
pub enum PopupAction {
    TogglePopup,
    ShowContextMenu,
    RefreshUsage,
    RefreshCreditsIfDue,
    KillHideTimer,
    KillRefreshTimer,
    HidePopup,
    MarkDeactivated,
    ResizeForContent,
    Invalidate,
    ApplyWindowAttributes,
    /// Re-apply attributes to the menu window and repaint it, where it exists.
    RefreshMenuWindow,
    Paint,
    RemoveTrayIcon,
    DestroyMenuWindow,
    DropRenderer,
    PostQuit,
    /// Hand the message to `DefWindowProcW`.
    DefaultProcedure,
}

/// What the popup window does about a message (given whether it is visible),
/// in order, and the value it answers with where it handles the message.
pub open spec fn spec_popup_reply(event: PopupEvent, visible: bool) -> (Seq<PopupAction>, isize) {
    match event {
        PopupEvent::TrayIcon { left_up, right_up } => (
            if left_up {
                seq![PopupAction::TogglePopup]
            } else if right_up {
                seq![PopupAction::ShowContextMenu]
            } else {
                Seq::empty()
            },
            0,
        ),
        PopupEvent::Timer(id) => (
            if id == TIMER_REFRESH {
                seq![PopupAction::RefreshUsage, PopupAction::RefreshCreditsIfDue]
            } else if id == TIMER_HIDE {
                seq![PopupAction::KillHideTimer, PopupAction::HidePopup]
            } else {
                Seq::empty()
            },
            0,
        ),
        PopupEvent::ContentUpdated => (
            seq![PopupAction::ResizeForContent, PopupAction::Invalidate],
            0,
        ),
        PopupEvent::Activate(wparam) => (
            if spec_is_inactive(wparam) && visible {
                seq![PopupAction::KillHideTimer, PopupAction::MarkDeactivated, PopupAction::HidePopup]
            } else {
                Seq::empty()
            },
            0,
        ),
        PopupEvent::SettingsChanged => (
            seq![
                PopupAction::ApplyWindowAttributes,
                PopupAction::Invalidate,
                PopupAction::RefreshMenuWindow,
            ],
            0,
        ),
        PopupEvent::EraseBackground => (Seq::empty(), 1),
        PopupEvent::Paint => (seq![PopupAction::Paint], 0),
        PopupEvent::Destroy => (
            seq![
                PopupAction::KillRefreshTimer,
                PopupAction::KillHideTimer,
                PopupAction::RemoveTrayIcon,
                PopupAction::DestroyMenuWindow,
                PopupAction::DropRenderer,
                PopupAction::PostQuit,
            ],
            0,
        ),
        PopupEvent::Other => (seq![PopupAction::DefaultProcedure], 0),
    }
}

/// New figures are always repainted: whenever the popup resizes for new
/// content it then invalidates itself, so the figures that arrived are
/// painted; and on a content-updated message its actions are exactly a resize
/// followed by a repaint, answered with 0, whether it is visible or not.
pub proof fn lemma_new_figures_repainted(event: PopupEvent, visible: bool)
    ensures
        spec_popup_reply(PopupEvent::ContentUpdated, visible).0.len() == 2,
        spec_popup_reply(PopupEvent::ContentUpdated, visible).0[0] == PopupAction::ResizeForContent,
        spec_popup_reply(PopupEvent::ContentUpdated, visible).0[1] == PopupAction::Invalidate,
        spec_popup_reply(PopupEvent::ContentUpdated, visible).1 == 0,
        forall|i: int|
            0 <= i < spec_popup_reply(event, visible).0.len() && #[trigger] spec_popup_reply(
                event,
                visible,
            ).0[i] == PopupAction::ResizeForContent ==> exists|j: int|
                i < j < spec_popup_reply(event, visible).0.len() && spec_popup_reply(
                    event,
                    visible,
                ).0[j] == PopupAction::Invalidate,
{
    let acts = spec_popup_reply(event, visible).0;
    assert forall|i: int|
        0 <= i < acts.len() && #[trigger] acts[i] == PopupAction::ResizeForContent implies exists|
        j: int,
    | i < j < acts.len() && acts[j] == PopupAction::Invalidate by {
        assert(event == PopupEvent::ContentUpdated);
        assert(acts[1] == PopupAction::Invalidate);
    }
}

/// What each message asks of the popup: a left click on the tray icon toggles
/// it and a right click (alone) opens the menu; the hide timer hides it; the
/// refresh timer refreshes usage and, where due, reset credits; losing focus
/// while visible hides it and records the loss of focus, and nothing else
/// hides it on activation; erasing the background is answered with 1; a
/// message it does not handle goes to the default procedure.
pub proof fn lemma_popup_reply_intents(visible: bool, wparam: usize, left_up: bool, right_up: bool)
    ensures
        left_up ==> spec_popup_reply(PopupEvent::TrayIcon { left_up, right_up }, visible).0[0]
            == PopupAction::TogglePopup,
        !left_up && right_up ==> spec_popup_reply(
            PopupEvent::TrayIcon { left_up, right_up },
            visible,
        ).0[0] == PopupAction::ShowContextMenu,
        spec_popup_reply(PopupEvent::Timer(TIMER_HIDE), visible).0.last() == PopupAction::HidePopup,
        spec_popup_reply(PopupEvent::Timer(TIMER_REFRESH), visible).0[0]
            == PopupAction::RefreshUsage,
        spec_popup_reply(PopupEvent::Timer(TIMER_REFRESH), visible).0[1]
            == PopupAction::RefreshCreditsIfDue,
        wparam % 65536 == 0 && visible ==> {
            let a = spec_popup_reply(PopupEvent::Activate(wparam), visible).0;
            &&& a.len() == 3
            &&& a[1] == PopupAction::MarkDeactivated
            &&& a[2] == PopupAction::HidePopup
        },
        !(wparam % 65536 == 0 && visible) ==> spec_popup_reply(
            PopupEvent::Activate(wparam),
            visible,
        ).0.len() == 0,
        spec_popup_reply(PopupEvent::EraseBackground, visible).1 == 1,
        spec_popup_reply(PopupEvent::Other, visible).0[0] == PopupAction::DefaultProcedure,
        spec_popup_reply(PopupEvent::Destroy, visible).0.last() == PopupAction::PostQuit,
{
}

/// Decides what the popup window does about a message.
pub fn popup_reply(event: PopupEvent, visible: bool) -> (reply: (Vec<PopupAction>, isize))
    ensures
        (reply.0@, reply.1) == spec_popup_reply(event, visible),
{
    let mut actions: Vec<PopupAction> = Vec::new();
    let mut result: isize = 0;
    match event {
        PopupEvent::TrayIcon { left_up, right_up } => {
            if left_up {
                actions.push(PopupAction::TogglePopup);
            } else if right_up {
                actions.push(PopupAction::ShowContextMenu);
            }
        },
        PopupEvent::Timer(id) => {
            if id == TIMER_REFRESH {
                actions.push(PopupAction::RefreshUsage);
                actions.push(PopupAction::RefreshCreditsIfDue);
            } else if id == TIMER_HIDE {
                actions.push(PopupAction::KillHideTimer);
                actions.push(PopupAction::HidePopup);
            }
        },
        PopupEvent::ContentUpdated => {
            actions.push(PopupAction::ResizeForContent);
            actions.push(PopupAction::Invalidate);
        },
        PopupEvent::Activate(wparam) => {
            if is_inactive(wparam) && visible {
                actions.push(PopupAction::KillHideTimer);
                actions.push(PopupAction::MarkDeactivated);
                actions.push(PopupAction::HidePopup);
            }
        },
        PopupEvent::SettingsChanged => {
            actions.push(PopupAction::ApplyWindowAttributes);
            actions.push(PopupAction::Invalidate);
            actions.push(PopupAction::RefreshMenuWindow);
        },
        PopupEvent::EraseBackground => {
            result = 1;
        },
        PopupEvent::Paint => {
            actions.push(PopupAction::Paint);
        },
        PopupEvent::Destroy => {
            actions.push(PopupAction::KillRefreshTimer);
            actions.push(PopupAction::KillHideTimer);
            actions.push(PopupAction::RemoveTrayIcon);
            actions.push(PopupAction::DestroyMenuWindow);
            actions.push(PopupAction::DropRenderer);
            actions.push(PopupAction::PostQuit);
        },
        PopupEvent::Other => {
            actions.push(PopupAction::DefaultProcedure);
        },
    }
    assert((actions@, result) == spec_popup_reply(event, visible));
    (actions, result)
}

/// A message to the tray menu window.
#[derive(Clone, Copy, Debug, PartialEq, Eq, Structural)]
pub enum MenuEvent {
    /// The pointer moved to a point in menu coordinates.
    MouseMove(i32, i32),
    /// The left button was released at a point.
    LeftUp(i32, i32),
    RightUp,
    /// The window was activated or deactivated (`wparam` of `WM_ACTIVATE`).
    Activate(usize),
    SettingsChanged,
    EraseBackground,
    Paint,
    Destroy,
    Other,
}

/// What the tray menu window does.
#[derive(Clone, Copy, Debug, PartialEq, Eq, Structural)]
pub enum MenuWindowAction {
    Invalidate,
    /// Carry out the action of the chosen row.
    Choose(MenuAction),
    HideMenu,
    ApplyWindowAttributes,
    Paint,
    DropRenderer,
    DefaultProcedure,
}

/// What the tray menu does about a message, and the value it answers with.
/// Moving the pointer moves the hover mark (repainting where it changed);
/// deactivation hides the menu and clears the mark.
pub open spec fn spec_menu_reply(old_hover: Option<crate::menu::MenuItem>, event: MenuEvent) -> (
    Seq<MenuWindowAction>,
    isize,
) {
    match event {
        MenuEvent::MouseMove(x, y) => (
            if old_hover != spec_hit_test(x as int, y as int) {
                seq![MenuWindowAction::Invalidate]
            } else {
                Seq::empty()
            },
            0,
        ),
        MenuEvent::LeftUp(x, y) => (
            match spec_hit_test(x as int, y as int) {
                Some(item) => seq![MenuWindowAction::Choose(spec_menu_action(item))],
                None => Seq::empty(),
            },
            0,
        ),
        MenuEvent::RightUp => (seq![MenuWindowAction::HideMenu], 0),
        MenuEvent::Activate(wparam) => (
            if spec_is_inactive(wparam) {
                seq![MenuWindowAction::HideMenu]
            } else {
                Seq::empty()
            },
            0,
        ),
        MenuEvent::SettingsChanged => (
            seq![MenuWindowAction::ApplyWindowAttributes, MenuWindowAction::Invalidate],
            0,
        ),
        MenuEvent::EraseBackground => (Seq::empty(), 1),
        MenuEvent::Paint => (seq![MenuWindowAction::Paint], 0),
        MenuEvent::Destroy => (seq![MenuWindowAction::DropRenderer], 0),
        MenuEvent::Other => (seq![MenuWindowAction::DefaultProcedure], 0),
    }
}

/// The hover mark after a message.
pub open spec fn spec_menu_hover_after(old_hover: Option<crate::menu::MenuItem>, event: MenuEvent) -> Option<
    crate::menu::MenuItem,
> {
    match event {
        MenuEvent::MouseMove(x, y) => spec_hit_test(x as int, y as int),
        MenuEvent::Activate(wparam) => if spec_is_inactive(wparam) {
            None
        } else {
            old_hover
        },
        _ => old_hover,
    }
}

/// What each message asks of the tray menu: releasing the left button over a
/// row carries out that row's action and nothing else, and off the rows does
/// nothing; a right click or losing focus hides the menu, and losing focus
/// also clears the hover mark; moving the pointer puts the hover mark on the
/// row under it and repaints exactly when the mark moved.
pub proof fn lemma_menu_reply_intents(hover: Option<crate::menu::MenuItem>, x: i32, y: i32, wparam: usize)
    ensures
        spec_hit_test(x as int, y as int) matches Some(item) ==> {
            let a = spec_menu_reply(hover, MenuEvent::LeftUp(x, y)).0;
            a.len() == 1 && a[0] == MenuWindowAction::Choose(spec_menu_action(item))
        },
        spec_hit_test(x as int, y as int) is None ==> spec_menu_reply(hover, MenuEvent::LeftUp(x, y)).0.len()
            == 0,
        spec_menu_reply(hover, MenuEvent::RightUp).0[0] == MenuWindowAction::HideMenu,
        wparam % 65536 == 0 ==> spec_menu_reply(hover, MenuEvent::Activate(wparam)).0[0]
            == MenuWindowAction::HideMenu && spec_menu_hover_after(hover, MenuEvent::Activate(wparam))
            is None,
        spec_menu_hover_after(hover, MenuEvent::MouseMove(x, y)) == spec_hit_test(x as int, y as int),
        (spec_menu_reply(hover, MenuEvent::MouseMove(x, y)).0.len() > 0) == (hover != spec_hit_test(
            x as int,
            y as int,
        )),
{
}

/// Decides what the tray menu does about a message, updating its hover mark.
pub fn menu_reply(model: &mut MenuModel, event: MenuEvent) -> (reply: (Vec<MenuWindowAction>, isize))
    ensures
        (reply.0@, reply.1) == spec_menu_reply(old(model).hovered, event),
        final(model).hovered == spec_menu_hover_after(old(model).hovered, event),
        final(model).display_remaining == old(model).display_remaining,
        final(model).refresh_minutes == old(model).refresh_minutes,
{
    let mut actions: Vec<MenuWindowAction> = Vec::new();
    let mut result: isize = 0;
    match event {
        MenuEvent::MouseMove(x, y) => {
            let item = hit_test(x, y);
            if update_hover(model, item) {
                actions.push(MenuWindowAction::Invalidate);
            }
        },
        MenuEvent::LeftUp(x, y) => {
            if let Some(item) = hit_test(x, y) {
                actions.push(MenuWindowAction::Choose(menu_action(item)));
            }
        },
        MenuEvent::RightUp => {
            actions.push(MenuWindowAction::HideMenu);
        },
        MenuEvent::Activate(wparam) => {
            if is_inactive(wparam) {
                actions.push(MenuWindowAction::HideMenu);
                model.hovered = None;
            }
        },
        MenuEvent::SettingsChanged => {
            actions.push(MenuWindowAction::ApplyWindowAttributes);
            actions.push(MenuWindowAction::Invalidate);
        },
        MenuEvent::EraseBackground => {
            result = 1;
        },
        MenuEvent::Paint => {
            actions.push(MenuWindowAction::Paint);
        },
        MenuEvent::Destroy => {
            actions.push(MenuWindowAction::DropRenderer);
        },
        MenuEvent::Other => {
            actions.push(MenuWindowAction::DefaultProcedure);
        },
    }
    assert((actions@, result) == spec_menu_reply(old(model).hovered, event));
    (actions, result)
}

} // verus!
