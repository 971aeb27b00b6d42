//! The tray menu: its rows and where they lie, what choosing one asks for, the
//! choices it remembers and the radio rows it draws.

use vstd::prelude::*;

verus! {

/// Width of the tray menu window, in pixels.
pub const MENU_WIDTH: i32 = 220;

/// Height of the tray menu window, in pixels.
pub const MENU_HEIGHT: i32 = 318;

/// The selectable rows of the tray menu.
#[derive(Clone, Copy, Debug, PartialEq, Eq, Structural)]
pub enum MenuItem {
    Refresh,
    Remaining,
    Used,
    Refresh5,
    Refresh30,
    Refresh60,
    Exit,
}

/// The vertical band `[top, bottom)` that a menu row covers.
pub open spec fn spec_row_bounds(item: MenuItem) -> (int, int) {
    match item {
        MenuItem::Refresh => (8, 40),
        MenuItem::Remaining => (70, 102),
        MenuItem::Used => (102, 134),
        MenuItem::Refresh5 => (166, 198),
        MenuItem::Refresh30 => (198, 230),
        MenuItem::Refresh60 => (230, 262),
        MenuItem::Exit => (278, 310),
    }
}

/// The row under the point `(x, y)`, where one is.
pub open spec fn spec_hit_test(x: int, y: int) -> Option<MenuItem> {
    if !(0 <= x < MENU_WIDTH && 0 <= y < MENU_HEIGHT) {
        None
    } else if 8 <= y < 40 {
        Some(MenuItem::Refresh)
    } else if 70 <= y < 102 {
        Some(MenuItem::Remaining)
    } else if 102 <= y < 134 {
        Some(MenuItem::Used)
    } else if 166 <= y < 198 {
        Some(MenuItem::Refresh5)
    } else if 198 <= y < 230 {
        Some(MenuItem::Refresh30)
    } else if 230 <= y < 262 {
        Some(MenuItem::Refresh60)
    } else if 278 <= y < 310 {
        Some(MenuItem::Exit)
    } else {
        None
    }
}

/// Finds the menu row under a point given in menu-window coordinates.
pub fn hit_test(x: i32, y: i32) -> (item: Option<MenuItem>)
    ensures
        item == spec_hit_test(x as int, y as int),
{
    if !(0 <= x && x < MENU_WIDTH) || !(0 <= y && y < MENU_HEIGHT) {
        return None;
    }
    if 8 <= y && y < 40 {
        Some(MenuItem::Refresh)
    } else if 70 <= y && y < 102 {
        Some(MenuItem::Remaining)
    } else if 102 <= y && y < 134 {
        Some(MenuItem::Used)
    } else if 166 <= y && y < 198 {
        Some(MenuItem::Refresh5)
    } else if 198 <= y && y < 230 {
        Some(MenuItem::Refresh30)
    } else if 230 <= y && y < 262 {
        Some(MenuItem::Refresh60)
    } else if 278 <= y && y < 310 {
        Some(MenuItem::Exit)
    } else {
        None
    }
}

/// The vertical band of a menu row in pixels, top inclusive, bottom exclusive.
pub fn row_bounds(item: MenuItem) -> (b: Option<(i32, i32)>)
    ensures
        b matches Some(p) && (p.0 as int, p.1 as int) == spec_row_bounds(item),
{
    match item {
        MenuItem::Refresh => Some((8, 40)),
        MenuItem::Remaining => Some((70, 102)),
        MenuItem::Used => Some((102, 134)),
        MenuItem::Refresh5 => Some((166, 198)),
        MenuItem::Refresh30 => Some((198, 230)),
        MenuItem::Refresh60 => Some((230, 262)),
        MenuItem::Exit => Some((278, 310)),
    }
}

/// A point hits a row exactly when it lies across the menu's width within that
/// row's band: hit testing and the highlight drawn for a hovered row agree.
pub proof fn lemma_hit_test_matches_row_bounds(x: int, y: int, item: MenuItem)
    ensures
        spec_hit_test(x, y) == Some(item) <==> (0 <= x < MENU_WIDTH && spec_row_bounds(item).0 <= y
            < spec_row_bounds(item).1),
{
}

/// What the menu shows and remembers: the row under the pointer, whether the
/// popup shows what is left (or what is used), and the refresh period.
#[derive(Clone, Copy, Debug, PartialEq, Eq, Structural)]
pub struct MenuModel {
    pub hovered: Option<MenuItem>,
    pub display_remaining: bool,
    pub refresh_minutes: u32,
}

impl MenuModel {
    /// The start-up state: nothing hovered, remaining shares, 5 minutes.
    pub fn new() -> (m: Self)
        ensures
            m.hovered is None,
            m.display_remaining,
            m.refresh_minutes == 5,
    {
        MenuModel { hovered: None, display_remaining: true, refresh_minutes: 5 }
    }
}

/// What choosing a menu row asks for.
#[derive(Clone, Copy, Debug, PartialEq, Eq, Structural)]
pub enum MenuAction {
    /// Request usage and, where due, reset credits now.
    Refresh,
    /// Show what is left (`true`) or what is used (`false`).
    SetDisplayRemaining(bool),
    /// Refresh every so many minutes.
    SetRefreshMinutes(u32),
    /// Remove the tray icon and quit.
    Exit,
}

/// The action of a menu row.
pub open spec fn spec_menu_action(item: MenuItem) -> MenuAction {
    match item {
        MenuItem::Refresh => MenuAction::Refresh,
        MenuItem::Remaining => MenuAction::SetDisplayRemaining(true),
        MenuItem::Used => MenuAction::SetDisplayRemaining(false),
        MenuItem::Refresh5 => MenuAction::SetRefreshMinutes(5),
        MenuItem::Refresh30 => MenuAction::SetRefreshMinutes(30),
        MenuItem::Refresh60 => MenuAction::SetRefreshMinutes(60),
        MenuItem::Exit => MenuAction::Exit,
    }
}

/// What choosing a menu row asks for.
pub fn menu_action(item: MenuItem) -> (a: MenuAction)
    ensures
        a == spec_menu_action(item),
{
    match item {
        MenuItem::Refresh => MenuAction::Refresh,
        MenuItem::Remaining => MenuAction::SetDisplayRemaining(true),
        MenuItem::Used => MenuAction::SetDisplayRemaining(false),
        MenuItem::Refresh5 => MenuAction::SetRefreshMinutes(5),
        MenuItem::Refresh30 => MenuAction::SetRefreshMinutes(30),
        MenuItem::Refresh60 => MenuAction::SetRefreshMinutes(60),
        MenuItem::Exit => MenuAction::Exit,
    }
}

/// The remembered choices after a menu action.
pub open spec fn spec_apply_menu_action(model: MenuModel, action: MenuAction) -> MenuModel {
    match action {
        MenuAction::SetDisplayRemaining(r) => MenuModel { display_remaining: r, ..model },
        MenuAction::SetRefreshMinutes(m) => MenuModel {
            refresh_minutes: crate::popup::spec_refresh_minutes(m),
            ..model
        },
        _ => model,
    }
}

/// Applies a menu action to the remembered choices; a refresh period outside
/// 5, 30 and 60 minutes becomes 5.
pub fn apply_menu_action(model: &mut MenuModel, action: MenuAction)
    ensures
        *final(model) == spec_apply_menu_action(*old(model), action),
        final(model).hovered == old(model).hovered,
        final(model).display_remaining == (match action {
            MenuAction::SetDisplayRemaining(r) => r,
            _ => old(model).display_remaining,
        }),
        final(model).refresh_minutes == (match action {
            MenuAction::SetRefreshMinutes(m) => crate::popup::spec_refresh_minutes(m),
            _ => old(model).refresh_minutes,
        }),
{
    match action {
        MenuAction::SetDisplayRemaining(r) => {
            model.display_remaining = r;
        },
        MenuAction::SetRefreshMinutes(m) => {
            model.refresh_minutes = crate::popup::normalize_refresh_minutes(m);
        },
        _ => {},
    }
}

/// Moves the hover mark to the row under the pointer; says whether it moved
/// (and the menu must be repainted).
pub fn update_hover(model: &mut MenuModel, item: Option<MenuItem>) -> (changed: bool)
    ensures
        final(model).hovered == item,
        final(model).display_remaining == old(model).display_remaining,
        final(model).refresh_minutes == old(model).refresh_minutes,
        changed == (old(model).hovered != item),
{
    if model.hovered != item {
        model.hovered = item;
        true
    } else {
        false
    }
}

/// One radio row of the menu: its label, the top of its band, and whether its
/// choice is the current one.
#[derive(Clone, Copy, Debug, PartialEq, Eq)]
pub struct RadioRow {
    pub item: MenuItem,
    pub label: &'static str,
    pub top: i32,
    pub selected: bool,
}

/// Whether a radio row's choice is the current one.
pub open spec fn spec_radio_selected(model: MenuModel, item: MenuItem) -> bool {
    match item {
        MenuItem::Remaining => model.display_remaining,
        MenuItem::Used => !model.display_remaining,
        MenuItem::Refresh5 => model.refresh_minutes == 5,
        MenuItem::Refresh30 => model.refresh_minutes == 30,
        MenuItem::Refresh60 => model.refresh_minutes == 60,
        _ => false,
    }
}

/// The radio rows as the menu draws them, top to bottom: the two display
/// choices, then the three refresh periods; exactly one of each group is
/// selected when the period is one the menu offers.
pub fn radio_rows(model: MenuModel) -> (rows: Vec<RadioRow>)
    ensures
        rows@.len() == 5,
        rows@[0].item == MenuItem::Remaining && rows@[0].label@ == "剩余额度"@,
        rows@[1].item == MenuItem::Used && rows@[1].label@ == "已用额度"@,
        rows@[2].item == MenuItem::Refresh5 && rows@[2].label@ == "5 分钟"@,
        rows@[3].item == MenuItem::Refresh30 && rows@[3].label@ == "30 分钟"@,
        rows@[4].item == MenuItem::Refresh60 && rows@[4].label@ == "1 小时"@,
        forall|i: int|
            0 <= i < 5 ==> {
                &&& (#[trigger] rows@[i]).top as int == spec_row_bounds(rows@[i].item).0
                &&& rows@[i].selected == spec_radio_selected(model, rows@[i].item)
            },
{
    let mut rows: Vec<RadioRow> = Vec::new();
    rows.push(
        RadioRow {
            item: MenuItem::Remaining,
            label: "剩余额度",
            top: 70,
            selected: model.display_remaining,
        },
    );
    rows.push(
        RadioRow { item: MenuItem::Used, label: "已用额度", top: 102, selected: !model.display_remaining },
    );
    rows.push(
        RadioRow {
            item: MenuItem::Refresh5,
            label: "5 分钟",
            top: 166,
            selected: model.refresh_minutes == 5,
        },
    );
    rows.push(
        RadioRow {
            item: MenuItem::Refresh30,
            label: "30 分钟",
            top: 198,
            selected: model.refresh_minutes == 30,
        },
    );
    rows.push(
        RadioRow {
            item: MenuItem::Refresh60,
            label: "1 小时",
            top: 230,
            selected: model.refresh_minutes == 60,
        },
    );
    rows
}

/// Whether a row is one of the radio rows (a display choice or a period).
pub open spec fn is_radio(item: MenuItem) -> bool {
    item != MenuItem::Refresh && item != MenuItem::Exit
}

/// Choosing a radio row makes it the selected one of its group and leaves the
/// other group's choice as it was; "Refresh" and "Exit" change no remembered
/// choice; no choice moves the hover mark.
pub proof fn lemma_chosen_row_is_selected(model: MenuModel, item: MenuItem)
    ensures
        is_radio(item) ==> spec_radio_selected(
            spec_apply_menu_action(model, spec_menu_action(item)),
            item,
        ),
        (item == MenuItem::Remaining || item == MenuItem::Used) ==> spec_apply_menu_action(
            model,
            spec_menu_action(item),
        ).refresh_minutes == model.refresh_minutes,
        (item == MenuItem::Refresh5 || item == MenuItem::Refresh30 || item == MenuItem::Refresh60)
            ==> spec_apply_menu_action(model, spec_menu_action(item)).display_remaining
            == model.display_remaining,
        !is_radio(item) ==> spec_apply_menu_action(model, spec_menu_action(item)) == model,
        spec_apply_menu_action(model, spec_menu_action(item)).hovered == model.hovered,
{
}

/// A click on a radio row's band chooses that row: hit testing a point in the
/// band of the row finds it, and applying its action selects it.
pub proof fn lemma_click_selects_row(model: MenuModel, x: int, y: int, item: MenuItem)
    requires
        0 <= x < MENU_WIDTH,
        spec_row_bounds(item).0 <= y < spec_row_bounds(item).1,
        is_radio(item),
    ensures
        spec_hit_test(x, y) == Some(item),
        spec_radio_selected(spec_apply_menu_action(model, spec_menu_action(item)), item),
{
    lemma_hit_test_matches_row_bounds(x, y, item);
    lemma_chosen_row_is_selected(model, item);
}

} // verus!
