use codex_bar::events::{menu_reply, popup_reply, MenuEvent, MenuWindowAction, PopupAction, PopupEvent, TIMER_HIDE, TIMER_REFRESH};
use codex_bar::menu::{apply_menu_action, hit_test, menu_action, radio_rows, row_bounds, update_hover, MenuAction, MenuItem, MenuModel, MENU_HEIGHT, MENU_WIDTH};
use codex_bar::popup::{
    apps_use_dark_theme_from, menu_position, normalize_refresh_minutes, point_from_lparam,
    popup_position, refresh_interval_ms, resized_top, rgb_from_colorref, toggle_popup,
    DeactivateMarker, RequestGate, RequestThrottle, ToggleAction, WorkArea, CREDITS_REFRESH_NANOS,
    DEACTIVATE_TOGGLE_NANOS, DEFAULT_REFRESH_MINUTES, HIDE_DELAY_MS, USAGE_DEBOUNCE_NANOS,
};
use codex_bar::theme::{menu_palette, popup_palette, system_theme, Rgba, SystemColors, Theme};

#[test]
fn hit_test_rows_and_gaps() {
    assert_eq!(hit_test(10, 8), Some(MenuItem::Refresh));
    assert_eq!(hit_test(10, 39), Some(MenuItem::Refresh));
    assert_eq!(hit_test(10, 40), None);
    assert_eq!(hit_test(10, 70), Some(MenuItem::Remaining));
    assert_eq!(hit_test(10, 102), Some(MenuItem::Used));
    assert_eq!(hit_test(10, 166), Some(MenuItem::Refresh5));
    assert_eq!(hit_test(10, 229), Some(MenuItem::Refresh30));
    assert_eq!(hit_test(10, 261), Some(MenuItem::Refresh60));
    assert_eq!(hit_test(10, 300), Some(MenuItem::Exit));
    assert_eq!(hit_test(-1, 10), None);
    assert_eq!(hit_test(MENU_WIDTH, 10), None);
    assert_eq!(hit_test(10, MENU_HEIGHT), None);
    assert_eq!(hit_test(10, 315), None);
}

#[test]
fn row_bounds_agree_with_hit_test() {
    for item in [MenuItem::Refresh, MenuItem::Remaining, MenuItem::Used, MenuItem::Refresh5, MenuItem::Refresh30, MenuItem::Refresh60, MenuItem::Exit] {
        let (top, bottom) = row_bounds(item).unwrap();
        assert_eq!(hit_test(0, top), Some(item));
        assert_eq!(hit_test(MENU_WIDTH - 1, bottom - 1), Some(item));
    }
}

#[test]
fn menu_actions_and_settings() {
    let mut model = MenuModel::new();
    assert!(model.display_remaining);
    assert_eq!(model.refresh_minutes, DEFAULT_REFRESH_MINUTES);
    apply_menu_action(&mut model, menu_action(MenuItem::Used));
    assert!(!model.display_remaining);
    apply_menu_action(&mut model, menu_action(MenuItem::Refresh30));
    assert_eq!(model.refresh_minutes, 30);
    apply_menu_action(&mut model, MenuAction::SetRefreshMinutes(7));
    assert_eq!(model.refresh_minutes, 5);
    assert_eq!(menu_action(MenuItem::Exit), MenuAction::Exit);
    assert_eq!(menu_action(MenuItem::Refresh60), MenuAction::SetRefreshMinutes(60));
    assert!(update_hover(&mut model, Some(MenuItem::Exit)));
    assert!(!update_hover(&mut model, Some(MenuItem::Exit)));
    assert_eq!(model.hovered, Some(MenuItem::Exit));
}

#[test]
fn radio_rows_mark_current_choices() {
    let model = MenuModel { hovered: None, display_remaining: false, refresh_minutes: 60 };
    let rows = radio_rows(model);
    let selected: Vec<bool> = rows.iter().map(|r| r.selected).collect();
    assert_eq!(selected, vec![false, true, false, false, true]);
    assert_eq!(rows[3].label, "30 分钟");
    assert_eq!(rows[3].top, 198);
}

#[test]
fn popup_position_centres_and_clamps() {
    let work = WorkArea { left: 0, top: 0, right: 1920, bottom: 1040 };
    assert_eq!(popup_position(1000, work, 212), (840, 818));
    assert_eq!(popup_position(10, work, 252), (8, 778));
    assert_eq!(popup_position(1915, work, 212), (1592, 818));
    let tiny = WorkArea { left: 100, top: 50, right: 200, bottom: 60 };
    assert_eq!(popup_position(150, tiny, 212), (108, 58));
}

#[test]
fn menu_position_sits_above_cursor() {
    let work = WorkArea { left: 0, top: 0, right: 1920, bottom: 1040 };
    assert_eq!(menu_position(1000, 1030, work), (890, 704));
    assert_eq!(menu_position(1000, 100, work), (890, 8));
    assert_eq!(resized_top(900, 252, 0), 648);
    assert_eq!(resized_top(100, 252, 0), 8);
}

#[test]
fn throttle_lets_one_request_per_interval() {
    let mut t = RequestThrottle::new();
    assert!(t.mark_request_due(100, USAGE_DEBOUNCE_NANOS));
    assert!(!t.mark_request_due(100 + USAGE_DEBOUNCE_NANOS - 1, USAGE_DEBOUNCE_NANOS));
    assert_eq!(t.last, Some(100));
    assert!(t.mark_request_due(100 + USAGE_DEBOUNCE_NANOS, USAGE_DEBOUNCE_NANOS));
    assert!(!t.mark_request_due(50, USAGE_DEBOUNCE_NANOS));
    assert_eq!(CREDITS_REFRESH_NANOS, 3_600_000_000_000);
}

#[test]
fn tray_click_after_deactivate_is_ignored_once() {
    let mut m = DeactivateMarker::new();
    assert_eq!(toggle_popup(&mut m, false, 10), ToggleAction::Show);
    m.mark_popup_deactivated(1_000);
    assert_eq!(toggle_popup(&mut m, false, 1_000 + DEACTIVATE_TOGGLE_NANOS), ToggleAction::Ignore);
    assert_eq!(toggle_popup(&mut m, false, 1_000 + DEACTIVATE_TOGGLE_NANOS), ToggleAction::Show);
    m.mark_popup_deactivated(0);
    assert_eq!(toggle_popup(&mut m, false, DEACTIVATE_TOGGLE_NANOS + 1), ToggleAction::Show);
    m.mark_popup_deactivated(5);
    assert_eq!(toggle_popup(&mut m, true, 6), ToggleAction::Hide);
    assert_eq!(m.last, None);
}

#[test]
fn refresh_period_and_timers() {
    assert_eq!(normalize_refresh_minutes(30), 30);
    assert_eq!(normalize_refresh_minutes(0), 5);
    assert_eq!(refresh_interval_ms(DEFAULT_REFRESH_MINUTES), 300_000);
    assert_eq!(refresh_interval_ms(0), 60_000);
    assert_eq!(refresh_interval_ms(60), 3_600_000);
    assert_eq!(HIDE_DELAY_MS, 8000);
}

#[test]
fn win32_value_decoding() {
    assert_eq!(point_from_lparam(0x0010_0020), (32, 16));
    assert_eq!(point_from_lparam(0xFFFF_FFFEu32 as isize), (-2, -1));
    assert_eq!(rgb_from_colorref(0x00_33_22_11), (0x11, 0x22, 0x33));
    assert!(apps_use_dark_theme_from(0, 0));
    assert!(!apps_use_dark_theme_from(0, 1));
    assert!(!apps_use_dark_theme_from(2, 0));
}

#[test]
fn theme_from_system_colors() {
    let fallback = system_theme(true, (1, 2, 3), None);
    assert_eq!(fallback, Theme { dark: true, accent_rgb: (1, 2, 3) });
    let colors = SystemColors { background: Some((0, 0, 0)), accent_light2: Some((9, 9, 9)), accent_dark1: Some((7, 7, 7)) };
    assert_eq!(system_theme(false, (1, 2, 3), Some(colors)), Theme { dark: true, accent_rgb: (9, 9, 9) });
    let light = SystemColors { background: Some((128, 128, 128)), accent_light2: Some((9, 9, 9)), accent_dark1: None };
    assert_eq!(system_theme(true, (1, 2, 3), Some(light)), Theme { dark: false, accent_rgb: (1, 2, 3) });
    let edge = SystemColors { background: Some((127, 128, 128)), accent_light2: None, accent_dark1: None };
    assert!(system_theme(false, (0, 0, 0), Some(edge)).dark);
}

#[test]
fn palettes_follow_theme() {
    let dark = Theme { dark: true, accent_rgb: (10, 20, 30) };
    let p = popup_palette(dark);
    assert_eq!(p.surface_fill, Rgba { r: 32, g: 32, b: 32, a: 255 });
    assert_eq!(p.accent, Rgba { r: 10, g: 20, b: 30, a: 255 });
    let light = Theme { dark: false, accent_rgb: (10, 20, 30) };
    assert_eq!(popup_palette(light).critical, Rgba { r: 196, g: 43, b: 28, a: 255 });
    assert_eq!(menu_palette(light).hover, Rgba { r: 0, g: 0, b: 0, a: 9 });
    assert_eq!(menu_palette(dark).hover, Rgba { r: 255, g: 255, b: 255, a: 15 });
}

#[test]
fn popup_messages() {
    assert_eq!(popup_reply(PopupEvent::TrayIcon { left_up: true, right_up: false }, false), (vec![PopupAction::TogglePopup], 0));
    assert_eq!(popup_reply(PopupEvent::TrayIcon { left_up: false, right_up: true }, false), (vec![PopupAction::ShowContextMenu], 0));
    assert_eq!(popup_reply(PopupEvent::Timer(TIMER_REFRESH), true).0, vec![PopupAction::RefreshUsage, PopupAction::RefreshCreditsIfDue]);
    assert_eq!(popup_reply(PopupEvent::Timer(TIMER_HIDE), true).0, vec![PopupAction::KillHideTimer, PopupAction::HidePopup]);
    assert_eq!(popup_reply(PopupEvent::Activate(0), true).0, vec![PopupAction::KillHideTimer, PopupAction::MarkDeactivated, PopupAction::HidePopup]);
    assert!(popup_reply(PopupEvent::Activate(0), false).0.is_empty());
    assert!(popup_reply(PopupEvent::Activate(1), true).0.is_empty());
    assert_eq!(popup_reply(PopupEvent::EraseBackground, true), (vec![], 1));
    assert_eq!(popup_reply(PopupEvent::Other, true).0, vec![PopupAction::DefaultProcedure]);
}

#[test]
fn menu_messages() {
    let mut model = MenuModel::new();
    assert_eq!(menu_reply(&mut model, MenuEvent::MouseMove(10, 10)).0, vec![MenuWindowAction::Invalidate]);
    assert!(menu_reply(&mut model, MenuEvent::MouseMove(20, 20)).0.is_empty());
    assert_eq!(model.hovered, Some(MenuItem::Refresh));
    assert_eq!(menu_reply(&mut model, MenuEvent::LeftUp(10, 110)).0, vec![MenuWindowAction::Choose(MenuAction::SetDisplayRemaining(false))]);
    assert!(menu_reply(&mut model, MenuEvent::LeftUp(10, 50)).0.is_empty());
    assert_eq!(menu_reply(&mut model, MenuEvent::Activate(0x0001_0000)).0, vec![MenuWindowAction::HideMenu]);
    assert_eq!(model.hovered, None);
    assert_eq!(menu_reply(&mut model, MenuEvent::EraseBackground).1, 1);
}

#[test]
fn one_fetch_in_flight_at_a_time() {
    let mut g = RequestGate::new();
    assert!(g.try_start(100, USAGE_DEBOUNCE_NANOS));
    assert!(g.in_flight);
    // In flight: nothing else starts, and the throttle is left alone.
    assert!(!g.try_start(100 + USAGE_DEBOUNCE_NANOS, USAGE_DEBOUNCE_NANOS));
    assert_eq!(g.throttle.last, Some(100));
    g.finish();
    assert!(!g.in_flight);
    assert!(!g.try_start(100 + USAGE_DEBOUNCE_NANOS - 1, USAGE_DEBOUNCE_NANOS));
    assert!(g.try_start(100 + USAGE_DEBOUNCE_NANOS, USAGE_DEBOUNCE_NANOS));
}
