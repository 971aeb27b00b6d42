use codex_bar::display::{
    apply_credits_result, apply_usage_result, capitalize_plan, compact_error, compact_middle, credit_strings,
    footer_text, format_plan, identity_text, panel_height, popup_times, popup_view, row_strings,
    status_text, ClockParts, PopupClocks,
    DisplayState, PANEL_HEIGHT_BASE, PANEL_HEIGHT_CREDITS,
};
use codex_bar::usage::{ResetCreditsSnapshot, UsageSnapshot, UsageWindow, FULL_SHARE, PERCENT_UNIT};

/// A percentage as a share, as the decoding rounds it.
fn pct(percent: f64) -> u64 {
    (percent * PERCENT_UNIT as f64).round() as u64
}

fn snapshot(count: Option<u32>) -> UsageSnapshot {
    UsageSnapshot {
        email: Some("person@example.com".into()),
        plan_type: Some("plus".into()),
        primary: None,
        secondary: None,
        reset_credit_count: count,
        fetched_at: 7,
    }
}

#[test]
fn usage_result_zero_count_empties_credits() {
    let mut state = DisplayState {
        snapshot: None,
        credits: Some(ResetCreditsSnapshot { available_count: 3, earliest_expires_at: Some(99) }),
        last_error: Some("old".into()),
    };
    apply_usage_result(&mut state, Ok(snapshot(Some(0))));
    assert_eq!(state.credits, Some(ResetCreditsSnapshot { available_count: 0, earliest_expires_at: None }));
    assert_eq!(state.last_error, None);
    assert_eq!(state.snapshot, Some(snapshot(Some(0))));
}

#[test]
fn usage_result_count_keeps_known_expiry() {
    let mut state = DisplayState {
        snapshot: None,
        credits: Some(ResetCreditsSnapshot { available_count: 3, earliest_expires_at: Some(99) }),
        last_error: None,
    };
    apply_usage_result(&mut state, Ok(snapshot(Some(5))));
    assert_eq!(state.credits, Some(ResetCreditsSnapshot { available_count: 5, earliest_expires_at: Some(99) }));

    let mut empty = DisplayState::default();
    apply_usage_result(&mut empty, Ok(snapshot(Some(2))));
    assert_eq!(empty.credits, Some(ResetCreditsSnapshot { available_count: 2, earliest_expires_at: None }));

    let mut none = DisplayState::default();
    apply_usage_result(&mut none, Ok(snapshot(None)));
    assert_eq!(none.credits, None);
}

#[test]
fn usage_error_keeps_last_snapshot() {
    let mut state = DisplayState { snapshot: Some(snapshot(None)), credits: None, last_error: None };
    apply_usage_result(&mut state, Err("boom".into()));
    assert_eq!(state.snapshot, Some(snapshot(None)));
    assert_eq!(state.last_error.as_deref(), Some("boom"));
}

#[test]
fn credits_result_replaces_or_keeps() {
    let mut state = DisplayState::default();
    let c = ResetCreditsSnapshot { available_count: 1, earliest_expires_at: Some(5) };
    apply_credits_result(&mut state, Ok(c));
    assert_eq!(state.credits, Some(c));
    apply_credits_result(&mut state, Err("x".into()));
    assert_eq!(state.credits, Some(c));
}

#[test]
fn status_text_by_state() {
    let mut state = DisplayState::default();
    assert_eq!(status_text(true, &state), "正在更新…");
    assert_eq!(status_text(false, &state), "等待更新");
    state.snapshot = Some(snapshot(None));
    assert_eq!(status_text(false, &state), "已更新");
    state.last_error = Some("e".into());
    assert_eq!(status_text(false, &state), "更新失败");
}

#[test]
fn row_text_remaining_and_used() {
    let clock = ClockParts { month: 9, day: 8, hour: 7, minute: 5 };
    let w = UsageWindow { used_share: pct(23.0), reset_at: Some(1) };
    let row = row_strings(Some(w), true, Some(clock));
    assert_eq!(row.value, "77% 剩余");
    assert_eq!(row.reset, "重置 09-08 07:05");
    assert_eq!(row.shown_share, Some(pct(77.0)));
    let row = row_strings(Some(w), false, None);
    assert_eq!(row.value, "23% 已用");
    assert_eq!(row.reset, "重置时间 --");
    let row = row_strings(None, true, None);
    assert_eq!(row.value, "--");
    assert_eq!(row.shown_share, None);
}

#[test]
fn row_text_rounds_half_to_even() {
    let w = UsageWindow { used_share: pct(61.5), reset_at: None };
    assert_eq!(row_strings(Some(w), true, None).value, "38% 剩余");
    assert_eq!(row_strings(Some(w), false, None).value, "62% 已用");
    let w = UsageWindow { used_share: pct(2.5), reset_at: None };
    assert_eq!(row_strings(Some(w), false, None).value, "2% 已用");
    let w = UsageWindow { used_share: pct(2.51), reset_at: None };
    assert_eq!(row_strings(Some(w), false, None).value, "3% 已用");
    let w = UsageWindow { used_share: FULL_SHARE, reset_at: None };
    assert_eq!(row_strings(Some(w), true, None).value, "0% 剩余");
    assert_eq!(format!("{:.0}", 38.5f64), "38");
    assert_eq!(format!("{:.0}", 2.5f64), "2");
    // Just above a tie rounds up, as `{:.0}` does on the value itself.
    let w = UsageWindow { used_share: pct(50.5000001), reset_at: None };
    assert_eq!(row_strings(Some(w), false, None).value, "51% 已用");
    assert_eq!(format!("{:.0}% 已用", 50.5000001f64), "51% 已用");
    let w = UsageWindow { used_share: pct(50.4999999), reset_at: None };
    assert_eq!(row_strings(Some(w), false, None).value, "50% 已用");
    let w = UsageWindow { used_share: pct(0.4), reset_at: None };
    assert_eq!(row_strings(Some(w), false, None).value, "0% 已用");
    assert_eq!(row_strings(Some(w), true, None).value, format!("{:.0}% 剩余", 100.0 - 0.4f64));
}

#[test]
fn identity_combinations() {
    let mut s = snapshot(None);
    assert_eq!(identity_text(Some(&s)), "person@example.com · Plus");
    s.plan_type = None;
    assert_eq!(identity_text(Some(&s)), "person@example.com");
    s.email = None;
    s.plan_type = Some("  team ".into());
    assert_eq!(identity_text(Some(&s)), "Team");
    assert_eq!(identity_text(None), "Codex 账户");
}

#[test]
fn identity_is_shortened_in_the_middle() {
    let mut s = snapshot(None);
    s.email = Some("a".repeat(60));
    s.plan_type = None;
    let text = identity_text(Some(&s));
    assert_eq!(text.chars().count(), 46);
    assert_eq!(text, format!("{}…{}", "a".repeat(23), "a".repeat(22)));
}

#[test]
fn format_plan_capitalises() {
    assert_eq!(format_plan("plus"), "Plus");
    assert_eq!(format_plan("  pro  "), "Pro");
    assert_eq!(format_plan(""), "");
    assert_eq!(format_plan("ßeta"), "SSeta");
}

#[test]
fn compact_middle_cases() {
    assert_eq!(compact_middle("abcdef", 6), "abcdef");
    assert_eq!(compact_middle("abcdefg", 6), "abc…fg");
    assert_eq!(compact_middle("abcdefg", 1), "…");
    assert_eq!(compact_middle("abcdefg", 0), "…");
}

#[test]
fn compact_error_squashes_and_cuts() {
    assert_eq!(compact_error("  a \n\t b  c "), "a b c");
    let long = "x".repeat(60);
    let out = compact_error(&long);
    assert_eq!(out.chars().count(), 52);
    assert_eq!(out, format!("{}…", "x".repeat(51)));
    assert_eq!(compact_error(&"y".repeat(52)), "y".repeat(52));
}

#[test]
fn credit_line_only_with_credits() {
    let clock = ClockParts { month: 12, day: 31, hour: 23, minute: 59 };
    let c = ResetCreditsSnapshot { available_count: 2, earliest_expires_at: Some(1) };
    let (value, expiry) = credit_strings(Some(c), Some(clock)).unwrap();
    assert_eq!(value, "2 张可用");
    assert_eq!(expiry, "最近 12-31 23:59 到期");
    let (_, expiry) = credit_strings(Some(c), None).unwrap();
    assert_eq!(expiry, "到期时间暂不可用");
    let zero = ResetCreditsSnapshot { available_count: 0, earliest_expires_at: None };
    assert!(credit_strings(Some(zero), None).is_none());
    assert!(credit_strings(None, None).is_none());
}

#[test]
fn footer_by_state() {
    let clock = ClockParts { month: 1, day: 2, hour: 3, minute: 4 };
    let mut state = DisplayState::default();
    assert_eq!(footer_text(&state, None), "读取 Codex 登录信息后显示用量");
    state.snapshot = Some(snapshot(None));
    assert_eq!(footer_text(&state, Some(clock)), "更新 03:04");
    assert_eq!(footer_text(&state, None), "已更新");
    state.last_error = Some("Usage request\nfailed".into());
    assert_eq!(footer_text(&state, Some(clock)), "Usage request failed");
}

#[test]
fn panel_height_follows_credits() {
    assert_eq!(panel_height(None), PANEL_HEIGHT_BASE);
    assert_eq!(panel_height(Some(ResetCreditsSnapshot { available_count: 0, earliest_expires_at: None })), 212);
    assert_eq!(panel_height(Some(ResetCreditsSnapshot { available_count: 1, earliest_expires_at: None })), PANEL_HEIGHT_CREDITS);
    assert_eq!(PANEL_HEIGHT_CREDITS, 252);
}

#[test]
fn popup_times_pick_what_is_shown() {
    let mut snap = snapshot(None);
    snap.primary = Some(UsageWindow { used_share: 0, reset_at: Some(100) });
    snap.secondary = Some(UsageWindow { used_share: 0, reset_at: None });
    snap.fetched_at = 7;
    let credits = ResetCreditsSnapshot { available_count: 2, earliest_expires_at: Some(300) };
    let state = DisplayState { snapshot: Some(snap.clone()), credits: Some(credits), last_error: None };
    let t = popup_times(&state);
    assert_eq!((t.primary_reset, t.secondary_reset, t.credit_expiry, t.fetched), (Some(100), None, Some(300), Some(7)));
    let failed = DisplayState {
        snapshot: Some(snap),
        credits: Some(ResetCreditsSnapshot { available_count: 0, earliest_expires_at: Some(300) }),
        last_error: Some("x".into()),
    };
    let t = popup_times(&failed);
    assert_eq!((t.credit_expiry, t.fetched), (None, None));
}

#[test]
fn popup_view_paints_labels_rows_and_footer() {
    let mut snap = snapshot(None);
    snap.primary = Some(UsageWindow { used_share: 23 * PERCENT_UNIT, reset_at: Some(100) });
    let credits = ResetCreditsSnapshot { available_count: 1, earliest_expires_at: Some(300) };
    let state = DisplayState { snapshot: Some(snap), credits: Some(credits), last_error: None };
    let clock = ClockParts { month: 9, day: 8, hour: 7, minute: 5 };
    let clocks = PopupClocks { primary_reset: Some(clock), secondary_reset: None, credit_expiry: Some(clock), fetched: Some(clock) };
    let v = popup_view(&state, false, true, clocks);
    assert_eq!(v.primary_label, "5 小时");
    assert_eq!(v.secondary_label, "每周");
    assert_eq!(v.status, "已更新");
    assert!(!v.status_is_error);
    assert_eq!(v.identity, "person@example.com · Plus");
    assert_eq!(v.primary.value, "77% 剩余");
    assert_eq!(v.primary.reset, "重置 09-08 07:05");
    assert_eq!(v.secondary.value, "--");
    assert_eq!(v.secondary.reset, "重置时间 --");
    assert_eq!(v.reset_credit, Some(("1 张可用".to_string(), "最近 09-08 07:05 到期".to_string())));
    assert_eq!(v.footer, "更新 07:05");
    assert_eq!(v.height, PANEL_HEIGHT_CREDITS);
    let v = popup_view(&state, true, false, clocks);
    assert_eq!(v.status, "正在更新…");
    assert_eq!(v.primary.value, "23% 已用");
}

#[test]
fn plan_capitalized_from_given_first_letter() {
    assert_eq!(capitalize_plan("P", "  pro "), "Pro");
    assert_eq!(capitalize_plan("SS", "ßeta"), "SSeta");
    assert_eq!(capitalize_plan("X", "   "), "");
    assert_eq!(format_plan(" team"), "Team");
}
