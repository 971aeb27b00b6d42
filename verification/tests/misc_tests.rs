use codex_bar::auth::{access_token, account_id, id_token, AuthFields};
use codex_bar::instance::{activation_step, instance_outcome, ActivationStep, InstanceOutcome};
use codex_bar::panel::{card_value, compact_error, panel_footer, panel_status, panel_times, panel_view, plan_badge, usage_card, PanelClocks, UsageView};
use codex_bar::display::ClockParts;
use codex_bar::request::{
    auth_file_base, auth_file_components, request_headers, reset_credit_headers,
    reset_credits_status_error, usage_status_error, AuthFileBase,
};
use codex_bar::text::{copy_wide_fixed, decimal_string, trim, utf16, wide};
use codex_bar::tray::{command_for_menu_choice, handle_tray_command, tray_popup_position, tray_window_reply, HideTimer, TrayCommand, TrayEffect, TrayWindowAction, TrayWindowEvent};
use codex_bar::popup::WorkArea;
use codex_bar::usage::{UsageSnapshot, UsageWindow, PERCENT_UNIT};

fn fields() -> AuthFields {
    AuthFields::default()
}

#[test]
fn access_token_prefers_tokens_object() {
    let mut f = fields();
    assert_eq!(access_token(&f), Err("Codex access token was not found".to_string()));
    f.access_token = Some(" top ".into());
    assert_eq!(access_token(&f), Ok("top".to_string()));
    f.tokens_access_token = Some("nested".into());
    assert_eq!(access_token(&f), Ok("nested".to_string()));
    f.tokens_access_token = Some("   ".into());
    assert_eq!(access_token(&f), Ok("top".to_string()));
}

#[test]
fn account_id_fallback_chain() {
    let mut f = fields();
    assert_eq!(account_id(&f, None, Some("id".into())), None);
    f.tokens_id_token = Some("tok".into());
    assert_eq!(account_id(&f, None, Some("id".into())).as_deref(), Some("id"));
    assert_eq!(account_id(&f, Some("acc".into()), Some("id".into())).as_deref(), Some("acc"));
    f.chatgpt_account_id = Some(" c ".into());
    assert_eq!(account_id(&f, Some("acc".into()), None).as_deref(), Some("c"));
    f.tokens_chatgpt_account_id = Some("tc".into());
    assert_eq!(account_id(&f, None, None).as_deref(), Some("tc"));
    f.tokens_account_id = Some("ta".into());
    assert_eq!(account_id(&f, None, None).as_deref(), Some("ta"));
    assert_eq!(id_token(&f).as_deref(), Some("tok"));
}

#[test]
fn status_errors() {
    assert_eq!(usage_status_error(200), None);
    assert_eq!(usage_status_error(299), None);
    assert_eq!(usage_status_error(401).as_deref(), Some("Codex login has expired; open Codex and sign in again"));
    assert_eq!(usage_status_error(403).as_deref(), Some("OpenAI rejected the usage request (HTTP 403)"));
    assert_eq!(usage_status_error(500).as_deref(), Some("Usage request returned HTTP 500"));
    assert_eq!(usage_status_error(302).as_deref(), Some("Usage request returned HTTP 302"));
    assert_eq!(reset_credits_status_error(204), None);
    assert_eq!(reset_credits_status_error(429).as_deref(), Some("OpenAI rate-limited the reset-credit request (HTTP 429)"));
    assert_eq!(reset_credits_status_error(401).as_deref(), Some("Codex login expired while reading reset credits"));
    assert_eq!(reset_credits_status_error(404).as_deref(), Some("Reset-credit request returned HTTP 404"));
}

#[test]
fn headers_carry_account_id() {
    let h = request_headers(&None);
    assert_eq!(h.len(), 3);
    assert_eq!(h[0], ("Accept".to_string(), "application/json".to_string()));
    let h = request_headers(&Some("acct".into()));
    assert_eq!(h[3], ("ChatGPT-Account-Id".to_string(), "acct".to_string()));
    assert_eq!(reset_credit_headers()[0], ("oai-product-sku".to_string(), "CODEX".to_string()));
}

#[test]
fn auth_file_location() {
    assert_eq!(auth_file_base(true, true), AuthFileBase::CodexHome);
    assert_eq!(auth_file_base(false, true), AuthFileBase::UserProfile);
    assert_eq!(auth_file_base(false, false), AuthFileBase::WorkingDirectory);
    assert_eq!(auth_file_components(AuthFileBase::CodexHome), vec!["auth.json".to_string()]);
    assert_eq!(auth_file_components(AuthFileBase::UserProfile), vec![".codex".to_string(), "auth.json".to_string()]);
}

#[test]
fn text_helpers() {
    assert_eq!(trim("\u{a0} a b \u{2003}"), "a b");
    assert_eq!(decimal_string(0), "0");
    assert_eq!(decimal_string(1234567890), "1234567890");
    assert_eq!(utf16("a😀"), vec![0x61, 0xD83D, 0xDE00]);
    assert_eq!(wide("Hi"), vec![0x48, 0x69, 0]);
    let mut buf = [7u16; 4];
    copy_wide_fixed("abcdef", &mut buf);
    assert_eq!(buf, [0x61, 0x62, 0x63, 7]);
    let mut buf = [0u16; 4];
    copy_wide_fixed("a", &mut buf);
    assert_eq!(buf, [0x61, 0, 0, 0]);
    let mut empty: [u16; 0] = [];
    copy_wide_fixed("abc", &mut empty);
}

#[test]
fn tray_commands() {
    assert_eq!(command_for_menu_choice(1001), Some(TrayCommand::Refresh));
    assert_eq!(command_for_menu_choice(1002), Some(TrayCommand::Exit));
    assert_eq!(command_for_menu_choice(0), None);
    assert_eq!(tray_window_reply(TrayWindowEvent::TrayIcon { left_up: true, right_up: false }), (vec![TrayWindowAction::Send(TrayCommand::Show)], false));
    assert_eq!(tray_window_reply(TrayWindowEvent::TrayIcon { left_up: false, right_up: true }), (vec![TrayWindowAction::ShowContextMenu], false));
    assert_eq!(tray_window_reply(TrayWindowEvent::Activate(0)), (vec![TrayWindowAction::Send(TrayCommand::Hide)], true));
    assert_eq!(tray_window_reply(TrayWindowEvent::Activate(2)), (vec![], true));
    assert_eq!(tray_window_reply(TrayWindowEvent::NcDestroy), (vec![TrayWindowAction::RemoveIcon], true));
    let mut t = HideTimer::default();
    let e = handle_tray_command(&mut t, TrayCommand::Show);
    assert_eq!(e, vec![TrayEffect::ShowPopup, TrayEffect::StartRefresh, TrayEffect::ScheduleHide(1)]);
    assert!(t.fires(1));
    assert_eq!(handle_tray_command(&mut t, TrayCommand::Hide), vec![TrayEffect::HidePopup]);
    assert!(!t.fires(1));
    assert_eq!(handle_tray_command(&mut t, TrayCommand::Exit), vec![TrayEffect::RemoveTray, TrayEffect::Quit]);
    let g = match handle_tray_command(&mut t, TrayCommand::Show)[2] {
        TrayEffect::ScheduleHide(g) => g,
        _ => unreachable!(),
    };
    assert_eq!(handle_tray_command(&mut t, TrayCommand::Refresh), vec![TrayEffect::StartRefresh]);
    assert!(t.fires(g));
    let mut top = HideTimer { generation: u64::MAX };
    assert_eq!(handle_tray_command(&mut top, TrayCommand::Hide), vec![TrayEffect::HidePopup]);
    assert_eq!(top.generation, 0);
    let work = WorkArea { left: 0, top: 0, right: 1920, bottom: 1040 };
    assert_eq!(tray_popup_position(1000, work), (820, 792));
}

#[test]
fn panel_texts() {
    let mut view = UsageView::default();
    assert_eq!(panel_status(&view), "等待更新");
    assert!(view.begin_refresh());
    assert_eq!(panel_status(&view), "正在更新");
    assert!(!view.begin_refresh());
    assert!(view.refreshing);
    let snap = UsageSnapshot { plan_type: Some("plus".into()), fetched_at: 5, ..Default::default() };
    view.apply_result(Ok(snap));
    assert!(!view.refreshing);
    assert_eq!(panel_status(&view), "已更新");
    assert_eq!(plan_badge(&view).as_deref(), Some("PLUS"));
    assert_eq!(panel_footer(&view, Some(ClockParts { month: 1, day: 1, hour: 9, minute: 30 })), "最近更新 09:30");
    view.apply_result(Err("a\r\nb".into()));
    assert_eq!(panel_footer(&view, None), "a  b");
    assert_eq!(compact_error(&"z".repeat(70)), format!("{}...", "z".repeat(65)));
    assert_eq!(card_value(Some(UsageWindow { used_share: 47 * PERCENT_UNIT / 2, reset_at: None })), "24% 已用  ·  76% 可用");
    assert_eq!(card_value(None), "--");
}

#[test]
fn panel_view_shows_both_cards() {
    let snap = UsageSnapshot {
        plan_type: Some("pro".into()),
        primary: Some(UsageWindow { used_share: 40 * PERCENT_UNIT, reset_at: None }),
        fetched_at: 5,
        ..Default::default()
    };
    let view = UsageView { snapshot: Some(snap), error: None, refreshing: false };
    let t = panel_times(&view);
    assert_eq!((t.five_hour_reset, t.weekly_reset, t.fetched), (None, None, Some(5)));
    let clock = ClockParts { month: 1, day: 2, hour: 3, minute: 4 };
    let p = panel_view(&view, PanelClocks { five_hour_reset: None, weekly_reset: None, fetched: Some(clock) });
    assert_eq!(p.footer, "最近更新 03:04");
    assert_eq!(p.plan_badge.as_deref(), Some("PRO"));
    assert_eq!(p.status, "已更新");
    assert!(!p.status_is_error);
    assert_eq!(p.five_hour.value, "40% 已用  ·  60% 可用");
    assert_eq!(p.five_hour.reset, "重置时间 --");
    assert_eq!(p.five_hour.used_share, 40 * PERCENT_UNIT);
    assert_eq!(p.weekly.value, "--");
    assert_eq!(p.weekly.used_share, 0);
    let failed = UsageView { snapshot: None, error: Some("boom".into()), refreshing: false };
    let q = panel_view(&failed, PanelClocks { five_hour_reset: None, weekly_reset: None, fetched: None });
    assert!(q.status_is_error);
    assert_eq!(q.footer, "boom");
    assert_eq!(q.plan_badge, None);
    let card = usage_card(Some(UsageWindow { used_share: 0, reset_at: Some(9) }), Some(clock));
    assert_eq!(card.reset, "重置 01-02 03:04");
    assert_eq!(card.value, "0% 已用  ·  100% 可用");
}

#[test]
fn single_instance_outcomes() {
    assert_eq!(instance_outcome(false, 5, false), InstanceOutcome::Failed("Cannot create single-instance mutex (Windows error 5)".into()));
    assert_eq!(instance_outcome(true, 183, true), InstanceOutcome::AlreadyRunning);
    assert_eq!(instance_outcome(true, 0, false), InstanceOutcome::Acquired);
    assert_eq!(activation_step(0, Some(true)), ActivationStep::BringToFront);
    assert_eq!(activation_step(3, Some(false)), ActivationStep::SendTrayClick);
    assert_eq!(activation_step(18, None), ActivationStep::Retry);
    assert_eq!(activation_step(19, None), ActivationStep::GiveUp);
}

#[test]
fn stale_hide_timer_never_fires() {
    let mut t = HideTimer::default();
    let g = match handle_tray_command(&mut t, TrayCommand::Show)[2] {
        TrayEffect::ScheduleHide(g) => g,
        _ => unreachable!(),
    };
    for c in [TrayCommand::Refresh, TrayCommand::Refresh] {
        handle_tray_command(&mut t, c);
    }
    assert!(t.fires(g));
    handle_tray_command(&mut t, TrayCommand::Show);
    handle_tray_command(&mut t, TrayCommand::Refresh);
    assert!(!t.fires(g));
}
