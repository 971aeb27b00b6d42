use base64::engine::general_purpose::URL_SAFE_NO_PAD;
use base64::Engine;
use codex_bar::auth::{jwt_claim, jwt_payload, jwt_payload_segment, ClaimStrings};
use codex_bar::usage::{
    clean_string, normalize_timestamp, normalize_window, parse_reset_credits, parse_usage,
    summarize_reset_credits, usage_at_reading, usage_snapshot_at, RawRateLimit, RawResetCredit,
    RawResetCreditsResponse, RawResetCreditsSummary, RawUsageResponse, RawWindow, ClockError, FULL_SHARE, PERCENT_UNIT,
};
use serde_json::Value;

fn text(v: &Value, key: &str) -> Option<String> {
    v.get(key).and_then(Value::as_str).map(str::to_owned)
}

fn window(v: Option<&Value>) -> Option<RawWindow> {
    let v = v?;
    Some(RawWindow {
        used_share: v
            .get("used_percent")
            .and_then(Value::as_f64)
            .map(|p| (p * PERCENT_UNIT as f64).round() as i64),
        reset_at: v.get("reset_at").and_then(Value::as_i64),
        reset_after_seconds: v.get("reset_after_seconds").and_then(Value::as_i64),
    })
}

fn usage_response(body: &str) -> RawUsageResponse {
    let v: Value = serde_json::from_str(body).expect("valid JSON");
    RawUsageResponse {
        email: text(&v, "email"),
        plan_type: text(&v, "plan_type"),
        rate_limit: v.get("rate_limit").map(|l| RawRateLimit {
            primary_window: window(l.get("primary_window")),
            secondary_window: window(l.get("secondary_window")),
        }),
        rate_limit_reset_credits: v.get("rate_limit_reset_credits").map(|s| RawResetCreditsSummary {
            available_count: s.get("available_count").and_then(Value::as_u64).map(|n| n as u32),
        }),
    }
}

fn credits_response(body: &str) -> RawResetCreditsResponse {
    let v: Value = serde_json::from_str(body).expect("valid JSON");
    RawResetCreditsResponse {
        available_count: v.get("available_count").and_then(Value::as_u64).map(|n| n as u32),
        credits: v
            .get("credits")
            .and_then(Value::as_array)
            .map(|list| {
                list.iter()
                    .map(|c| RawResetCredit { status: text(c, "status"), expires_at: text(c, "expires_at") })
                    .collect()
            })
            .unwrap_or_default(),
    }
}

fn string_members(v: Option<&Value>) -> Vec<(String, String)> {
    match v.and_then(Value::as_object) {
        Some(map) => map
            .iter()
            .filter_map(|(k, v)| v.as_str().map(|s| (k.clone(), s.to_owned())))
            .collect(),
        None => Vec::new(),
    }
}

fn claims(bytes: &[u8]) -> ClaimStrings {
    let v: Value = serde_json::from_slice(bytes).expect("valid JSON");
    ClaimStrings {
        top_level: string_members(Some(&v)),
        openai_auth: string_members(v.get("https://api.openai.com/auth")),
    }
}

#[test]
fn parses_primary_and_secondary_windows() {
    let payload = r#"{
        "email": "person@example.com",
        "plan_type": "plus",
        "rate_limit": {
            "primary_window": {
                "used_percent": 23,
                "reset_at": 1900000000
            },
            "secondary_window": {
                "used_percent": 61.5,
                "reset_after_seconds": 3600
            }
        },
        "rate_limit_reset_credits": { "available_count": 2 }
    }"#;

    let snapshot = parse_usage(usage_response(payload)).expect("usage response should parse");
    assert_eq!(snapshot.email.as_deref(), Some("person@example.com"));
    assert_eq!(snapshot.plan_type.as_deref(), Some("plus"));
    assert_eq!(snapshot.reset_credit_count, Some(2));
    assert_eq!(snapshot.primary.unwrap().used_share as f64 / PERCENT_UNIT as f64, 23.0);
    assert_eq!(snapshot.secondary.unwrap().used_share as f64 / PERCENT_UNIT as f64, 61.5);
}

#[test]
fn parses_available_reset_credit_expiry() {
    let payload = r#"{
        "available_count": 2,
        "credits": [
            {"status":"available","expires_at":"2026-09-20T12:00:00Z"},
            {"status":"available","expires_at":"2026-09-18T08:30:00Z"},
            {"status":"consumed","expires_at":"2026-09-10T00:00:00Z"}
        ]
    }"#;
    let snapshot = parse_reset_credits(&credits_response(payload));
    assert_eq!(snapshot.available_count, 2);
    assert_eq!(snapshot.earliest_expires_at, Some(1789720200));
}

#[test]
fn extracts_account_id_from_jwt() {
    let payload = URL_SAFE_NO_PAD.encode(r#"{"chatgpt_account_id":"acct_test"}"#);
    let token = format!("header.{payload}.signature");
    let bytes = jwt_payload(&token).expect("payload decodes");
    assert_eq!(
        jwt_claim(&claims(&bytes), "chatgpt_account_id").as_deref(),
        Some("acct_test")
    );
}

#[test]
fn jwt_claim_falls_back_to_openai_auth_object() {
    let payload = URL_SAFE_NO_PAD
        .encode(r#"{"sub":"x","https://api.openai.com/auth":{"chatgpt_account_id":"acct_nested"}}"#);
    let token = format!("h.{payload}.s");
    let bytes = jwt_payload(&token).unwrap();
    assert_eq!(jwt_claim(&claims(&bytes), "chatgpt_account_id").as_deref(), Some("acct_nested"));
    assert_eq!(jwt_claim(&claims(&bytes), "missing"), None);
}

#[test]
fn jwt_claim_prefers_top_level_string() {
    let payload = URL_SAFE_NO_PAD.encode(
        r#"{"chatgpt_account_id":"top","https://api.openai.com/auth":{"chatgpt_account_id":"nested"}}"#,
    );
    let bytes = jwt_payload(&format!("a.{payload}")).unwrap();
    assert_eq!(jwt_claim(&claims(&bytes), "chatgpt_account_id").as_deref(), Some("top"));
}

#[test]
fn jwt_payload_needs_a_dot_and_valid_base64() {
    assert_eq!(jwt_payload_segment("nodots"), None);
    assert_eq!(jwt_payload_segment("a.b.c").as_deref(), Some("b"));
    assert_eq!(jwt_payload_segment("a.").as_deref(), Some(""));
    assert_eq!(jwt_payload_segment("a.bc").as_deref(), Some("bc"));
    assert_eq!(jwt_payload("no-dots"), None);
    assert_eq!(jwt_payload("a.!!!.c"), None);
    assert_eq!(jwt_payload("a.aGk.c"), Some(b"hi".to_vec()));
}

#[test]
fn normalize_timestamp_brings_milliseconds_to_seconds() {
    assert_eq!(normalize_timestamp(1_900_000_000_000), 1_900_000_000);
    assert_eq!(normalize_timestamp(1_000_000_000_000), 1_000_000_000_000);
    assert_eq!(normalize_timestamp(1_900_000_000), 1_900_000_000);
    assert_eq!(normalize_timestamp(-5), -5);
    assert_eq!(normalize_timestamp(1_900_000_000_999), 1_900_000_000);
}

#[test]
fn clean_string_trims_and_drops_empty() {
    assert_eq!(clean_string(Some("  a b \n".to_string())).as_deref(), Some("a b"));
    assert_eq!(clean_string(Some(" \t\u{3000} ".to_string())), None);
    assert_eq!(clean_string(Some(String::new())), None);
    assert_eq!(clean_string(None), None);
}

#[test]
fn normalize_window_clamps_and_picks_reset() {
    let w = RawWindow { used_share: Some(i64::MAX), reset_at: Some(1_900_000_000_000), reset_after_seconds: Some(5) };
    let n = normalize_window(&w, 100).unwrap();
    assert_eq!(n.used_share, FULL_SHARE);
    assert_eq!(n.reset_at, Some(1_900_000_000));

    let w = RawWindow { used_share: Some(-3), reset_at: None, reset_after_seconds: Some(60) };
    let n = normalize_window(&w, 1000).unwrap();
    assert_eq!(n.used_share, 0);
    assert_eq!(n.reset_at, Some(1060));

    let w = RawWindow { used_share: Some(500), reset_at: None, reset_after_seconds: Some(-1) };
    assert_eq!(normalize_window(&w, 1000).unwrap().reset_at, None);

    let w = RawWindow { used_share: None, reset_at: Some(1), reset_after_seconds: None };
    assert_eq!(normalize_window(&w, 1000), None);
}

#[test]
fn usage_snapshot_at_keeps_time_and_missing_parts() {
    let raw = RawUsageResponse {
        email: Some("   ".to_string()),
        plan_type: Some(" pro ".to_string()),
        rate_limit: None,
        rate_limit_reset_credits: Some(RawResetCreditsSummary { available_count: None }),
    };
    let s = usage_snapshot_at(raw, 42);
    assert_eq!(s.email, None);
    assert_eq!(s.plan_type.as_deref(), Some("pro"));
    assert_eq!(s.primary, None);
    assert_eq!(s.secondary, None);
    assert_eq!(s.reset_credit_count, None);
    assert_eq!(s.fetched_at, 42);
}

#[test]
fn reset_credits_count_available_when_not_reported() {
    let raw = credits_response(
        r#"{"credits":[
            {"status":"AVAILABLE","expires_at":"2026-01-01T00:00:00Z"},
            {"expires_at":"not a date"},
            {"status":"used","expires_at":"2025-01-01T00:00:00Z"},
            {"status":"Available"}
        ]}"#,
    );
    let s = parse_reset_credits(&raw);
    assert_eq!(s.available_count, 3);
    assert_eq!(s.earliest_expires_at, Some(1767225600));
}

#[test]
fn reset_credits_empty_response() {
    let s = parse_reset_credits(&credits_response("{}"));
    assert_eq!(s.available_count, 0);
    assert_eq!(s.earliest_expires_at, None);
}

#[test]
fn summarize_uses_given_parsed_times() {
    let credits = vec![
        RawResetCredit { status: Some("available".into()), expires_at: Some("x".into()) },
        RawResetCredit { status: Some("available".into()), expires_at: Some("y".into()) },
        RawResetCredit { status: Some("expired".into()), expires_at: Some("z".into()) },
        RawResetCredit { status: None, expires_at: None },
    ];
    let s = summarize_reset_credits(None, &credits, &vec![Some(30), Some(20), Some(10), Some(5)]);
    assert_eq!(s.available_count, 3);
    assert_eq!(s.earliest_expires_at, Some(20));
    let s = summarize_reset_credits(Some(9), &credits, &vec![None, None, Some(1), None]);
    assert_eq!(s.available_count, 9);
    assert_eq!(s.earliest_expires_at, None);
}

#[test]
fn parse_usage_stamps_the_current_time() {
    let snapshot = parse_usage(usage_response("{}")).unwrap();
    assert!(snapshot.fetched_at > 1_700_000_000);
    assert_eq!(snapshot.email, None);
    assert_eq!(snapshot.primary, None);
}

#[test]
fn parse_usage_refuses_a_delay_past_the_end_of_time() {
    let raw = RawUsageResponse {
        rate_limit: Some(RawRateLimit {
            primary_window: Some(RawWindow {
                used_share: Some(100),
                reset_at: None,
                reset_after_seconds: Some(i64::MAX),
            }),
            secondary_window: None,
        }),
        ..Default::default()
    };
    match parse_usage(raw) {
        Err(e @ ClockError::ResetOutOfRange { now }) => {
            assert!(now > 1_700_000_000);
            assert_eq!(e.message(), "Invalid usage response: reset time out of range");
        }
        other => panic!("unexpected {other:?}"),
    }
    assert_eq!(ClockError::Unreadable.message(), "The system clock cannot be read");
    let fine = RawUsageResponse {
        rate_limit: Some(RawRateLimit {
            primary_window: Some(RawWindow {
                used_share: Some(100),
                reset_at: None,
                reset_after_seconds: Some(i64::MAX - 4_000_000_000),
            }),
            secondary_window: None,
        }),
        ..Default::default()
    };
    let snap = parse_usage(fine).unwrap();
    assert_eq!(snap.primary.unwrap().reset_at, Some(snap.fetched_at + i64::MAX - 4_000_000_000));
}

#[test]
fn usage_at_reading_covers_every_reading() {
    let raw = RawUsageResponse {
        rate_limit: Some(RawRateLimit {
            primary_window: Some(RawWindow { used_share: Some(5), reset_at: None, reset_after_seconds: Some(60) }),
            secondary_window: None,
        }),
        ..Default::default()
    };
    let snap = usage_at_reading(raw.clone(), Some(1000)).unwrap();
    assert_eq!(snap.fetched_at, 1000);
    assert_eq!(snap.primary.unwrap().reset_at, Some(1060));
    assert_eq!(usage_at_reading(raw.clone(), None), Err(ClockError::Unreadable));
    assert_eq!(usage_at_reading(raw.clone(), Some(u64::MAX)), Err(ClockError::Unreadable));
    assert_eq!(
        usage_at_reading(raw, Some(i64::MAX as u64)),
        Err(ClockError::ResetOutOfRange { now: i64::MAX })
    );
}
