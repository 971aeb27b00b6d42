//! What the two backend requests send, where the login file is looked for, and
//! what a refused request is answered with.

use vstd::prelude::*;
use crate::text::{decimal, push_decimal};
use crate::usage::opt_view;

verus! {

/// Where usage figures are requested.
pub const USAGE_URL: &'static str = "https://chatgpt.com/backend-api/wham/usage";

/// Where reset credits are requested.
pub const RESET_CREDITS_URL: &'static str = "https://chatgpt.com/backend-api/wham/rate-limit-reset-credits";

/// How long a request may take, in seconds.
pub const REQUEST_TIMEOUT_SECS: u64 = 15;

/// A 2xx status.
pub open spec fn is_success(status: u16) -> bool {
    200 <= status <= 299
}

/// The message for a usage request answered with `status`; `None` on success.
pub open spec fn spec_usage_status_error(status: u16) -> Option<Seq<char>> {
    if is_success(status) {
        None
    } else if status == 401 {
        Some("Codex login has expired; open Codex and sign in again"@)
    } else if status == 403 {
        Some("OpenAI rejected the usage request (HTTP 403)"@)
    } else {
        Some("Usage request returned HTTP "@ + decimal(status as nat))
    }
}

/// The message for a reset-credit request answered with `status`; `None` on
/// success.
pub open spec fn spec_reset_credits_status_error(status: u16) -> Option<Seq<char>> {
    if is_success(status) {
        None
    } else if status == 401 {
        Some("Codex login expired while reading reset credits"@)
    } else if status == 403 {
        Some("OpenAI rejected the reset-credit request (HTTP 403)"@)
    } else if status == 429 {
        Some("OpenAI rate-limited the reset-credit request (HTTP 429)"@)
    } else {
        Some("Reset-credit request returned HTTP "@ + decimal(status as nat))
    }
}

/// What a usage request answered with `status` fails with, if it fails.
pub fn usage_status_error(status: u16) -> (res: Option<String>)
    ensures
        opt_view(res) == spec_usage_status_error(status),
{
    if 200 <= status && status <= 299 {
        None
    } else if status == 401 {
        Some(String::from_str("Codex login has expired; open Codex and sign in again"))
    } else if status == 403 {
        Some(String::from_str("OpenAI rejected the usage request (HTTP 403)"))
    } else {
        let mut s = String::from_str("Usage request returned HTTP ");
        push_decimal(&mut s, status as u64);
        Some(s)
    }
}

/// What a reset-credit request answered with `status` fails with, if it fails.
pub fn reset_credits_status_error(status: u16) -> (res: Option<String>)
    ensures
        opt_view(res) == spec_reset_credits_status_error(status),
{
    if 200 <= status && status <= 299 {
        None
    } else if status == 401 {
        Some(String::from_str("Codex login expired while reading reset credits"))
    } else if status == 403 {
        Some(String::from_str("OpenAI rejected the reset-credit request (HTTP 403)"))
    } else if status == 429 {
        Some(String::from_str("OpenAI rate-limited the reset-credit request (HTTP 429)"))
    } else {
        let mut s = String::from_str("Reset-credit request returned HTTP ");
        push_decimal(&mut s, status as u64);
        Some(s)
    }
}

/// The names and values of a header list.
pub open spec fn headers_view(h: Seq<(String, String)>) -> Seq<(Seq<char>, Seq<char>)> {
    h.map_values(|p: (String, String)| (p.0@, p.1@))
}

/// The browser identity that requests present.
pub open spec fn user_agent() -> Seq<char> {
    "Mozilla/5.0 (Windows NT 10.0; Win64; x64) AppleWebKit/537.36 (KHTML, like Gecko) Chrome/152.0.0.0 Safari/537.36"@
}

/// The headers of every request besides the bearer token: `Accept`, `Referer`
/// and `User-Agent`, then `ChatGPT-Account-Id` where an account id is known.
pub open spec fn spec_request_headers(account_id: Option<Seq<char>>) -> Seq<(Seq<char>, Seq<char>)> {
    seq![
        ("Accept"@, "application/json"@),
        ("Referer"@, "https://chatgpt.com/"@),
        ("User-Agent"@, user_agent()),
    ] + match account_id {
        Some(a) => seq![("ChatGPT-Account-Id"@, a)],
        None => Seq::empty(),
    }
}

fn pair(name: &str, value: &str) -> (p: (String, String))
    ensures
        p.0@ == name@,
        p.1@ == value@,
{
    (String::from_str(name), String::from_str(value))
}

/// The headers that every request carries besides the bearer token.
pub fn request_headers(account_id: &Option<String>) -> (headers: Vec<(String, String)>)
    ensures
        headers_view(headers@) == spec_request_headers(opt_view(*account_id)),
{
    let mut headers: Vec<(String, String)> = Vec::new();
    headers.push(pair("Accept", "application/json"));
    headers.push(pair("Referer", "https://chatgpt.com/"));
    headers.push(
        pair(
            "User-Agent",
            "Mozilla/5.0 (Windows NT 10.0; Win64; x64) AppleWebKit/537.36 (KHTML, like Gecko) Chrome/152.0.0.0 Safari/537.36",
        ),
    );
    if let Some(a) = account_id {
        headers.push((String::from_str("ChatGPT-Account-Id"), a.clone()));
    }
    assert(headers_view(headers@) == spec_request_headers(opt_view(*account_id)));
    headers
}

/// The headers that a reset-credit request adds.
pub open spec fn spec_reset_credit_headers() -> Seq<(Seq<char>, Seq<char>)> {
    seq![("oai-product-sku"@, "CODEX"@), ("originator"@, "Codex Desktop"@)]
}

/// The headers that a reset-credit request carries besides the common ones.
pub fn reset_credit_headers() -> (headers: Vec<(String, String)>)
    ensures
        headers_view(headers@) == spec_reset_credit_headers(),
{
    let mut headers: Vec<(String, String)> = Vec::new();
    headers.push(pair("oai-product-sku", "CODEX"));
    headers.push(pair("originator", "Codex Desktop"));
    assert(headers_view(headers@) == spec_reset_credit_headers());
    headers
}

/// The directory that the login file is found under.
#[derive(Clone, Copy, Debug, PartialEq, Eq, Structural)]
pub enum AuthFileBase {
    /// `CODEX_HOME`
    CodexHome,
    /// `USERPROFILE`
    UserProfile,
    /// The working directory.
    WorkingDirectory,
}

/// `CODEX_HOME` where it is set and not empty, else `USERPROFILE` where it is,
/// else the working directory.
pub fn auth_file_base(codex_home_set: bool, user_profile_set: bool) -> (base: AuthFileBase)
    ensures
        base == (if codex_home_set {
            AuthFileBase::CodexHome
        } else if user_profile_set {
            AuthFileBase::UserProfile
        } else {
            AuthFileBase::WorkingDirectory
        }),
{
    if codex_home_set {
        AuthFileBase::CodexHome
    } else if user_profile_set {
        AuthFileBase::UserProfile
    } else {
        AuthFileBase::WorkingDirectory
    }
}

/// The path components below the base: `auth.json` directly under
/// `CODEX_HOME`, `.codex/auth.json` under the others.
pub open spec fn spec_auth_file_components(base: AuthFileBase) -> Seq<Seq<char>> {
    match base {
        AuthFileBase::CodexHome => seq!["auth.json"@],
        _ => seq![".codex"@, "auth.json"@],
    }
}

/// The path components of the login file below its base directory.
pub fn auth_file_components(base: AuthFileBase) -> (parts: Vec<String>)
    ensures
        parts@.map_values(|s: String| s@) == spec_auth_file_components(base),
{
    let mut parts: Vec<String> = Vec::new();
    match base {
        AuthFileBase::CodexHome => {
            parts.push(String::from_str("auth.json"));
        },
        _ => {
            parts.push(String::from_str(".codex"));
            parts.push(String::from_str("auth.json"));
        },
    }
    assert(parts@.map_values(|s: String| s@) == spec_auth_file_components(base));
    parts
}

} // verus!
