//! The Codex login: which access token and account id the requests carry, and
//! the claims that a JWT access or id token holds.

use base64::Engine;
use vstd::prelude::*;
use crate::text::{chars_of, string_from_chars};
use crate::usage::{clean_string, opt_view, spec_clean};

verus! {

/// The string values found in the Codex auth file at the paths that the login
/// is read from (`None` where the path is missing or holds no string).
#[derive(Clone, Debug, Default, PartialEq, Eq)]
pub struct AuthFields {
    /// `tokens.access_token`
    pub tokens_access_token: Option<String>,
    /// `access_token`
    pub access_token: Option<String>,
    /// `tokens.account_id`
    pub tokens_account_id: Option<String>,
    /// `tokens.chatgpt_account_id`
    pub tokens_chatgpt_account_id: Option<String>,
    /// `chatgpt_account_id`
    pub chatgpt_account_id: Option<String>,
    /// `tokens.id_token`
    pub tokens_id_token: Option<String>,
}

/// What every request is authenticated with.
#[derive(Clone, Debug, Default, PartialEq, Eq)]
pub struct AuthContext {
    pub access_token: String,
    pub account_id: Option<String>,
}

/// The first of two optional values that is present.
pub open spec fn first_some(a: Option<Seq<char>>, b: Option<Seq<char>>) -> Option<Seq<char>> {
    if a is Some {
        a
    } else {
        b
    }
}

/// The access token: `tokens.access_token`, else `access_token`, each trimmed
/// and only when not empty.
pub open spec fn spec_access_token(f: AuthFields) -> Option<Seq<char>> {
    first_some(spec_clean(opt_view(f.tokens_access_token)), spec_clean(opt_view(f.access_token)))
}

/// The id token (`tokens.id_token`), trimmed and only when not empty.
pub open spec fn spec_id_token(f: AuthFields) -> Option<Seq<char>> {
    spec_clean(opt_view(f.tokens_id_token))
}

/// The account id: the first of `tokens.account_id`, `tokens.chatgpt_account_id`
/// and `chatgpt_account_id` (trimmed, not empty), else the claim read from the
/// access token, else the claim read from the id token where there is one.
pub open spec fn spec_account_id(
    f: AuthFields,
    access_claim: Option<Seq<char>>,
    id_claim: Option<Seq<char>>,
) -> Option<Seq<char>> {
    first_some(
        spec_clean(opt_view(f.tokens_account_id)),
        first_some(
            spec_clean(opt_view(f.tokens_chatgpt_account_id)),
            first_some(
                spec_clean(opt_view(f.chatgpt_account_id)),
                first_some(
                    access_claim,
                    if spec_id_token(f) is Some {
                        id_claim
                    } else {
                        None
                    },
                ),
            ),
        ),
    )
}

/// The access token's claim comes before the id token and does not depend on
/// it: where none of `tokens.account_id`, `tokens.chatgpt_account_id` and
/// `chatgpt_account_id` holds a non-empty string, the account id is the access
/// token's claim whenever there is one, with or without an id token; the id
/// token's claim counts only without it, and only where there is an id token.
/// A non-empty field always wins over both claims.
pub proof fn lemma_access_claim_before_id_token(
    f: AuthFields,
    access_claim: Option<Seq<char>>,
    id_claim: Option<Seq<char>>,
    other_id_claim: Option<Seq<char>>,
)
    ensures
        spec_clean(opt_view(f.tokens_account_id)) is None && spec_clean(
            opt_view(f.tokens_chatgpt_account_id),
        ) is None && spec_clean(opt_view(f.chatgpt_account_id)) is None ==> {
            &&& access_claim is Some ==> spec_account_id(f, access_claim, id_claim) == access_claim
            &&& access_claim is None && spec_id_token(f) is Some ==> spec_account_id(
                f,
                access_claim,
                id_claim,
            ) == id_claim
            &&& access_claim is None && spec_id_token(f) is None ==> spec_account_id(
                f,
                access_claim,
                id_claim,
            ) is None
        },
        access_claim is Some ==> spec_account_id(f, access_claim, id_claim) == spec_account_id(
            f,
            access_claim,
            other_id_claim,
        ),
        spec_clean(opt_view(f.tokens_account_id)) matches Some(v) ==> spec_account_id(
            f,
            access_claim,
            id_claim,
        ) == Some(v),
{
}

/// `tokens.access_token` wins over the top-level `access_token` wherever it
/// holds a non-empty string; the top-level one is used only without it, and
/// there is no token only where neither holds one.
pub proof fn lemma_tokens_access_token_first(f: AuthFields)
    ensures
        spec_clean(opt_view(f.tokens_access_token)) matches Some(t) ==> spec_access_token(f)
            == Some(t),
        spec_clean(opt_view(f.tokens_access_token)) is None ==> spec_access_token(f) == spec_clean(
            opt_view(f.access_token),
        ),
        spec_access_token(f) is None <==> (spec_clean(opt_view(f.tokens_access_token)) is None
            && spec_clean(opt_view(f.access_token)) is None),
{
}

/// The message given when the auth file holds no access token.
pub open spec fn missing_token_message() -> Seq<char> {
    "Codex access token was not found"@
}

/// Picks the access token, or says that there is none.
pub fn access_token(fields: &AuthFields) -> (res: Result<String, String>)
    ensures
        match res {
            Ok(t) => spec_access_token(*fields) == Some(t@),
            Err(e) => spec_access_token(*fields) is None && e@ == missing_token_message(),
        },
{
    match clean_string(fields.tokens_access_token.clone()) {
        Some(t) => Ok(t),
        None => match clean_string(fields.access_token.clone()) {
            Some(t) => Ok(t),
            None => Err(String::from_str("Codex access token was not found")),
        },
    }
}

/// The id token, where the auth file has one.
pub fn id_token(fields: &AuthFields) -> (res: Option<String>)
    ensures
        opt_view(res) == spec_id_token(*fields),
{
    clean_string(fields.tokens_id_token.clone())
}

/// Picks the account id.  `access_claim` is the `chatgpt_account_id` claim of
/// the access token, `id_claim` that of the id token; the latter is used only
/// where the auth file has an id token.
pub fn account_id(fields: &AuthFields, access_claim: Option<String>, id_claim: Option<String>) -> (res:
    Option<String>)
    ensures
        opt_view(res) == spec_account_id(*fields, opt_view(access_claim), opt_view(id_claim)),
{
    if let Some(v) = clean_string(fields.tokens_account_id.clone()) {
        return Some(v);
    }
    if let Some(v) = clean_string(fields.tokens_chatgpt_account_id.clone()) {
        return Some(v);
    }
    if let Some(v) = clean_string(fields.chatgpt_account_id.clone()) {
        return Some(v);
    }
    if access_claim.is_some() {
        return access_claim;
    }
    match id_token(fields) {
        Some(_) => id_claim,
        None => None,
    }
}

/// The position of the first '.' in `s`, or its length where it has none.
pub open spec fn dot_index(s: Seq<char>) -> nat
    decreases s.len(),
{
    if s.len() == 0 {
        0
    } else if s[0] == '.' {
        0
    } else {
        1 + dot_index(s.drop_first())
    }
}

/// The payload field of a JWT: the text between its first and second '.'
/// (or the end), where it has a '.' at all.
pub open spec fn jwt_payload_field(token: Seq<char>) -> Option<Seq<char>> {
    let i = dot_index(token);
    if i >= token.len() {
        None
    } else {
        let rest = token.skip((i + 1) as int);
        Some(rest.take(dot_index(rest) as int))
    }
}

proof fn lemma_dot_index(s: Seq<char>, i: int)
    requires
        0 <= i <= s.len(),
        forall|j: int| 0 <= j < i ==> s[j] != '.',
        i == s.len() || s[i] == '.',
    ensures
        dot_index(s) == i,
    decreases i,
{
    if i > 0 {
        lemma_dot_index(s.drop_first(), i - 1);
    }
}

/// The position of the first '.' in `v[from..]`, or `v.len()`.
fn find_dot(v: &Vec<char>, from: usize) -> (k: usize)
    requires
        from <= v@.len(),
    ensures
        from <= k <= v@.len(),
        k - from == dot_index(v@.skip(from as int)),
{
    let mut k = from;
    while k < v.len() && v[k] != '.'
        invariant
            from <= k <= v@.len(),
            forall|j: int| from <= j < k ==> v@[j] != '.',
        decreases v@.len() - k,
    {
        k += 1;
    }
    proof {
        let s = v@.skip(from as int);
        assert forall|j: int| 0 <= j < k - from implies s[j] != '.' by {
            assert(s[j] == v@[from + j]);
        }
        lemma_dot_index(s, k - from);
    }
    k
}

/// The payload field of a JWT (`token.split('.').nth(1)`).
pub fn jwt_payload_segment(token: &str) -> (res: Option<String>)
    ensures
        opt_view(res) == jwt_payload_field(token@),
{
    let v = chars_of(token);
    let i = find_dot(&v, 0);
    assert(v@.skip(0) == v@);
    if i >= v.len() {
        return None;
    }
    let j = find_dot(&v, i + 1);
    let seg = string_from_chars(&v, i + 1, j);
    assert(seg@ == v@.skip(i + 1).take(j - (i + 1)));
    Some(seg)
}

/// Names what `base64`'s `URL_SAFE_NO_PAD.decode` gives for a text: the
/// decoded bytes, `None` where the engine reports an error.
pub uninterp spec fn url_safe_no_pad_decoded(text: Seq<char>) -> Option<Seq<u8>>;

/// Decodes unpadded URL-safe base64; wraps `URL_SAFE_NO_PAD.decode` of the
/// `base64` crate.  The result is claimed to depend on the text alone.
#[verifier::external_body]
fn decode_url_safe_no_pad(text: &str) -> (res: Option<Vec<u8>>)
    ensures
        match res {
            Some(v) => url_safe_no_pad_decoded(text@) == Some(v@),
            None => url_safe_no_pad_decoded(text@) is None,
        },
{
    match base64::engine::general_purpose::URL_SAFE_NO_PAD.decode(text) {
        Ok(bytes) => Some(bytes),
        Err(_) => None,
    }
}

/// The decoded payload of a JWT: its payload field, base64 (URL-safe, no
/// padding) decoded.
pub fn jwt_payload(token: &str) -> (res: Option<Vec<u8>>)
    ensures
        match jwt_payload_field(token@) {
            Some(field) => match res {
                Some(v) => url_safe_no_pad_decoded(field) == Some(v@),
                None => url_safe_no_pad_decoded(field) is None,
            },
            None => res is None,
        },
{
    match jwt_payload_segment(token) {
        Some(seg) => decode_url_safe_no_pad(seg.as_str()),
        None => None,
    }
}

/// The string-valued members of a decoded JWT payload: those of the top-level
/// object, and those of its `"https://api.openai.com/auth"` object.
#[derive(Clone, Debug, Default, PartialEq, Eq)]
pub struct ClaimStrings {
    pub top_level: Vec<(String, String)>,
    pub openai_auth: Vec<(String, String)>,
}

/// The value of the first entry named `key`.
pub open spec fn lookup(entries: Seq<(String, String)>, key: Seq<char>) -> Option<Seq<char>>
    decreases entries.len(),
{
    if entries.len() == 0 {
        None
    } else if entries[0].0@ == key {
        Some(entries[0].1@)
    } else {
        lookup(entries.drop_first(), key)
    }
}

/// A claim of a JWT payload: a top-level string member, else the member of the
/// same name in the `"https://api.openai.com/auth"` object.
pub open spec fn spec_jwt_claim(claims: ClaimStrings, claim: Seq<char>) -> Option<Seq<char>> {
    first_some(lookup(claims.top_level@, claim), lookup(claims.openai_auth@, claim))
}

fn find_entry(entries: &Vec<(String, String)>, key: &String) -> (res: Option<String>)
    ensures
        opt_view(res) == lookup(entries@, key@),
{
    let mut i: usize = 0;
    assert(entries@.skip(0) == entries@);
    while i < entries.len()
        invariant
            i <= entries@.len(),
            lookup(entries@, key@) == lookup(entries@.skip(i as int), key@),
        decreases entries@.len() - i,
    {
        assert(entries@.skip(i as int).drop_first() == entries@.skip(i + 1));
        if entries[i].0 == *key {
            return Some(entries[i].1.clone());
        }
        i += 1;
    }
    None
}

/// Reads a claim from the string members of a decoded JWT payload.
pub fn jwt_claim(claims: &ClaimStrings, claim: &str) -> (res: Option<String>)
    ensures
        opt_view(res) == spec_jwt_claim(*claims, claim@),
{
    let key = String::from_str(claim);
    match find_entry(&claims.top_level, &key) {
        Some(v) => Some(v),
        None => find_entry(&claims.openai_auth, &key),
    }
}

} // verus!
