//! The session token codec: a principal signed into a compact stateless
//! credential with an integrity tag, and verified back, with an explicit
//! validity window checked against the current time.
//!
//! Signing and tag verification are delegated to the `jwt` crate over an
//! HMAC-SHA384 key (chosen to resist length-extension attacks); the
//! validity-window rule is the library's own, verified logic.

use vstd::prelude::*;

use crate::util::MillisecondTimestamp;

verus! {

/// The verified identity and validity window carried by one caller for
/// the lifetime of one request.  Immutable once constructed.
pub struct JWTPrincipal {
    /// Opaque, UUID-shaped identity.
    pub id: String,
    /// Display name, informational only.
    pub name: String,
    pub valid_since: MillisecondTimestamp,
    pub valid_until: MillisecondTimestamp,
    pub superuser: bool,
}

/// The mathematical shape of a `JWTPrincipal`.
#[verifier::ext_equal]
pub struct JWTPrincipalView {
    pub id: Seq<char>,
    pub name: Seq<char>,
    pub valid_since: u64,
    pub valid_until: u64,
    pub superuser: bool,
}

impl View for JWTPrincipal {
    type V = JWTPrincipalView;

    open spec fn view(&self) -> JWTPrincipalView {
        JWTPrincipalView {
            id: self.id@,
            name: self.name@,
            valid_since: self.valid_since.0,
            valid_until: self.valid_until.0,
            superuser: self.superuser,
        }
    }
}

impl Clone for JWTPrincipal {
    fn clone(&self) -> (r: Self)
        ensures
            r@ == self@,
    {
        JWTPrincipal {
            id: self.id.clone(),
            name: self.name.clone(),
            valid_since: self.valid_since,
            valid_until: self.valid_until,
            superuser: self.superuser,
        }
    }
}

/// The claims a principal is signed with, as plain values.
pub open spec fn principal_claims(p: JWTPrincipalView) -> (
    Seq<char>,
    Seq<char>,
    u64,
    u64,
    bool,
) {
    (p.id, p.name, p.valid_since, p.valid_until, p.superuser)
}

/// What tag verification with `secret` makes of `token`: the claims the
/// token carries when its integrity tag checks out, `None` otherwise.
/// The result depends on the secret and the token alone; the validity
/// window is not part of it.
pub uninterp spec fn claims_of(secret: Seq<u8>, token: Seq<char>) -> Option<
    (Seq<char>, Seq<char>, u64, u64, bool),
>;

/// The claims carried by a token that verified, as the codec hands them
/// back.
pub struct TokenClaims {
    pub id: String,
    pub name: String,
    pub valid_since: u64,
    pub valid_until: u64,
    pub superuser: bool,
}

/// The view of what claim verification returned.
pub open spec fn opt_claims_view(r: Option<TokenClaims>) -> Option<
    (Seq<char>, Seq<char>, u64, u64, bool),
> {
    match r {
        Some(c) => Some((c.id@, c.name@, c.valid_since, c.valid_until, c.superuser)),
        None => None,
    }
}

/// Relies on `jwt::SignWithKey::sign_with_key` over an
/// `hmac::Hmac<sha2::Sha384>` key built with `Mac::new_from_slice`: the
/// claims are serialized into the token and tag verification of the
/// result with the same secret yields exactly these claims back.
/// Success is owed: HMAC accepts a key of any length, the header is
/// built from the key's own algorithm, HMAC signing itself cannot fail,
/// and serializing these five string, integer and boolean claims cannot
/// fail either, so the signing call returns `Ok` on every input.
#[verifier::external_body]
fn sign_claims(
    secret: &[u8],
    id: &str,
    name: &str,
    valid_since: u64,
    valid_until: u64,
    superuser: bool,
) -> (r: Option<String>)
    ensures
        r is Some,
        r matches Some(t) ==> claims_of(secret@, t@) == Some(
            (id@, name@, valid_since, valid_until, superuser),
        ),
{
    let key: hmac::Hmac<sha2::Sha384> = match hmac::Mac::new_from_slice(secret) {
        Ok(k) => k,
        Err(_) => return None,
    };
    let mut claims = serde_json::Map::new();
    claims.insert("id".to_string(), serde_json::Value::String(id.to_string()));
    claims.insert("name".to_string(), serde_json::Value::String(name.to_string()));
    claims.insert("valid_since".to_string(), serde_json::Value::from(valid_since));
    claims.insert("valid_until".to_string(), serde_json::Value::from(valid_until));
    claims.insert("superuser".to_string(), serde_json::Value::Bool(superuser));
    jwt::SignWithKey::sign_with_key(serde_json::Value::Object(claims), &key).ok()
}

/// Relies on `jwt::VerifyWithKey::verify_with_key` over an
/// `hmac::Hmac<sha2::Sha384>` key built with `Mac::new_from_slice`: the
/// token's integrity tag is checked against the secret and the claims it
/// carries are handed back; any failure (malformed token, wrong tag,
/// missing or misshapen claim) yields `None`.  The outcome is a function
/// of the secret and the token alone.
#[verifier::external_body]
fn verify_claims(secret: &[u8], token: &str) -> (r: Option<TokenClaims>)
    ensures
        opt_claims_view(r) == claims_of(secret@, token@),
{
    let key: hmac::Hmac<sha2::Sha384> = match hmac::Mac::new_from_slice(secret) {
        Ok(k) => k,
        Err(_) => return None,
    };
    let v: serde_json::Value = match jwt::VerifyWithKey::verify_with_key(token, &key) {
        Ok(v) => v,
        Err(_) => return None,
    };
    let id = v.get("id")?.as_str()?.to_string();
    let name = v.get("name")?.as_str()?.to_string();
    let valid_since = v.get("valid_since")?.as_u64()?;
    let valid_until = v.get("valid_until")?.as_u64()?;
    let superuser = v.get("superuser")?.as_bool()?;
    Some(TokenClaims { id, name, valid_since, valid_until, superuser })
}

/// Signs a principal into its wire credential.  Signing succeeds on
/// every input, and verifying the returned token with the same secret
/// yields exactly this principal's claims.
pub fn sign_token(secret: &[u8], p: &JWTPrincipal) -> (r: Option<String>)
    ensures
        r is Some,
        r matches Some(t) ==> claims_of(secret@, t@) == Some(principal_claims(p@)),
{
    sign_claims(
        secret,
        p.id.as_str(),
        p.name.as_str(),
        p.valid_since.0,
        p.valid_until.0,
        p.superuser,
    )
}

/// A token is accepted only inside its validity window.
pub open spec fn window_valid(valid_since: u64, valid_until: u64, now: u64) -> bool {
    valid_since <= now <= valid_until
}

/// The view of an optional header value.
pub open spec fn opt_str_view(s: Option<&str>) -> Option<Seq<char>> {
    match s {
        Some(t) => Some(t@),
        None => None,
    }
}

/// What presenting an existing credential yields: the principal it
/// carries when the integrity tag verifies and `now` lies inside the
/// validity window; `None` when the token is absent, fails verification
/// or lies outside its window — all three count the same, as "no
/// existing login", never as a hard failure.
pub open spec fn existing_login_spec(
    secret: Seq<u8>,
    token: Option<Seq<char>>,
    now: u64,
) -> Option<JWTPrincipalView> {
    match token {
        None => None,
        Some(t) => match claims_of(secret, t) {
            None => None,
            Some(c) => if window_valid(c.2, c.3, now) {
                Some(
                    JWTPrincipalView {
                        id: c.0,
                        name: c.1,
                        valid_since: c.2,
                        valid_until: c.3,
                        superuser: c.4,
                    },
                )
            } else {
                None
            },
        },
    }
}

/// Checks an existing credential: integrity tag, then validity window,
/// exactly as `existing_login_spec` describes.
pub fn verify_existing_login(
    secret: &[u8],
    token: Option<&str>,
    now: MillisecondTimestamp,
) -> (r: Option<JWTPrincipal>)
    ensures
        match r {
            Some(p) => existing_login_spec(secret@, opt_str_view(token), now.0) == Some(p@),
            None => existing_login_spec(secret@, opt_str_view(token), now.0) is None,
        },
{
    match token {
        None => None,
        Some(t) => match verify_claims(secret, t) {
            None => None,
            Some(c) => {
                if c.valid_since <= now.0 && now.0 <= c.valid_until {
                    Some(
                        JWTPrincipal {
                            id: c.id,
                            name: c.name,
                            valid_since: MillisecondTimestamp(c.valid_since),
                            valid_until: MillisecondTimestamp(c.valid_until),
                            superuser: c.superuser,
                        },
                    )
                } else {
                    None
                }
            },
        },
    }
}

/// A token signed over the whole of time — `valid_since` zero,
/// `valid_until` the largest timestamp — verifies successfully at every
/// `now`.
pub proof fn lemma_unbounded_window_verifies(
    secret: Seq<u8>,
    t: Seq<char>,
    id: Seq<char>,
    name: Seq<char>,
    superuser: bool,
    now: u64,
)
    requires
        claims_of(secret, t) == Some((id, name, 0u64, u64::MAX, superuser)),
    ensures
        existing_login_spec(secret, Some(t), now) == Some(
            JWTPrincipalView {
                id: id,
                name: name,
                valid_since: 0u64,
                valid_until: u64::MAX,
                superuser: superuser,
            },
        ),
{
}

/// A token whose window has lapsed is treated exactly as an absent one:
/// the check yields "no existing login", never a hard failure.
pub proof fn lemma_expired_token_counts_as_absent(
    secret: Seq<u8>,
    t: Seq<char>,
    now: u64,
)
    requires
        claims_of(secret, t) matches Some(c) && c.3 < now,
    ensures
        existing_login_spec(secret, Some(t), now) == existing_login_spec(secret, None, now),
{
}

} // verus!
