//! The auth session manager: trust an existing valid credential, or fall
//! back to the external identity check and mint a new one; anonymous
//! bypass mode; and the save directive applied to the outgoing response.

use vstd::prelude::*;

use crate::respond::{GatewayError, GatewayErrorView};
use crate::text::{dec_digits, u64_to_string};
use crate::token::{
    claims_of, existing_login_spec, opt_str_view, principal_claims, sign_token, window_valid,
    verify_existing_login, JWTPrincipal, JWTPrincipalView,
};
use crate::util::MillisecondTimestamp;
use crate::weburl::{params_view, url_with_params, url_with_params_of};

verus! {

/// An identity confirmed by the external identity service.
pub struct MojangUser {
    pub id: String,
    pub name: String,
}

/// The mathematical shape of a `MojangUser`.
#[verifier::ext_equal]
pub struct MojangUserView {
    pub id: Seq<char>,
    pub name: Seq<char>,
}

impl View for MojangUser {
    type V = MojangUserView;

    open spec fn view(&self) -> MojangUserView {
        MojangUserView { id: self.id@, name: self.name@ }
    }
}

/// The save directive: which auth headers the outgoing response gets,
/// decided once per request and applied exactly once, at the very end.
pub enum SaveOnExit {
    /// Attach nothing.
    DontSave,
    /// Refresh the expiry header only; the caller keeps its token.
    SaveExpires { timestamp: MillisecondTimestamp },
    /// Sign the freshly minted principal and attach token and expiry.
    Save { principal: JWTPrincipal },
}

/// The mathematical shape of a `SaveOnExit`.
#[verifier::ext_equal]
pub enum SaveOnExitView {
    DontSave,
    SaveExpires { timestamp: u64 },
    Save { principal: JWTPrincipalView },
}

impl View for SaveOnExit {
    type V = SaveOnExitView;

    open spec fn view(&self) -> SaveOnExitView {
        match self {
            SaveOnExit::DontSave => SaveOnExitView::DontSave,
            SaveOnExit::SaveExpires { timestamp } => SaveOnExitView::SaveExpires {
                timestamp: timestamp.0,
            },
            SaveOnExit::Save { principal } => SaveOnExitView::Save { principal: principal@ },
        }
    }
}

/// The view of a header list.
pub open spec fn header_pairs_view(hs: Seq<(String, String)>) -> Seq<(Seq<char>, Seq<char>)> {
    hs.map_values(|h: (String, String)| (h.0@, h.1@))
}

impl SaveOnExit {
    /// Applies the directive: the auth headers to attach to the final
    /// response, whichever stage produced it.  Attaching nothing, an
    /// expiry header, or — for a fresh principal — a newly signed token
    /// whose claims are exactly the principal's, plus its expiry.
    /// Success is owed on every directive: signing these claims cannot
    /// fail.
    pub fn save_to(&self, secret: &[u8]) -> (r: Result<Vec<(String, String)>, GatewayError>)
        ensures
            r is Ok,
            match self@ {
                SaveOnExitView::DontSave => r matches Ok(hs) && header_pairs_view(hs@)
                    == Seq::<(Seq<char>, Seq<char>)>::empty(),
                SaveOnExitView::SaveExpires { timestamp } => r matches Ok(hs)
                    && header_pairs_view(hs@) == seq![
                    ("x-ursa-expires"@, dec_digits(timestamp as nat)),
                ],
                SaveOnExitView::Save { principal } => r matches Ok(hs) && ({
                    let v = header_pairs_view(hs@);
                    &&& v.len() == 2
                    &&& v[0].0 == "x-ursa-token"@
                    &&& claims_of(secret@, v[0].1) == Some(principal_claims(principal))
                    &&& v[1] == ("x-ursa-expires"@, dec_digits(principal.valid_until as nat))
                }),
            },
    {
        match self {
            SaveOnExit::DontSave => {
                let hs: Vec<(String, String)> = Vec::new();
                assert(header_pairs_view(hs@) =~= Seq::<(Seq<char>, Seq<char>)>::empty());
                Ok(hs)
            },
            SaveOnExit::SaveExpires { timestamp } => {
                let mut hs: Vec<(String, String)> = Vec::new();
                hs.push((String::from_str("x-ursa-expires"), u64_to_string(timestamp.0)));
                assert(header_pairs_view(hs@) =~= seq![
                    ("x-ursa-expires"@, dec_digits(timestamp.0 as nat)),
                ]);
                Ok(hs)
            },
            SaveOnExit::Save { principal } => {
                match sign_token(secret, principal) {
                    None => vstd::pervasive::unreached(),
                    Some(signed) => {
                        let mut hs: Vec<(String, String)> = Vec::new();
                        hs.push((String::from_str("x-ursa-token"), signed));
                        hs.push((
                            String::from_str("x-ursa-expires"),
                            u64_to_string(principal.valid_until.0),
                        ));
                        let ghost v = header_pairs_view(hs@);
                        assert(v.len() == 2);
                        Ok(hs)
                    },
                }
            },
        }
    }
}

/// The fixed, non-expiring, non-superuser principal every request runs
/// as when anonymous mode is enabled.
pub open spec fn anonymous_principal_view() -> JWTPrincipalView {
    JWTPrincipalView {
        id: "00000000-0000-0000-0000-000000000000"@,
        name: "CoolGuy123"@,
        valid_since: 0u64,
        valid_until: u64::MAX,
        superuser: false,
    }
}

/// Builds the anonymous principal.
pub fn anonymous_principal() -> (p: JWTPrincipal)
    ensures
        p@ == anonymous_principal_view(),
{
    JWTPrincipal {
        id: String::from_str("00000000-0000-0000-0000-000000000000"),
        name: String::from_str("CoolGuy123"),
        valid_since: MillisecondTimestamp(0),
        valid_until: MillisecondTimestamp(u64::MAX),
        superuser: false,
    }
}

/// What the login stage decides before any external call is made.
pub enum LoginStep {
    /// The request runs as this principal; apply `save` at the end.
    Granted { save: SaveOnExit, principal: JWTPrincipal },
    /// No valid credential: ask the external identity service at `url`
    /// whether `username` has just joined under `server_id`.
    NeedIdentity { username: String, server_id: String, url: String },
    /// A required identity header is missing; terminal bad request.
    Refused { error: GatewayError },
    /// The identity service URL was refused by URL parsing.
    Failed,
}

/// The mathematical shape of a `LoginStep`.
#[verifier::ext_equal]
pub enum LoginStepView {
    Granted { save: SaveOnExitView, principal: JWTPrincipalView },
    NeedIdentity { username: Seq<char>, server_id: Seq<char>, url: Seq<char> },
    Refused { error: GatewayErrorView },
    Failed,
}

impl View for LoginStep {
    type V = LoginStepView;

    open spec fn view(&self) -> LoginStepView {
        match self {
            LoginStep::Granted { save, principal } => LoginStepView::Granted {
                save: save@,
                principal: principal@,
            },
            LoginStep::NeedIdentity { username, server_id, url } => LoginStepView::NeedIdentity {
                username: username@,
                server_id: server_id@,
                url: url@,
            },
            LoginStep::Refused { error } => LoginStepView::Refused { error: error@ },
            LoginStep::Failed => LoginStepView::Failed,
        }
    }
}

/// The query pairs of the external identity check for a claimed username
/// and one-time server session identifier.
pub open spec fn identity_check_params(username: Seq<char>, server_id: Seq<char>) -> Seq<
    (Seq<char>, Seq<char>),
> {
    seq![("username"@, username), ("serverId"@, server_id)]
}

/// The login decision, in order: anonymous bypass; an existing valid
/// credential, revalidated locally with only its expiry refreshed; else
/// the identity headers are checked and the external identity call is
/// prepared — a missing header is refused before any external call.  An
/// invalid or expired token falls through silently, like an absent one.
pub open spec fn require_login_spec(
    allow_anonymous: bool,
    secret: Seq<u8>,
    token: Option<Seq<char>>,
    username: Option<Seq<char>>,
    server_id: Option<Seq<char>>,
    now: u64,
) -> LoginStepView {
    if allow_anonymous {
        LoginStepView::Granted {
            save: SaveOnExitView::DontSave,
            principal: anonymous_principal_view(),
        }
    } else {
        match existing_login_spec(secret, token, now) {
            Some(p) => LoginStepView::Granted {
                save: SaveOnExitView::SaveExpires { timestamp: p.valid_until },
                principal: p,
            },
            None => match (username, server_id) {
                (None, _) => LoginStepView::Refused {
                    error: GatewayErrorView::BadRequest("Missing username to authenticate"@),
                },
                (Some(_), None) => LoginStepView::Refused {
                    error: GatewayErrorView::BadRequest("Missing serverid to authenticate"@),
                },
                (Some(u), Some(s)) => match url_with_params_of(
                    "https://sessionserver.mojang.com/session/minecraft/hasJoined"@,
                    identity_check_params(u, s),
                ) {
                    Some(url) => LoginStepView::NeedIdentity {
                        username: u,
                        server_id: s,
                        url: url,
                    },
                    None => LoginStepView::Failed,
                },
            },
        }
    }
}

/// Decides the login stage from the request's auth headers and the
/// current time, exactly as `require_login_spec` describes.
pub fn require_login(
    allow_anonymous: bool,
    secret: &[u8],
    token: Option<&str>,
    username: Option<&str>,
    server_id: Option<&str>,
    now: MillisecondTimestamp,
) -> (r: LoginStep)
    ensures
        r@ == require_login_spec(
            allow_anonymous,
            secret@,
            opt_str_view(token),
            opt_str_view(username),
            opt_str_view(server_id),
            now.0,
        ),
{
    if allow_anonymous {
        return LoginStep::Granted { save: SaveOnExit::DontSave, principal: anonymous_principal() };
    }
    match verify_existing_login(secret, token, now) {
        Some(principal) => {
            let timestamp = principal.valid_until;
            LoginStep::Granted { save: SaveOnExit::SaveExpires { timestamp }, principal }
        },
        None => {
            let u = match username {
                None => {
                    return LoginStep::Refused {
                        error: GatewayError::BadRequest(
                            String::from_str("Missing username to authenticate"),
                        ),
                    };
                },
                Some(u) => u,
            };
            let s = match server_id {
                None => {
                    return LoginStep::Refused {
                        error: GatewayError::BadRequest(
                            String::from_str("Missing serverid to authenticate"),
                        ),
                    };
                },
                Some(s) => s,
            };
            let mut pairs: Vec<(String, String)> = Vec::new();
            pairs.push((String::from_str("username"), u.to_owned()));
            pairs.push((String::from_str("serverId"), s.to_owned()));
            assert(params_view(pairs@) =~= identity_check_params(u@, s@));
            match url_with_params(
                "https://sessionserver.mojang.com/session/minecraft/hasJoined",
                &pairs,
            ) {
                Some(url) => LoginStep::NeedIdentity {
                    username: u.to_owned(),
                    server_id: s.to_owned(),
                    url,
                },
                None => LoginStep::Failed,
            }
        },
    }
}

/// What the external identity service answered.
pub enum IdentityOutcome {
    /// The service confirmed the claimed identity.
    Confirmed(MojangUser),
    /// Any non-success answer, network failure included.
    Denied,
}

/// The view of an identity outcome.
pub open spec fn identity_outcome_view(o: &IdentityOutcome) -> Option<MojangUserView> {
    match o {
        IdentityOutcome::Confirmed(u) => Some(u@),
        IdentityOutcome::Denied => None,
    }
}

/// The principal minted for a confirmed identity: valid from `now` for
/// the configured token lifetime (clamped to the largest timestamp),
/// never a superuser.
pub open spec fn minted_principal(user: MojangUserView, now: u64, lifetime: u64) -> JWTPrincipalView {
    JWTPrincipalView {
        id: user.id,
        name: user.name,
        valid_since: now,
        valid_until: if now + lifetime > u64::MAX { u64::MAX } else { (now + lifetime) as u64 },
        superuser: false,
    }
}

/// Finishes the login from the external identity answer: a confirmed
/// identity mints a fresh principal with the issue-new-token directive;
/// any other answer is unauthorized, never retried.
pub fn complete_login(
    outcome: IdentityOutcome,
    now: MillisecondTimestamp,
    token_lifetime_millis: u64,
) -> (r: Result<(SaveOnExit, JWTPrincipal), GatewayError>)
    ensures
        match identity_outcome_view(&outcome) {
            Some(user) => {
                let minted = minted_principal(user, now.0, token_lifetime_millis);
                r matches Ok((save, p)) && p@ == minted && save@ == (SaveOnExitView::Save {
                    principal: minted,
                })
            },
            None => r matches Err(e) && e@ == GatewayErrorView::Unauthorized,
        },
{
    match outcome {
        IdentityOutcome::Confirmed(user) => {
            let principal = JWTPrincipal {
                id: user.id,
                name: user.name,
                valid_since: now,
                valid_until: MillisecondTimestamp(now.0.saturating_add(token_lifetime_millis)),
                superuser: false,
            };
            let kept = principal.clone();
            Ok((SaveOnExit::Save { principal }, kept))
        },
        IdentityOutcome::Denied => Err(GatewayError::Unauthorized),
    }
}

/// Anonymous mode grants every request at once: the anonymous principal,
/// the attach-nothing directive, and never the external identity check.
/// (With the attach-nothing directive, `save_to` attaches no auth
/// headers, and the rate limiter's own contract waives its check.)
pub proof fn lemma_anonymous_bypass(
    secret: Seq<u8>,
    token: Option<Seq<char>>,
    username: Option<Seq<char>>,
    server_id: Option<Seq<char>>,
    now: u64,
)
    ensures
        require_login_spec(true, secret, token, username, server_id, now)
            == (LoginStepView::Granted {
            save: SaveOnExitView::DontSave,
            principal: anonymous_principal_view(),
        }),
{
}

/// A successful identity verification followed immediately by presenting
/// the issued token inside its validity window authenticates locally —
/// the decision is `Granted`, not `NeedIdentity`, so no second external
/// identity call is made — and the request runs as the same principal.
pub proof fn lemma_fresh_token_revalidates(
    secret: Seq<u8>,
    t: Seq<char>,
    p: JWTPrincipalView,
    username: Option<Seq<char>>,
    server_id: Option<Seq<char>>,
    now: u64,
)
    requires
        claims_of(secret, t) == Some(principal_claims(p)),
        window_valid(p.valid_since, p.valid_until, now),
    ensures
        require_login_spec(false, secret, Some(t), username, server_id, now)
            == (LoginStepView::Granted {
            save: SaveOnExitView::SaveExpires { timestamp: p.valid_until },
            principal: p,
        }),
{
    assert(existing_login_spec(secret, Some(t), now) matches Some(q) && q =~= p);
}

} // verus!
