use ursa_minor::auth::{complete_login, require_login, IdentityOutcome, LoginStep, MojangUser, SaveOnExit};
use ursa_minor::pipeline::{
    after_upstream, respond_to, upstream_auth_header, GlobalApplicationContext, RespondStep,
};
use ursa_minor::ratelimit::{admission, StoreReply};
use ursa_minor::respond::{error_response, GatewayError};
use ursa_minor::route::{route_path, TopRoute};
use ursa_minor::rules::Rule;
use ursa_minor::token::sign_token;
use ursa_minor::util::{MillisecondTimestamp, Obscure};

fn context() -> GlobalApplicationContext {
    GlobalApplicationContext {
        rules: vec![Rule {
            http_path: String::from("player"),
            hypixel_path: String::from("https://api.example/player"),
            query_arguments: vec![String::from("uuid")],
        }],
        allow_anonymous: false,
        key: b"a-signing-secret-for-the-tests".to_vec(),
        hypixel_token: Obscure(String::from("upstream-key")),
        default_token_duration: 3_600_000,
        rate_limit_lifespan: 60,
        rate_limit_bucket: 100,
    }
}

#[test]
fn valid_request_flows_to_upstream_with_fixed_headers() {
    let cx = context();
    // First authentication: the identity service confirmed the caller.
    let user = MojangUser {
        id: String::from("11111111-2222-3333-4444-555555555555"),
        name: String::from("Alice"),
    };
    let (save, principal) =
        complete_login(IdentityOutcome::Confirmed(user), MillisecondTimestamp(1_000), 3_600_000)
            .expect("confirmed identity mints a principal");

    // Routing and translation.
    let hypixel_path = match route_path("/v1/hypixel/player/abc-123") {
        TopRoute::Hypixel(rest) => rest,
        _ => panic!("expected the proxy route"),
    };
    let step = respond_to(&cx, &hypixel_path, &principal);
    let q = match step {
        RespondStep::Query(q) => q,
        _ => panic!("expected a store query"),
    };
    assert_eq!(q.url, "https://api.example/player?uuid=abc-123");
    assert_eq!(
        q.plan.bucket_key,
        "ratelimit:11111111-2222-3333-4444-555555555555"
    );
    assert_eq!(q.plan.request_key, "hypixel:request:player");
    assert_eq!(q.plan.diagnostics_member, "abc-123");
    assert_eq!(q.plan.window_seconds, 60);

    // First call of the window: admitted.
    assert!(admission(&StoreReply::Count(1), cx.rate_limit_bucket, cx.allow_anonymous).is_ok());

    // The upstream call carries the hidden credential and, on 200, the
    // body streams back under the three fixed headers.
    let auth = upstream_auth_header(&cx);
    assert_eq!(auth, (String::from("API-Key"), String::from("upstream-key")));
    let headers = after_upstream(200).expect("200 streams through");
    assert_eq!(
        headers,
        vec![
            (String::from("Age"), String::from("0")),
            (
                String::from("Cache-Control"),
                String::from("public, s-maxage=60, max-age=300")
            ),
            (String::from("Content-Type"), String::from("application/json")),
        ]
    );

    // First-auth path: a fresh token and its expiry are attached.
    let attached = save.save_to(&cx.key).expect("signing succeeds");
    assert_eq!(attached.len(), 2);
    assert_eq!(attached[0].0, "x-ursa-token");
    assert_eq!(attached[1].0, "x-ursa-expires");

    // Existing-token path on the next request: no token header, only a
    // refreshed expiry.
    match require_login(
        false,
        &cx.key,
        Some(&attached[0].1),
        None,
        None,
        MillisecondTimestamp(2_000),
    ) {
        LoginStep::Granted { save, .. } => {
            let hs = save.save_to(&cx.key).expect("nothing to sign");
            assert_eq!(hs.len(), 1);
            assert_eq!(hs[0].0, "x-ursa-expires");
        }
        _ => panic!("expected local revalidation"),
    }
}

#[test]
fn zero_segments_yield_bad_request_naming_uuid() {
    let cx = context();
    let principal = match require_login(true, &cx.key, None, None, None, MillisecondTimestamp(0)) {
        LoginStep::Granted { principal, .. } => principal,
        _ => panic!("anonymous mode must grant"),
    };
    let hypixel_path = match route_path("/v1/hypixel/player") {
        TopRoute::Hypixel(rest) => rest,
        _ => panic!("expected the proxy route"),
    };
    match respond_to(&cx, &hypixel_path, &principal) {
        RespondStep::Reject(e) => {
            let r = error_response(&e, "unused");
            assert_eq!(r.status, 400);
            assert_eq!(r.body, "400 Missing query argument uuid");
        }
        _ => panic!("expected a rejection"),
    }
}

#[test]
fn over_threshold_request_is_rejected_before_any_upstream_call() {
    let cx = context();
    let principal = match require_login(true, &cx.key, None, None, None, MillisecondTimestamp(0)) {
        LoginStep::Granted { principal, .. } => principal,
        _ => panic!("anonymous mode must grant"),
    };
    let step = respond_to(&cx, "player/abc-123", &principal);
    assert!(matches!(step, RespondStep::Query(_)));
    // The 101st usage reading within the window, threshold 100: the
    // request is rejected as rate-limited, and the pipeline
    // short-circuits — the upstream decision is never reached.
    let decision = admission(&StoreReply::Count(101), cx.rate_limit_bucket, false);
    let mut upstream_called = false;
    match decision {
        Err(e) => {
            let r = error_response(&e, "unused");
            assert_eq!(r.status, 429);
            assert_eq!(r.body, "429 Rate limit exceeded");
        }
        Ok(()) => {
            upstream_called = true;
            after_upstream(200).expect("unreachable");
        }
    }
    assert!(!upstream_called);
}

#[test]
fn unmatched_proxy_path_falls_through_to_not_found() {
    let cx = context();
    let principal = match require_login(true, &cx.key, None, None, None, MillisecondTimestamp(0)) {
        LoginStep::Granted { principal, .. } => principal,
        _ => panic!("anonymous mode must grant"),
    };
    assert!(matches!(respond_to(&cx, "guild/x", &principal), RespondStep::NoMatch));
}

#[test]
fn upstream_failure_is_reported_and_body_discarded() {
    for status in [404u16, 429, 500, 502] {
        match after_upstream(status) {
            Err(e) => {
                let r = error_response(&e, "unused");
                assert_eq!(r.status, 502);
                assert_eq!(r.body, "502 Failed to request hypixel upstream");
            }
            Ok(_) => panic!("only 200 streams through"),
        }
    }
}

#[test]
fn signed_token_round_trips_through_the_wire_form() {
    let cx = context();
    let p = ursa_minor::token::JWTPrincipal {
        id: String::from("ab"),
        name: String::from("N"),
        valid_since: MillisecondTimestamp(0),
        valid_until: MillisecondTimestamp(10),
        superuser: true,
    };
    let t = sign_token(&cx.key, &p).expect("signing succeeds");
    // The wire form is a real three-part JWT, not the input handed back.
    assert_eq!(t.split('.').count(), 3);
    let q = ursa_minor::token::verify_existing_login(&cx.key, Some(&t), MillisecondTimestamp(5))
        .expect("verifies inside the window");
    assert!(q.superuser);
    assert_eq!(q.id, "ab");
}

#[test]
fn save_directive_signs_with_any_key_length() {
    // An empty secret still signs (HMAC accepts any key length), so the
    // save directive succeeds; this pins the Save directive's shape.
    let p = ursa_minor::token::JWTPrincipal {
        id: String::from("x"),
        name: String::from("y"),
        valid_since: MillisecondTimestamp(0),
        valid_until: MillisecondTimestamp(1),
        superuser: false,
    };
    let save = SaveOnExit::Save { principal: p };
    let hs = save.save_to(b"").expect("HMAC accepts any key length");
    assert_eq!(hs.len(), 2);
    let r = error_response(&GatewayError::Internal, "cid");
    assert_eq!(r.status, 500);
    assert_eq!(r.body, "500 Internal Error\n\nError id: cid");
}
