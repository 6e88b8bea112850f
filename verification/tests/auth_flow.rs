use ursa_minor::auth::{require_login, LoginStep, SaveOnExit};
use ursa_minor::ratelimit::{admission, StoreReply};
use ursa_minor::respond::GatewayError;
use ursa_minor::util::MillisecondTimestamp;

const SECRET: &[u8] = b"a-signing-secret-for-the-tests";

#[test]
fn anonymous_mode_grants_without_identity_or_headers() {
    // Whatever the caller sends, anonymous mode grants at once with the
    // fixed principal and the attach-nothing directive.
    match require_login(
        true,
        SECRET,
        Some("garbage-token"),
        None,
        None,
        MillisecondTimestamp(123),
    ) {
        LoginStep::Granted { save, principal } => {
            assert_eq!(principal.id, "00000000-0000-0000-0000-000000000000");
            assert_eq!(principal.name, "CoolGuy123");
            assert_eq!(principal.valid_since.0, 0);
            assert_eq!(principal.valid_until.0, u64::MAX);
            assert!(!principal.superuser);
            assert!(matches!(save, SaveOnExit::DontSave));
            // The attach-nothing directive really attaches nothing.
            assert!(save.save_to(SECRET).expect("nothing to sign").is_empty());
        }
        _ => panic!("anonymous mode must grant"),
    }
    // And the rate limiter is bypassed however high the usage reads.
    assert!(admission(&StoreReply::Count(i64::MAX), 1, true).is_ok());
}

#[test]
fn missing_username_is_refused_before_any_external_call() {
    match require_login(false, SECRET, None, None, Some("srv"), MillisecondTimestamp(1)) {
        LoginStep::Refused { error: GatewayError::BadRequest(m) } => {
            assert_eq!(m, "Missing username to authenticate");
        }
        _ => panic!("expected a bad request"),
    }
}

#[test]
fn missing_serverid_is_refused_before_any_external_call() {
    match require_login(false, SECRET, None, Some("Alice"), None, MillisecondTimestamp(1)) {
        LoginStep::Refused { error: GatewayError::BadRequest(m) } => {
            assert_eq!(m, "Missing serverid to authenticate");
        }
        _ => panic!("expected a bad request"),
    }
}

#[test]
fn identity_check_url_carries_both_headers_encoded() {
    match require_login(
        false,
        SECRET,
        None,
        Some("Alice Smith"),
        Some("server&1"),
        MillisecondTimestamp(1),
    ) {
        LoginStep::NeedIdentity { username, server_id, url } => {
            assert_eq!(username, "Alice Smith");
            assert_eq!(server_id, "server&1");
            assert_eq!(
                url,
                "https://sessionserver.mojang.com/session/minecraft/hasJoined?username=Alice+Smith&serverId=server%261"
            );
        }
        _ => panic!("expected the identity check"),
    }
}

#[test]
fn refresh_directive_attaches_expiry_only() {
    let save = SaveOnExit::SaveExpires { timestamp: MillisecondTimestamp(123456) };
    let headers = save.save_to(SECRET).expect("nothing to sign");
    assert_eq!(headers, vec![(String::from("x-ursa-expires"), String::from("123456"))]);
}
