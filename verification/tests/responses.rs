use ursa_minor::respond::{
    error_response, internal_error_response, make_error, not_found_response, root_redirect_response,
    success_headers, timings_header_value, GatewayError,
};
use ursa_minor::route::{debug_string, meta_route, principal_text, route_path, MetaRoute, TopRoute};
use ursa_minor::rules::Rule;
use ursa_minor::text::u64_to_string;
use ursa_minor::token::JWTPrincipal;
use ursa_minor::util::{pure_false, MillisecondTimestamp, Obscure};

#[test]
fn decimal_rendering_is_exact() {
    assert_eq!(u64_to_string(0), "0");
    assert_eq!(u64_to_string(429), "429");
    assert_eq!(u64_to_string(u64::MAX), "18446744073709551615");
}

#[test]
fn error_bodies_carry_status_and_text() {
    let r = make_error(400, "Missing query argument uuid");
    assert_eq!(r.status, 400);
    assert_eq!(r.body, "400 Missing query argument uuid");
    assert!(r.headers.is_empty());
}

#[test]
fn each_error_variant_renders_its_response() {
    let cases = [
        (GatewayError::BadRequest(String::from("nope")), 400, "400 nope"),
        (GatewayError::Unauthorized, 401, "401 Unauthorized"),
        (GatewayError::RateLimited, 429, "429 Rate limit exceeded"),
        (GatewayError::StoreFailure, 500, "500 Redis failure"),
        (
            GatewayError::UpstreamFailure,
            502,
            "502 Failed to request hypixel upstream",
        ),
    ];
    for (e, status, body) in cases {
        let r = error_response(&e, "unused");
        assert_eq!(r.status, status);
        assert_eq!(r.body, body);
        assert_eq!(e.status_code(), status);
    }
}

#[test]
fn internal_error_leaks_only_the_correlation_id() {
    let r = error_response(&GatewayError::Internal, "abcd-1234");
    assert_eq!(r.status, 500);
    assert_eq!(r.body, "500 Internal Error\n\nError id: abcd-1234");
    let direct = internal_error_response("abcd-1234");
    assert_eq!(direct.status, r.status);
    assert_eq!(direct.body, r.body);
}

#[test]
fn success_headers_are_the_three_fixed_ones() {
    let hs = success_headers();
    assert_eq!(
        hs,
        vec![
            (String::from("Age"), String::from("0")),
            (
                String::from("Cache-Control"),
                String::from("public, s-maxage=60, max-age=300")
            ),
            (String::from("Content-Type"), String::from("application/json")),
        ]
    );
}

#[test]
fn timings_header_is_nanoseconds_with_suffix() {
    assert_eq!(timings_header_value(1234567), "1234567ns");
    assert_eq!(timings_header_value(0), "0ns");
}

#[test]
fn root_and_not_found_responses() {
    let root = root_redirect_response();
    assert_eq!(root.status, 302);
    assert_eq!(
        root.headers,
        vec![(
            String::from("Location"),
            String::from("https://github.com/NotEnoughUpdates/ursa-minor")
        )]
    );
    assert_eq!(root.body, "");
    let nf = not_found_response("/nope");
    assert_eq!(nf.status, 404);
    assert_eq!(nf.body, "404 Unknown request path /nope");
}

#[test]
fn top_level_routing() {
    assert!(matches!(route_path("/"), TopRoute::Root));
    match route_path("/_meta/version") {
        TopRoute::Meta(rest) => assert_eq!(rest, "version"),
        _ => panic!("expected the meta route"),
    }
    match route_path("/v1/hypixel/player/abc") {
        TopRoute::Hypixel(rest) => assert_eq!(rest, "player/abc"),
        _ => panic!("expected the proxy route"),
    }
    assert!(matches!(route_path("/v2/other"), TopRoute::NotFound));
    assert!(matches!(route_path(""), TopRoute::NotFound));
}

#[test]
fn meta_routing() {
    assert_eq!(meta_route("version"), MetaRoute::Version);
    assert_eq!(meta_route("principal"), MetaRoute::Principal);
    assert_eq!(meta_route("stats"), MetaRoute::Stats);
    assert_eq!(meta_route("other"), MetaRoute::Unknown);
}

#[test]
fn version_banner_is_fixed() {
    assert_eq!(
        debug_string(),
        "ursa-minor https://github.com/NotEnoughUpdates/ursa-minor/"
    );
}

#[test]
fn principal_rendering_shows_every_field() {
    let p = JWTPrincipal {
        id: String::from("ab-12"),
        name: String::from("Alice"),
        valid_since: MillisecondTimestamp(5),
        valid_until: MillisecondTimestamp(900),
        superuser: false,
    };
    assert_eq!(
        principal_text(&p),
        "id: ab-12\nname: Alice\nvalid_since: 5\nvalid_until: 900\nsuperuser: false"
    );
}

#[test]
fn statistics_keys_follow_the_rules() {
    let rules = vec![
        Rule {
            http_path: String::from("player"),
            hypixel_path: String::from("https://api.example/player"),
            query_arguments: vec![String::from("uuid")],
        },
        Rule {
            http_path: String::from("guild"),
            hypixel_path: String::from("https://api.example/guild"),
            query_arguments: vec![],
        },
    ];
    assert_eq!(
        ursa_minor::route::statistics_keys(&rules),
        vec![
            String::from("hypixel:accumulated:player"),
            String::from("hypixel:accumulated:guild"),
        ]
    );
    assert_eq!(rules[0].accumulated_statistics_key(), "hypixel:accumulated:player");
    assert_eq!(rules[0].request_statistics_key(), "hypixel:request:player");
}

#[test]
fn timestamp_wait_time() {
    let t = MillisecondTimestamp(1000);
    assert_eq!(t.wait_time_or_zero_from(MillisecondTimestamp(400)), 600);
    assert_eq!(t.wait_time_or_zero_from(MillisecondTimestamp(1000)), 0);
    assert_eq!(t.wait_time_or_zero_from(MillisecondTimestamp(2000)), 0);
    let now = MillisecondTimestamp::now();
    assert!(now.0 > 0);
    assert_eq!(MillisecondTimestamp(0).wait_time_or_zero(), 0);
}

#[test]
fn small_utilities() {
    assert!(!pure_false());
    let secret = Obscure(String::from("upstream-key"));
    assert_eq!(secret.masked_text(), "..");
    assert_eq!(secret.0, "upstream-key");
}
