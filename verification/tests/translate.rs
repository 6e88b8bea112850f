use ursa_minor::respond::GatewayError;
use ursa_minor::rules::{translate, Rule, Translation};

fn player_rule() -> Rule {
    Rule {
        http_path: String::from("player"),
        hypixel_path: String::from("https://api.example/player"),
        query_arguments: vec![String::from("uuid")],
    }
}

#[test]
fn exact_segments_build_url_in_order() {
    let rules = vec![player_rule()];
    match translate(&rules, "player/abc-123") {
        Translation::Forward(f) => {
            assert_eq!(f.url, "https://api.example/player?uuid=abc-123");
            assert_eq!(f.rule_index, 0);
            assert_eq!(f.segments, vec![String::from("abc-123")]);
        }
        _ => panic!("expected a forwarded translation"),
    }
}

#[test]
fn segments_are_url_encoded_under_their_names() {
    let rules = vec![Rule {
        http_path: String::from("guild"),
        hypixel_path: String::from("https://api.example/guild"),
        query_arguments: vec![String::from("name"), String::from("tag")],
    }];
    match translate(&rules, "guild/the guild/a&b") {
        Translation::Forward(f) => {
            assert_eq!(f.url, "https://api.example/guild?name=the+guild&tag=a%26b");
        }
        _ => panic!("expected a forwarded translation"),
    }
}

#[test]
fn missing_segment_names_first_missing_argument() {
    let rules = vec![player_rule()];
    match translate(&rules, "player") {
        Translation::Rejected(GatewayError::BadRequest(m)) => {
            assert_eq!(m, "Missing query argument uuid");
        }
        _ => panic!("expected a bad request"),
    }
}

#[test]
fn extra_segment_names_first_extra_segment() {
    let rules = vec![player_rule()];
    match translate(&rules, "player/abc/extra") {
        Translation::Rejected(GatewayError::BadRequest(m)) => {
            assert_eq!(m, "Superfluous query argument extra");
        }
        _ => panic!("expected a bad request"),
    }
}

#[test]
fn empty_segments_are_dropped() {
    let rules = vec![player_rule()];
    match translate(&rules, "player//abc-123/") {
        Translation::Forward(f) => {
            assert_eq!(f.url, "https://api.example/player?uuid=abc-123");
        }
        _ => panic!("expected a forwarded translation"),
    }
}

#[test]
fn first_matching_rule_wins() {
    let rules = vec![
        Rule {
            http_path: String::from("player"),
            hypixel_path: String::from("https://api.example/first"),
            query_arguments: vec![String::from("uuid")],
        },
        Rule {
            http_path: String::from("player"),
            hypixel_path: String::from("https://api.example/second"),
            query_arguments: vec![String::from("uuid")],
        },
    ];
    match translate(&rules, "player/x") {
        Translation::Forward(f) => {
            assert_eq!(f.url, "https://api.example/first?uuid=x");
            assert_eq!(f.rule_index, 0);
        }
        _ => panic!("expected a forwarded translation"),
    }
}

#[test]
fn unmatched_path_is_no_rule() {
    let rules = vec![player_rule()];
    assert!(matches!(translate(&rules, "guild/x"), Translation::NoRule));
}

#[test]
fn bad_upstream_template_fails_translation() {
    let rules = vec![Rule {
        http_path: String::from("player"),
        hypixel_path: String::from("not a url"),
        query_arguments: vec![String::from("uuid")],
    }];
    assert!(matches!(translate(&rules, "player/x"), Translation::Failed));
}
