use index_admin::client::{
    decode_error_body, decode_page_body, interpret_fetch_response, interpret_validate_response,
    pending_mods_path, require_token, validate_path, validated_body, IndexError,
};
use index_admin::messages::get_random_message;
use index_admin::model::{Dependency, Incompatibility, PlatformTargets, Submission, Version};
use index_admin::render::{render_menu, u64_to_string};

const PAGE_BODY: &str = "{\"payload\":{\"count\":3,\"data\":[{\"id\":\"test.mod\",\"repository\":\"https://example.com/repo\",\"versions\":[{\"name\":\"Test Mod\",\"version\":\"1.0.0\",\"description\":null,\"geode\":\"2.0.0\",\"early_load\":false,\"api\":true,\"gd\":{\"win\":\"2.204\",\"mac\":null},\"dependencies\":[{\"mod_id\":\"dep.mod\",\"version\":\">=1.0.0\",\"importance\":\"required\"}]}],\"tags\":[\"gameplay\",\"utils\"],\"about\":\"A mod.\",\"changelog\":null}]}}";

#[test]
fn fetch_success_decodes_the_whole_envelope() {
    let page = match interpret_fetch_response(200, PAGE_BODY) {
        Ok(p) => p,
        Err(e) => panic!("fetch failed: {}", e.message()),
    };
    assert_eq!(page.count, 3);
    assert_eq!(page.data.len(), 1);
    let sub = &page.data[0];
    assert_eq!(sub.id, "test.mod");
    assert_eq!(sub.repository.as_deref(), Some("https://example.com/repo"));
    assert_eq!(sub.tags, vec!["gameplay".to_string(), "utils".to_string()]);
    assert_eq!(sub.about.as_deref(), Some("A mod."));
    assert_eq!(sub.changelog, None);
    assert_eq!(sub.versions.len(), 1);
    let v = &sub.versions[0];
    assert_eq!(v.name, "Test Mod");
    assert_eq!(v.version, "1.0.0");
    assert_eq!(v.description, None);
    assert_eq!(v.geode, "2.0.0");
    assert!(!v.early_load);
    assert!(v.api);
    assert_eq!(v.gd.win.as_deref(), Some("2.204"));
    assert_eq!(v.gd.mac, None);
    assert_eq!(v.gd.ios, None);
    let deps = v.dependencies.as_ref().expect("dependencies decoded");
    assert_eq!(deps.len(), 1);
    assert_eq!(deps[0].mod_id, "dep.mod");
    assert_eq!(deps[0].version, ">=1.0.0");
    assert_eq!(deps[0].importance, "required");
    assert!(v.incompatibilities.is_none());
}

#[test]
fn fetch_401_reports_the_envelope_message_verbatim() {
    let outcome = interpret_fetch_response(401, "{\"error\":\"bad token\"}");
    match outcome {
        Err(e) => {
            assert_eq!(e, IndexError::Server("bad token".to_string()));
            assert_eq!(e.message(), "bad token");
        }
        Ok(_) => panic!("a 401 fetch succeeded"),
    }
}

#[test]
fn fetch_failure_without_an_envelope_is_the_generic_bad_response() {
    let outcome = interpret_fetch_response(500, "gateway exploded");
    match outcome {
        Err(e) => {
            assert_eq!(e, IndexError::BadResponse);
            assert_eq!(e.message(), "Bad response from Geode Index");
        }
        Ok(_) => panic!("a 500 fetch succeeded"),
    }
}

#[test]
fn fetch_success_with_a_bad_body_is_a_decode_failure() {
    let outcome = interpret_fetch_response(200, "{\"payload\":{\"count\":\"three\"}}");
    match outcome {
        Err(e) => {
            assert_eq!(e, IndexError::Decode);
            assert_eq!(e.message(), "Failed to parse response from the Geode Index");
        }
        Ok(_) => panic!("a malformed body decoded"),
    }
    assert!(interpret_fetch_response(200, "not json at all").is_err());
    assert!(interpret_fetch_response(200, "{\"payload\":{\"count\":-1,\"data\":[]}}").is_err());
}

#[test]
fn validate_succeeds_only_on_204_and_touches_nothing() {
    assert_eq!(interpret_validate_response(204, ""), Ok(()));
    let refused = interpret_validate_response(400, "{\"error\":\"not pending\"}");
    assert_eq!(refused, Err(IndexError::Server("not pending".to_string())));
    let opaque = interpret_validate_response(400, "<html>");
    assert_eq!(opaque, Err(IndexError::BadResponse));
}

#[test]
fn error_envelopes_decode_only_when_shaped_right() {
    assert_eq!(
        decode_error_body("{\"error\":\"bad token\"}"),
        Some("bad token".to_string())
    );
    assert_eq!(decode_error_body("{\"error\":17}"), None);
    assert_eq!(decode_error_body("{}"), None);
    assert_eq!(decode_error_body("nope"), None);
}

#[test]
fn page_bodies_with_a_missing_payload_fail_to_decode() {
    assert_eq!(decode_page_body("{}").map(|p| p.count), None);
    let empty = decode_page_body("{\"payload\":{\"count\":0,\"data\":[]}}");
    let page = empty.expect("an empty listing decodes");
    assert_eq!(page.count, 0);
    assert_eq!(page.data.len(), 0);
}

#[test]
fn the_page_submission_is_reached_through_a_checked_accessor() {
    let page = interpret_fetch_response(200, PAGE_BODY).expect("fetch decodes");
    let sub = page.first_submission().expect("the page carries one submission");
    assert_eq!(sub.id, "test.mod");
    let empty = decode_page_body("{\"payload\":{\"count\":0,\"data\":[]}}").expect("decodes");
    assert!(empty.first_submission().is_none());
}

#[test]
fn a_wrongly_typed_field_fails_the_whole_decode() {
    let body = "{\"payload\":{\"count\":1,\"data\":[{\"id\":7,\"versions\":[],\"tags\":[]}]}}";
    assert!(matches!(
        interpret_fetch_response(200, body),
        Err(IndexError::Decode)
    ));
    let body2 = "{\"payload\":{\"count\":1,\"data\":[{\"id\":\"a.mod\",\"repository\":42,\"versions\":[],\"tags\":[]}]}}";
    assert!(matches!(
        interpret_fetch_response(200, body2),
        Err(IndexError::Decode)
    ));
}

#[test]
fn token_is_demanded_before_any_network_call() {
    assert_eq!(require_token(&None), Err(IndexError::NotLoggedIn));
    assert_eq!(
        require_token(&Some("abc".to_string())),
        Ok("abc".to_string())
    );
}

#[test]
fn request_paths_and_body_are_built_exactly() {
    assert_eq!(
        pending_mods_path(3),
        "v1/mods?pending_validation=true&page=3&per_page=1"
    );
    assert_eq!(
        pending_mods_path(12),
        "v1/mods?pending_validation=true&page=12&per_page=1"
    );
    assert_eq!(
        validate_path("test.mod", "1.1.0"),
        "v1/mods/test.mod/versions/1.1.0"
    );
    assert_eq!(validated_body(), "{\"validated\":true}");
}

#[test]
fn transport_failures_carry_their_cause() {
    let e = IndexError::Transport("connection refused".to_string());
    assert_eq!(
        e.message(),
        "Failed to connect to the Geode Index: connection refused"
    );
}

#[test]
fn decimal_rendering_is_exact() {
    assert_eq!(u64_to_string(0), "0");
    assert_eq!(u64_to_string(7), "7");
    assert_eq!(u64_to_string(10), "10");
    assert_eq!(u64_to_string(123456789), "123456789");
}

#[test]
fn the_menu_shows_the_cursor_over_the_total() {
    let menu = render_menu(2, 3);
    let expected = "---------------------\nSubmission 2/3\n---------------------\nCommands:\n  - n: Next submission\n  - p: Previous submission\n  - <INDEX>: Go to submission\n  - v: Validate mod\n  - r: Reject mod\n  - q: Quit\n---------------------\n";
    assert_eq!(menu, expected);
}

#[test]
fn a_full_submission_renders_field_for_field() {
    let sub = Submission {
        id: "test.mod".to_string(),
        repository: Some("https://example.com/repo".to_string()),
        versions: vec![Version {
            name: "Test Mod".to_string(),
            version: "1.0.0".to_string(),
            description: None,
            geode: "2.0.0".to_string(),
            early_load: false,
            api: true,
            gd: PlatformTargets {
                win: Some("2.204".to_string()),
                mac: None,
                android32: None,
                android64: None,
                ios: None,
            },
            dependencies: Some(vec![Dependency {
                mod_id: "dep.mod".to_string(),
                version: ">=1.0.0".to_string(),
                importance: "required".to_string(),
            }]),
            incompatibilities: Some(vec![Incompatibility {
                mod_id: "bad.mod".to_string(),
                version: "*".to_string(),
                importance: "breaking".to_string(),
            }]),
        }],
        tags: vec!["gameplay".to_string(), "utils".to_string()],
        about: Some("A mod.".to_string()),
        changelog: Some("never shown".to_string()),
    };
    let expected = "test.mod\n- Repository: https://example.com/repo\n- Tags: gameplay, utils\n- About\n----------------------------\nA mod.\n----------------------------\n- Versions:\n1. 1.0.0\n  - Name: Test Mod\n  - Description: None\n  - Geode: 2.0.0\n  - Early Load: false\n  - API: true\n  - GD:\n    - Win: 2.204\n    - Mac: None\n    - Android 32: None\n    - Android 64: None\n    - iOS: None\n  - Dependencies:\n    1. dep.mod\n      - Version: >=1.0.0\n      - Importance: required\n  - Incompatibilities:\n    1. bad.mod\n      - Version: *\n      - Importance: breaking\n";
    assert_eq!(sub.render(), expected);
    assert!(!sub.render().contains("never shown"));
}

#[test]
fn absent_fields_render_as_none_and_lists_count_from_one() {
    let sub = Submission {
        id: "bare.mod".to_string(),
        repository: None,
        versions: vec![
            Version {
                name: "Bare".to_string(),
                version: "0.1.0".to_string(),
                description: Some("first".to_string()),
                geode: "1.0.0".to_string(),
                early_load: true,
                api: false,
                gd: PlatformTargets {
                    win: None,
                    mac: None,
                    android32: None,
                    android64: None,
                    ios: None,
                },
                dependencies: None,
                incompatibilities: None,
            },
            Version {
                name: "Bare".to_string(),
                version: "0.2.0".to_string(),
                description: None,
                geode: "1.0.0".to_string(),
                early_load: false,
                api: false,
                gd: PlatformTargets {
                    win: None,
                    mac: None,
                    android32: None,
                    android64: None,
                    ios: None,
                },
                dependencies: None,
                incompatibilities: None,
            },
        ],
        tags: vec![],
        about: None,
        changelog: None,
    };
    let rendered = sub.render();
    assert!(rendered.starts_with("bare.mod\n- Repository: None\n- Tags: \n- About\n"));
    assert!(rendered.contains("\nNone\n"));
    assert!(rendered.contains("\n1. 0.1.0\n"));
    assert!(rendered.contains("\n  - Early Load: true\n"));
    assert!(rendered.contains("\n2. 0.2.0\n"));
    assert!(!rendered.contains("Dependencies"));
}

#[test]
fn the_random_message_is_always_one_of_the_ten() {
    let known = [
        "[BUZZER]",
        "Your princess is in another castle",
        "Absolutely not",
        "Get lost",
        "Sucks to be you",
        "No admin, laugh at this user",
        "Admin dashboard",
        "Why are we here? Just to suffer?",
        "You hacked the mainframe! Congrats.",
        "You're an admin, Harry",
    ];
    for _ in 0..50 {
        let m = get_random_message();
        assert!(known.contains(&m.as_str()), "unexpected message: {}", m);
    }
}
