use rust_chat_server::error::AppError;
use rust_chat_server::ids::{uuid_to_simple_string, uuid_to_string};
use rust_chat_server::invites::{generate_code, hash_code};
use rust_chat_server::rate_limit::{decide, login_key, message_key, upload_key};
use rust_chat_server::slug::{channel_slug, generate_slug, slugify, space_slug};
use rust_chat_server::permissions::service::all_permission_keys;
use rust_chat_server::sql::{channel_update_sql, feature_flags_update_sql, space_update_sql};
use rust_chat_server::text::{str_equal, u64_to_decimal};

const SAMPLE: u128 = 0x67e5_5044_10b1_426f_9247_bb68_0e5f_e0c8;

#[test]
fn uuid_text_forms() {
    assert_eq!(uuid_to_string(SAMPLE), "67e55044-10b1-426f-9247-bb680e5fe0c8");
    assert_eq!(uuid_to_simple_string(SAMPLE), "67e5504410b1426f9247bb680e5fe0c8");
    assert_eq!(uuid_to_string(0), "00000000-0000-0000-0000-000000000000");
    assert_eq!(uuid_to_string(SAMPLE), uuid::Uuid::from_u128(SAMPLE).to_string());
    assert_eq!(uuid_to_simple_string(SAMPLE), uuid::Uuid::from_u128(SAMPLE).simple().to_string());
}

#[test]
fn decimal_text() {
    assert_eq!(u64_to_decimal(0), "0");
    assert_eq!(u64_to_decimal(60), "60");
    assert_eq!(u64_to_decimal(u64::MAX), "18446744073709551615");
    assert!(str_equal("abc", "abc"));
    assert!(!str_equal("abc", "abd"));
    assert!(!str_equal("abc", "ab"));
}

#[test]
fn rate_limit_keys() {
    assert_eq!(login_key("10.0.0.1"), "ratelimit:login:10.0.0.1");
    assert_eq!(message_key("u1"), "ratelimit:message:u1");
    assert_eq!(upload_key("u2"), "ratelimit:upload:u2");
}

#[test]
fn rate_limit_decisions() {
    let first = decide(1, 5, 60);
    assert!(first.start_window);
    assert!(first.outcome.is_ok());
    let fifth = decide(5, 5, 60);
    assert!(!fifth.start_window);
    assert!(fifth.outcome.is_ok());
    let sixth = decide(6, 5, 60);
    assert!(!sixth.start_window);
    match sixth.outcome {
        Err(AppError::TooManyRequests(m, secs)) => {
            assert_eq!(m, "Rate limit exceeded. Try again in 60 seconds.");
            assert_eq!(secs, 60);
        }
        other => panic!("unexpected {:?}", other),
    }
    let zero_max = decide(1, 0, 30);
    assert!(zero_max.start_window);
    assert!(zero_max.outcome.is_err());
}

#[test]
fn invite_code_hash_is_sha256_hex() {
    assert_eq!(hash_code("abc"), "ba7816bf8f01cfea414140de5dae2223b00361a396177a9cb410ff61f20015ad");
    assert_eq!(hash_code(""), "e3b0c44298fc1c149afbf4c8996fb92427ae41e4649b934ca495991b7852b855");
}

#[test]
fn invite_codes_are_compact_v4_uuids() {
    let c = generate_code();
    assert_eq!(c.len(), 32);
    assert!(c.chars().all(|ch| ch.is_ascii_hexdigit() && !ch.is_ascii_uppercase()));
    assert_eq!(&c[12..13], "4");
    assert_ne!(generate_code(), c);
}

#[test]
fn slugs() {
    assert_eq!(slugify("hello world!"), "hello-world");
    assert_eq!(slugify("--a--b--"), "a--b");
    assert_eq!(slugify("----"), "");
    assert_eq!(slugify(""), "");
    assert_eq!(space_slug("My Space"), "my-space");
    assert_eq!(channel_slug("  General Chat  "), "general-chat");
    assert_eq!(space_slug("Ünïcode Ok"), "ünïcode-ok");
    let fallback = space_slug("!!!");
    assert!(fallback.starts_with("space-"));
    assert_eq!(fallback.len(), "space-".len() + 8);
    assert!(fallback["space-".len()..].chars().all(|c| c.is_ascii_hexdigit()));
    let cf = channel_slug("  ");
    assert!(cf.starts_with("channel-"));
    assert_eq!(cf.len(), "channel-".len() + 8);
}

#[test]
fn update_statements() {
    assert_eq!(channel_update_sql(false, false, false), None);
    assert_eq!(
        channel_update_sql(true, false, true).unwrap(),
        "UPDATE channels SET name = $1, visibility = $2, updated_at = $3 WHERE id = $4 RETURNING id, space_id, parent_id, name, slug, kind, visibility, position, topic, created_by, archived_at, created_at, updated_at"
    );
    assert_eq!(
        space_update_sql(false, true, false).unwrap(),
        "UPDATE spaces SET description = $1, updated_at = $2 WHERE id = $3 RETURNING id, name, slug, description, icon_object_id, created_by, visibility, settings, created_at, updated_at"
    );
    assert_eq!(feature_flags_update_sql(false, false, false, false, false, false), None);
    assert_eq!(
        feature_flags_update_sql(true, false, false, true, false, true).unwrap(),
        "UPDATE channel_feature_flags SET text_enabled = $1, video_group_enabled = $2, reactions_enabled = $3 WHERE channel_id = $4 RETURNING id, channel_id, text_enabled, file_upload_enabled, voice_group_enabled, video_group_enabled, threads_enabled, reactions_enabled"
    );
}

#[test]
fn error_answers() {
    let cases: Vec<(AppError, u16, &str)> = vec![
        (AppError::NotFound("x".into()), 404, "Not found: x"),
        (AppError::Unauthorized("x".into()), 401, "Unauthorized: x"),
        (AppError::BadRequest("x".into()), 400, "Bad request: x"),
        (AppError::Conflict("x".into()), 409, "Conflict: x"),
        (AppError::Forbidden("x".into()), 403, "Forbidden: x"),
        (AppError::InternalServerError("x".into()), 500, "Internal server error: x"),
        (AppError::ServiceUnavailable("x".into()), 503, "Service unavailable: x"),
        (AppError::TooManyRequests("x".into(), 7), 429, "Too many requests: x"),
    ];
    for (e, code, text) in cases {
        assert_eq!(e.status_code(), code);
        assert_eq!(e.to_display_string(), text);
        assert_eq!(e.message(), "x");
        if code == 429 {
            assert_eq!(e.retry_after(), Some(7));
            assert_eq!(e.retry_after_header().as_deref(), Some("7"));
        } else {
            assert_eq!(e.retry_after(), None);
            assert_eq!(e.retry_after_header(), None);
        }
    }
}

#[test]
fn slugs_of_ascii_names() {
    assert_eq!(generate_slug("General Chat!", "channel"), "general-chat");
    assert_eq!(generate_slug("a  b", "channel"), "a--b");
    assert_eq!(generate_slug("--Dev_Ops--", "channel"), "dev-ops");
    assert_eq!(generate_slug("Room 42", "channel"), "room-42");
}

#[test]
fn permission_names_are_snake_case_and_distinct() {
    let keys = all_permission_keys();
    assert_eq!(keys.len(), 33);
    let mut names: Vec<&str> = keys.iter().map(|k| k.as_str()).collect();
    for n in &names {
        assert!(!n.is_empty());
        assert!(n.chars().all(|c| c.is_ascii_lowercase() || c == '_'));
    }
    names.sort();
    names.dedup();
    assert_eq!(names.len(), 33);
}
