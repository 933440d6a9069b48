use rust_chat_server::media::{MediaStage, MediaStep, MediaTokenFlow};
use rust_chat_server::uploads::{UploadFlow, UploadStage, UploadStep, UPLOAD_WINDOW_SECS};
use rust_chat_server::auth::Claims;
use rust_chat_server::permissions::resolver::PermissionResult;
use rust_chat_server::config::{bool_setting, i64_setting, parse_bool, parse_i64, parse_u16, parse_u64, u64_setting, AppConfig, ConfigVars};
use rust_chat_server::domain::{
    channel_kind_or_default, channel_visibility_or_default, next_position, space_visibility_or_default, ChannelFeatureFlags,
    ChannelKind, ChannelVisibility, SpaceVisibility, UserStatus,
};
use rust_chat_server::error::AppError;
use rust_chat_server::files::{check_upload, classify_upload_field, download_permission, storage_key, upload_permission, check_file_owner, UploadField, UploadForm};
use rust_chat_server::invites::{accept_target, accepted_id, check_new_expiry, check_usable, find_default_role, is_usable, resolve_space_id, InviteTarget, RoleEntry, SpaceOfInvite};
use rust_chat_server::config::LiveKitConfig;
use rust_chat_server::media::{encode_media_token, media_token_request, LiveKitTokenRequest};
use rust_chat_server::media::{check_channel_kind, check_media_feature, issue_media_token, livekit_response, media_permission, media_token_outcome, plan_media_token, room_name, start_permission, MediaIntent, MediaMode};
use rust_chat_server::messages::{check_not_deleted, delete_permission, edit_permission, message_kind, read_permission, send_permission};
use rust_chat_server::pagination::{default_limit, default_offset};
use rust_chat_server::permissions::keys::PermissionKey;
use rust_chat_server::spaces::{
    audit_log_permission, check_channel_slug_free, check_not_member, check_role_deletable, check_space_slug_free,
    everyone_permissions, everyone_role_name, require_membership, role_name_after_update, AuditAction,
};
use rust_chat_server::theme::{default_theme, merged_theme_settings, requested_mode, stored_theme, SettingValue, Settings};

fn bad(r: Result<(), AppError>) -> String {
    match r {
        Err(AppError::BadRequest(m)) => m,
        other => panic!("unexpected {:?}", other),
    }
}

#[test]
fn kinds_and_visibilities() {
    for k in [ChannelKind::Text, ChannelKind::Voice, ChannelKind::Video] {
        assert_eq!(ChannelKind::parse(k.as_str()), Some(k));
    }
    assert_eq!(ChannelKind::parse("Text"), None);
    assert_eq!(ChannelKind::default(), ChannelKind::Text);
    assert_eq!(channel_kind_or_default(Some("voice")), ChannelKind::Voice);
    assert_eq!(channel_kind_or_default(Some("radio")), ChannelKind::Text);
    assert_eq!(channel_kind_or_default(None), ChannelKind::Text);
    assert_eq!(channel_visibility_or_default(Some("private")), ChannelVisibility::Private);
    assert_eq!(channel_visibility_or_default(None), ChannelVisibility::Public);
    assert_eq!(space_visibility_or_default(Some("public")), SpaceVisibility::Public);
    assert_eq!(space_visibility_or_default(Some("open")), SpaceVisibility::Private);
    assert_eq!(SpaceVisibility::default(), SpaceVisibility::Private);
    for s in [UserStatus::Pending, UserStatus::Active, UserStatus::Suspended, UserStatus::Deleted] {
        assert_eq!(UserStatus::parse(s.as_str()), Some(s));
    }
    assert_eq!(UserStatus::from_stored("banned"), UserStatus::Pending);
    assert_eq!(UserStatus::from_stored("suspended"), UserStatus::Suspended);
    let flags = ChannelFeatureFlags::default();
    assert_eq!(flags.channel_id, 0);
    assert!(flags.text_enabled && flags.file_upload_enabled && flags.threads_enabled && flags.reactions_enabled);
    assert!(!flags.voice_group_enabled && !flags.video_group_enabled);
    assert_eq!(&uuid::Uuid::from_u128(flags.id).to_string()[14..15], "7");
}

#[test]
fn channel_positions() {
    assert_eq!(next_position(None), Some(1));
    assert_eq!(next_position(Some(4)), Some(5));
    assert_eq!(next_position(Some(i32::MAX)), None);
}

#[test]
fn paging_defaults() {
    assert_eq!(default_limit(), 50);
    assert_eq!(default_offset(), 0);
}

#[test]
fn invite_validity() {
    assert!(is_usable(None, 100, None, 0));
    assert!(is_usable(Some(3), 2, Some(10), 10));
    assert!(!is_usable(Some(3), 3, None, 0));
    assert!(!is_usable(None, 0, Some(9), 10));
    assert!(matches!(check_usable(false), Err(AppError::NotFound(m)) if m == "Invalid invite code"));
    assert_eq!(check_usable(false).unwrap_err().status_code(), 404);
    assert!(check_usable(true).is_ok());
    assert_eq!(bad(check_new_expiry(Some(5), 6)), "Expiration must be in the future");
    assert!(check_new_expiry(Some(6), 6).is_ok());
    assert!(check_new_expiry(None, 6).is_ok());
}

#[test]
fn invite_targets() {
    assert!(matches!(resolve_space_id(Some(1), Some(2)), Ok(SpaceOfInvite::Known(1))));
    assert!(matches!(resolve_space_id(None, Some(2)), Ok(SpaceOfInvite::OfChannel(2))));
    assert_eq!(bad(resolve_space_id(None, None).map(|_| ())), "Invite must target a space or channel");
    assert!(matches!(accept_target(Some(1), Some(2)), Ok(InviteTarget::Space(1))));
    assert!(matches!(accept_target(None, Some(2)), Ok(InviteTarget::Channel(2))));
    assert_eq!(bad(accept_target(None, None).map(|_| ())), "Invite has no target");
    assert_eq!(accepted_id(&InviteTarget::Channel(2)), "00000000-0000-0000-0000-000000000002");
    let roles = vec![RoleEntry { id: 1, is_default: false }, RoleEntry { id: 2, is_default: true }, RoleEntry { id: 3, is_default: true }];
    assert_eq!(find_default_role(&roles), Some(2));
    assert_eq!(find_default_role(&vec![RoleEntry { id: 1, is_default: false }]), None);
}

#[test]
fn uploads() {
    assert!(check_upload(10, 10, "IMAGE/PNG").is_ok());
    assert_eq!(bad(check_upload(11, 10, "image/png")), "File too large: 11 bytes (max: 10)");
    assert_eq!(bad(check_upload(1, -5, "image/png")), "File too large: 1 bytes (max: -5)");
    assert_eq!(bad(check_upload(1, 10, "Text/HTML")), "Content type not allowed: Text/HTML");
    assert!(upload_permission(1, Some(2), None).is_none());
    let p = upload_permission(1, Some(2), Some(3)).unwrap();
    assert_eq!((p.user_id, p.permission, p.space_id, p.channel_id), (1, PermissionKey::SendFiles, Some(2), Some(3)));
    assert_eq!(download_permission(1, None, Some(3)).unwrap().permission, PermissionKey::ViewChannel);
    assert_eq!(storage_key(1, 2), "00000000-0000-0000-0000-000000000001/00000000-0000-0000-0000-000000000002");
    assert!(check_file_owner(1, 1).is_ok());
    match check_file_owner(1, 2) {
        Err(AppError::Forbidden(m)) => assert_eq!(m, "You can only delete your own files"),
        other => panic!("unexpected {:?}", other),
    }
}

#[test]
fn upload_forms() {
    assert_eq!(classify_upload_field(Some("file")), UploadField::File);
    assert_eq!(classify_upload_field(Some("space_id")), UploadField::SpaceId);
    assert_eq!(classify_upload_field(Some("channel_id")), UploadField::ChannelId);
    assert_eq!(classify_upload_field(Some("other")), UploadField::Other);
    assert_eq!(classify_upload_field(None), UploadField::Other);
    let mut form = UploadForm::new();
    assert_eq!(bad(form.check_has_data()), "No file data provided");
    form.accept_file(None, None, vec![1, 2]);
    assert_eq!(form.filename, "unknown");
    assert_eq!(form.content_type, "application/octet-stream");
    assert!(form.check_has_data().is_ok());
    assert!(form.accept_space_id("").is_ok());
    assert_eq!(form.space_id, None);
    assert!(form.accept_space_id("00000000-0000-0000-0000-000000000009").is_ok());
    assert_eq!(form.space_id, Some(9));
    assert_eq!(bad(form.accept_channel_id("zzz")), "Invalid channel_id");
    assert_eq!(bad(form.accept_space_id("zzz")), "Invalid space_id");
    assert_eq!(form.space_id, Some(9));
}

#[test]
fn message_permissions() {
    assert_eq!(send_permission(1, 2, 3).permission, PermissionKey::SendMessages);
    assert_eq!(read_permission(1, 2, 3).permission, PermissionKey::ReadMessages);
    assert_eq!(edit_permission(1, 1, 2, 3).permission, PermissionKey::EditOwnMessage);
    assert_eq!(edit_permission(5, 1, 2, 3).permission, PermissionKey::EditAnyMessage);
    assert_eq!(delete_permission(1, 1, 2, 3).permission, PermissionKey::DeleteOwnMessage);
    assert_eq!(delete_permission(5, 1, 2, 3).permission, PermissionKey::DeleteAnyMessage);
    match check_not_deleted(true) {
        Err(AppError::NotFound(m)) => assert_eq!(m, "Message not found"),
        other => panic!("unexpected {:?}", other),
    }
    assert_eq!(message_kind(None), "text");
    assert_eq!(message_kind(Some("system".into())), "system");
}

#[test]
fn media_tokens() {
    match plan_media_token(false, "voice", "join") {
        Err(AppError::ServiceUnavailable(m)) => assert_eq!(m, "LiveKit is not configured"),
        other => panic!("unexpected {:?}", other),
    }
    assert_eq!(bad(plan_media_token(true, "audio", "join").map(|_| ())), "mode must be 'voice' or 'video'");
    assert_eq!(bad(plan_media_token(true, "video", "watch").map(|_| ())), "intent must be 'join' or 'start'");
    let plan = plan_media_token(true, "video", "start").unwrap();
    assert_eq!((plan.mode, plan.intent), (MediaMode::Video, MediaIntent::Start));
    assert_eq!(media_permission(plan), PermissionKey::StartVideo);
    assert_eq!(start_permission(plan), Some(PermissionKey::StartVideo));
    let join = plan_media_token(true, "voice", "join").unwrap();
    assert_eq!(media_permission(join), PermissionKey::JoinVoice);
    assert_eq!(start_permission(join), None);
    assert_eq!(bad(check_channel_kind(join, ChannelKind::Text)), "Channel is a text channel, not a voice channel");
    assert!(check_channel_kind(join, ChannelKind::Voice).is_ok());
    let flags = ChannelFeatureFlags::default();
    match check_media_feature(join, &flags) {
        Err(AppError::Forbidden(m)) => assert_eq!(m, "voice is not enabled in this channel"),
        other => panic!("unexpected {:?}", other),
    }
    assert_eq!(room_name(1, 2), "space-00000000-0000-0000-0000-000000000001-channel-00000000-0000-0000-0000-000000000002");
    let resp = livekit_response("ws://x".into(), "r".into(), "t".into());
    assert_eq!(resp.provider, "livekit");
}

fn livekit(key: &str, secret: &str) -> LiveKitConfig {
    LiveKitConfig { enabled: true, url: "ws://localhost:7880".into(), api_key: key.into(), api_secret: secret.into() }
}

#[test]
fn media_token_issuing() {
    let ok = media_token_outcome("ws://x".into(), "room".into(), Ok("jwt".into())).unwrap();
    assert_eq!((ok.provider.as_str(), ok.url.as_str(), ok.room.as_str(), ok.token.as_str()), ("livekit", "ws://x", "room", "jwt"));
    match media_token_outcome("ws://x".into(), "room".into(), Err("boom".into())) {
        Err(AppError::InternalServerError(m)) => assert_eq!(m, "Failed to generate LiveKit token: boom"),
        other => panic!("unexpected {:?}", other),
    }
    let resp = issue_media_token(&livekit("devkey", "secret"), 7, 1, 2, true).unwrap();
    assert_eq!(resp.provider, "livekit");
    assert_eq!(resp.url, "ws://localhost:7880");
    assert_eq!(resp.room, room_name(1, 2));
    assert_eq!(resp.token.split('.').count(), 3);
    match issue_media_token(&livekit("", "secret"), 7, 1, 2, false) {
        Err(AppError::InternalServerError(m)) => assert_eq!(m, "Failed to generate LiveKit token: Invalid API Key or Secret Key"),
        other => panic!("unexpected {:?}", other),
    }
    assert!(issue_media_token(&livekit("devkey", ""), 7, 1, 2, false).is_err());
}

#[test]
fn space_and_role_rules() {
    match check_space_slug_free(true) {
        Err(AppError::Conflict(m)) => assert_eq!(m, "Space with similar name already exists"),
        other => panic!("unexpected {:?}", other),
    }
    match check_channel_slug_free(true) {
        Err(AppError::Conflict(m)) => assert_eq!(m, "Channel with similar name already exists"),
        other => panic!("unexpected {:?}", other),
    }
    match check_not_member(true) {
        Err(AppError::Conflict(m)) => assert_eq!(m, "User is already a member"),
        other => panic!("unexpected {:?}", other),
    }
    assert_eq!(everyone_role_name(), "@everyone");
    assert_eq!(everyone_permissions(), vec!["view_space", "view_channel", "read_messages"]);
    assert_eq!(bad(check_role_deletable(true)), "Cannot delete the @everyone default role");
    assert_eq!(role_name_after_update(None, "old".into()), "old");
    assert_eq!(role_name_after_update(Some("new".into()), "old".into()), "new");
    assert_eq!(require_membership(Some(4)).unwrap(), 4);
    match require_membership(None) {
        Err(AppError::NotFound(m)) => assert_eq!(m, "Membership not found"),
        other => panic!("unexpected {:?}", other),
    }
    let audit = audit_log_permission(1);
    assert_eq!((audit.permission, audit.space_id), (PermissionKey::ViewAuditLog, None));
    assert_eq!(AuditAction::ChannelCreate.as_str(), "channel_create");
}

#[test]
fn number_reading() {
    assert_eq!(parse_u64("42"), Some(42));
    assert_eq!(parse_u64("+42"), Some(42));
    assert_eq!(parse_u64("-42"), None);
    assert_eq!(parse_u64("+"), None);
    assert_eq!(parse_u64(""), None);
    assert_eq!(parse_u64("4x"), None);
    assert_eq!(parse_u64("18446744073709551615"), Some(u64::MAX));
    assert_eq!(parse_u64("18446744073709551616"), None);
    assert_eq!(parse_i64("-9223372036854775808"), Some(i64::MIN));
    assert_eq!(parse_i64("9223372036854775808"), None);
    assert_eq!(parse_i64("-5"), Some(-5));
    assert_eq!(parse_i64("-"), None);
    assert_eq!(parse_u16("8080"), Some(8080));
    assert_eq!(parse_u16("65536"), None);
    assert_eq!(parse_bool("true"), Some(true));
    assert_eq!(parse_bool("True"), None);
    for s in ["0", "+7", "-7", "x", "", "99999999999999999999"] {
        assert_eq!(parse_u64(s), s.parse::<u64>().ok(), "{}", s);
        assert_eq!(parse_i64(s), s.parse::<i64>().ok(), "{}", s);
    }
    assert_eq!(u64_setting(&Some("x".into()), 5), 5);
    assert_eq!(u64_setting(&None, 5), 5);
    assert_eq!(i64_setting(&Some("-1".into()), 900), -1);
    assert_eq!(bool_setting(&Some("yes".into()), false), false);
}

fn vars() -> ConfigVars {
    ConfigVars {
        server_host: None,
        server_port: None,
        database_url: Some("postgres://db".into()),
        redis_url: Some("redis://r".into()),
        session_secret: Some("s".into()),
        password_pepper: Some("p".into()),
        jwt_secret: Some("j".into()),
        jwt_access_ttl_seconds: None,
        jwt_refresh_ttl_seconds: Some("bad".into()),
        storage_provider: None,
        local_storage_dir: None,
        livekit_enabled: Some("true".into()),
        livekit_url: None,
        livekit_api_key: None,
        livekit_api_secret: None,
        rate_limit_login: Some("7".into()),
        rate_limit_register: None,
        rate_limit_message_send: None,
        rate_limit_file_upload: None,
        rate_limit_ws_connect: None,
    }
}

#[test]
fn configuration() {
    let c = AppConfig::from_vars(vars()).unwrap();
    assert_eq!((c.server.host.as_str(), c.server.port), ("0.0.0.0", 8080));
    assert_eq!(c.database.url, "postgres://db");
    assert_eq!((c.auth.jwt_access_ttl_seconds, c.auth.jwt_refresh_ttl_seconds), (900, 2592000));
    assert_eq!(c.storage.provider, "local");
    assert!(c.livekit.enabled);
    assert_eq!((c.livekit.url.as_str(), c.livekit.api_key.as_str(), c.livekit.api_secret.as_str()), ("ws://localhost:7880", "devkey", "secret"));
    assert_eq!((c.rate_limit.login, c.rate_limit.register, c.rate_limit.message_send, c.rate_limit.file_upload, c.rate_limit.ws_connect), (7, 5, 30, 10, 20));
    let mut v = vars();
    v.server_port = Some("http".into());
    assert_eq!(AppConfig::from_vars(v).unwrap_err(), "SERVER_PORT must be a number");
    let mut v = vars();
    v.redis_url = None;
    v.jwt_secret = None;
    assert_eq!(AppConfig::from_vars(v).unwrap_err(), "REDIS_URL must be set");
}

fn settings(pairs: &[(&str, SettingValue)]) -> Settings {
    let mut s = Settings::empty();
    for (k, v) in pairs {
        let v = match v {
            SettingValue::Text(t) => SettingValue::Text(t.clone()),
            SettingValue::Json(t) => SettingValue::Json(t.clone()),
        };
        s.insert(k.to_string(), v);
    }
    s
}

#[test]
fn themes() {
    let d = default_theme();
    assert_eq!((d.mode.as_str(), d.accent.as_str(), d.density.as_str(), d.message_display.as_str()), ("dark", "brand", "comfortable", "cozy"));
    assert_eq!(requested_mode(None), "dark");
    let existing = settings(&[("density", SettingValue::Text("compact".into())), ("font", SettingValue::Json("12".into()))]);
    let requested = settings(&[("message_display", SettingValue::Text("compact".into()))]);
    let merged = merged_theme_settings(Some(existing), None, None, Some(requested));
    let t = stored_theme("light".into(), None, &merged);
    assert_eq!((t.mode.as_str(), t.accent.as_str(), t.density.as_str(), t.message_display.as_str()), ("light", "brand", "comfortable", "compact"));
    assert_eq!(merged.get_text("font"), None);
    let odd = settings(&[("density", SettingValue::Json("3".into()))]);
    let t2 = stored_theme("dark".into(), Some("red".into()), &odd);
    assert_eq!((t2.accent.as_str(), t2.density.as_str()), ("red", "comfortable"));
}

#[test]
fn theme_update_shows_request() {
    let requested = settings(&[("density", SettingValue::Text("spacious".into()))]);
    let merged = merged_theme_settings(None, Some("compact".into()), Some("cozy".into()), Some(requested));
    let t = stored_theme("dark".into(), None, &merged);
    assert_eq!((t.density.as_str(), t.message_display.as_str()), ("spacious", "cozy"));
    let plain = merged_theme_settings(None, Some("compact".into()), None, None);
    let t = stored_theme("dark".into(), None, &plain);
    assert_eq!((t.density.as_str(), t.message_display.as_str()), ("compact", "cozy"));
}

#[test]
fn blank_profiles() {
    let p = rust_chat_server::domain::UserProfile::default();
    assert_eq!(p.user_id, 0);
    assert!(p.display_name.is_none() && p.avatar_object_id.is_none() && p.bio.is_none());
    assert!(p.settings.entries.is_empty());
    assert_eq!((p.id >> 76) & 0xf, 7);
    let f = ChannelFeatureFlags::default();
    assert_eq!((f.id >> 76) & 0xf, 7);
}

fn token_request(mode: &str, intent: &str) -> rust_chat_server::media::MediaTokenRequest {
    rust_chat_server::media::MediaTokenRequest { mode: mode.into(), intent: intent.into(), client_type: None }
}

fn caller() -> rust_chat_server::auth::AuthUser {
    rust_chat_server::auth::AuthUser {
        user_id: "00000000-0000-0000-0000-000000000007".into(),
        session_id: "00000000-0000-0000-0000-000000000008".into(),
    }
}

fn flags_with_video(on: bool) -> ChannelFeatureFlags {
    let mut f = ChannelFeatureFlags::default();
    f.video_group_enabled = on;
    f
}

fn failure(step: rust_chat_server::media::MediaStep) -> AppError {
    match step {
        rust_chat_server::media::MediaStep::Done(Err(e)) => e,
        other => panic!("unexpected {:?}", other),
    }
}

#[test]
fn media_token_flow() {
    let (_, step) = MediaTokenFlow::start(LiveKitConfig { enabled: false, ..livekit("k", "s") }, &caller(), &token_request("video", "join"), 2);
    assert!(matches!(failure(step), AppError::ServiceUnavailable(m) if m == "LiveKit is not configured"));
    let stranger = rust_chat_server::auth::AuthUser { user_id: "nobody".into(), session_id: "x".into() };
    let (_, step) = MediaTokenFlow::start(livekit("k", "s"), &stranger, &token_request("video", "join"), 2);
    assert!(matches!(failure(step), AppError::Unauthorized(_)));
    let (_, step) = MediaTokenFlow::start(livekit("k", "s"), &caller(), &token_request("audio", "join"), 2);
    assert!(matches!(failure(step), AppError::BadRequest(m) if m == "mode must be 'voice' or 'video'"));

    // Starting a video call: every fact in turn, then the token.
    let (mut flow, step) = MediaTokenFlow::start(livekit("k", "s"), &caller(), &token_request("video", "start"), 2);
    assert!(matches!(step, MediaStep::LookupChannel { channel_id: 2 }));
    assert_eq!(flow.stage(), MediaStage::AwaitChannel);
    let step = flow.on_channel(Ok((1, ChannelKind::Video)));
    assert!(matches!(step, MediaStep::LoadFeatureFlags { channel_id: 2 }));
    let step = flow.on_flags(Ok(flags_with_video(true)));
    match step {
        MediaStep::RequirePermission(q) => {
            assert_eq!((q.user_id, q.permission, q.space_id, q.channel_id), (7, PermissionKey::StartVideo, Some(1), Some(2)))
        }
        other => panic!("unexpected {:?}", other),
    }
    let step = flow.on_permission(Ok(PermissionResult::Allowed));
    match step {
        MediaStep::AskPermission(q) => assert_eq!(q.permission, PermissionKey::StartVideo),
        other => panic!("unexpected {:?}", other),
    }
    match flow.on_start_permission(Ok(true)) {
        MediaStep::Done(Ok(resp)) => {
            assert_eq!(resp.room, room_name(1, 2));
            assert_eq!(resp.url, "ws://localhost:7880");
        }
        other => panic!("unexpected {:?}", other),
    }
    assert_eq!(flow.stage(), MediaStage::Finished);

    // Refusals along the way.
    let (mut flow, _) = MediaTokenFlow::start(livekit("k", "s"), &caller(), &token_request("voice", "join"), 2);
    assert_eq!(bad(Err(failure(flow.on_channel(Ok((1, ChannelKind::Text)))))), "Channel is a text channel, not a voice channel");
    let (mut flow, _) = MediaTokenFlow::start(livekit("k", "s"), &caller(), &token_request("video", "join"), 2);
    assert!(matches!(failure(flow.on_channel(Err(AppError::NotFound("Channel not found".into())))), AppError::NotFound(_)));
    let (mut flow, _) = MediaTokenFlow::start(livekit("k", "s"), &caller(), &token_request("video", "join"), 2);
    flow.on_channel(Ok((1, ChannelKind::Video)));
    assert!(matches!(failure(flow.on_flags(Ok(flags_with_video(false)))), AppError::Forbidden(m) if m == "video is not enabled in this channel"));
    let (mut flow, _) = MediaTokenFlow::start(livekit("k", "s"), &caller(), &token_request("video", "join"), 2);
    flow.on_channel(Ok((1, ChannelKind::Video)));
    flow.on_flags(Ok(flags_with_video(true)));
    assert!(matches!(failure(flow.on_permission(Ok(PermissionResult::Denied("nope".into())))), AppError::Forbidden(m) if m == "nope"));
    let (mut flow, _) = MediaTokenFlow::start(livekit("", "s"), &caller(), &token_request("video", "join"), 2);
    flow.on_channel(Ok((1, ChannelKind::Video)));
    flow.on_flags(Ok(flags_with_video(true)));
    assert!(matches!(failure(flow.on_permission(Ok(PermissionResult::Allowed))), AppError::InternalServerError(_)));
}

fn upload_failure(step: UploadStep) -> AppError {
    match step {
        UploadStep::Done(Err(e)) => e,
        other => panic!("unexpected {:?}", other),
    }
}

fn claims_of(sub: &str) -> Claims {
    Claims { sub: sub.into(), session_id: "s".into(), exp: 0, iat: 0 }
}

fn png_form(channel: Option<u128>, bytes: usize) -> UploadForm {
    let mut f = UploadForm::new();
    f.accept_file(Some("a.png"), Some("image/png"), vec![1u8; bytes]);
    if let Some(c) = channel {
        f.accept_channel_id(&format!("00000000-0000-0000-0000-{:012x}", c)).unwrap();
    }
    f
}

/// Runs an upload up to the form, with the request counted `count`.
fn upload_at_form(count: u64) -> UploadFlow {
    let (mut flow, _) = UploadFlow::start(Some("Bearer tok"), 5, 100);
    flow.on_claims(Ok(claims_of("00000000-0000-0000-0000-000000000007")));
    let step = flow.on_count(Ok(count));
    assert!(matches!(step, UploadStep::ReadForm));
    flow
}

#[test]
fn upload_flow() {
    // The header must carry a bearer token.
    for header in [None, Some("Basic abc")] {
        let (flow, step) = UploadFlow::start(header, 5, 100);
        assert!(matches!(upload_failure(step), AppError::Unauthorized(m) if m == "Missing authorization header"));
        assert_eq!(flow.stage(), UploadStage::Finished);
    }

    // A whole upload into a channel.
    let (mut flow, step) = UploadFlow::start(Some("Bearer tok"), 5, 100);
    assert!(matches!(step, UploadStep::VerifyToken { ref token } if token == "tok"));
    assert_eq!(flow.stage(), UploadStage::AwaitClaims);
    let step = flow.on_claims(Ok(claims_of("00000000-0000-0000-0000-000000000007")));
    assert!(matches!(step, UploadStep::CountRequest { ref key, window_secs }
        if key == "ratelimit:upload:00000000-0000-0000-0000-000000000007" && window_secs == UPLOAD_WINDOW_SECS));
    let step = flow.on_count(Ok(1));
    assert!(matches!(step, UploadStep::ExpireWindow { ref key, window_secs: 60 }
        if key == "ratelimit:upload:00000000-0000-0000-0000-000000000007"));
    assert_eq!(flow.stage(), UploadStage::AwaitExpiry);
    assert!(matches!(flow.on_expired(), UploadStep::ReadForm));
    match flow.on_form(Ok(png_form(Some(2), 10))) {
        UploadStep::RequirePermission(q) => {
            assert_eq!((q.user_id, q.permission, q.space_id, q.channel_id), (7, PermissionKey::SendFiles, None, Some(2)))
        }
        other => panic!("unexpected {:?}", other),
    }
    let key = match flow.on_permission(Ok(PermissionResult::Allowed)) {
        UploadStep::StoreFile { key, content_type, data } => {
            assert_eq!(content_type, "image/png");
            assert_eq!(data, vec![1u8; 10]);
            assert!(key.starts_with("00000000-0000-0000-0000-000000000007/"));
            assert_eq!(key.len(), 73);
            key
        }
        other => panic!("unexpected {:?}", other),
    };
    match flow.on_stored(Ok(())) {
        UploadStep::CreateRecord(rec) => {
            assert_eq!((rec.uploader_user_id, rec.space_id, rec.channel_id, rec.size_bytes), (7, None, Some(2), 10));
            assert_eq!((rec.filename.as_str(), rec.content_type.as_str()), ("a.png", "image/png"));
            assert_eq!(rec.storage_key, key);
        }
        other => panic!("unexpected {:?}", other),
    }
    assert!(matches!(flow.on_record(Ok(42)), UploadStep::LogUpload { user_id: 7, space_id: None, channel_id: Some(2) }));
    assert!(matches!(flow.on_logged(Ok(())), UploadStep::LookupFile { file_id: 42 }));
    match flow.on_file(Ok((None, Some(2), key.clone()))) {
        UploadStep::AskPermission(q) => assert_eq!((q.user_id, q.permission, q.channel_id), (7, PermissionKey::ViewChannel, Some(2))),
        other => panic!("unexpected {:?}", other),
    }
    assert!(matches!(flow.on_view(Ok(false)), UploadStep::DownloadUrl { key: ref k } if *k == key));
    assert!(matches!(flow.on_url(Ok("/files/x".into())), UploadStep::Done(Ok(ref u)) if u == "/files/x"));
    assert_eq!(flow.stage(), UploadStage::Finished);
}

#[test]
fn upload_flow_refusals() {
    // Claims that do not name a user by a UUID.
    let (mut flow, _) = UploadFlow::start(Some("Bearer tok"), 5, 100);
    assert!(matches!(upload_failure(flow.on_claims(Ok(claims_of("bob")))), AppError::Unauthorized(m) if m == "Invalid user"));

    // The request beyond the limit, and the first one of a window when the limit is zero.
    let (mut flow, _) = UploadFlow::start(Some("Bearer tok"), 5, 100);
    flow.on_claims(Ok(claims_of("00000000-0000-0000-0000-000000000007")));
    assert!(matches!(upload_failure(flow.on_count(Ok(6))), AppError::TooManyRequests(m, 60)
        if m == "Rate limit exceeded. Try again in 60 seconds."));
    let (mut flow, _) = UploadFlow::start(Some("Bearer tok"), 0, 100);
    flow.on_claims(Ok(claims_of("00000000-0000-0000-0000-000000000007")));
    assert!(matches!(flow.on_count(Ok(1)), UploadStep::ExpireWindow { .. }));
    assert!(matches!(upload_failure(flow.on_expired()), AppError::TooManyRequests(..)));

    // The form: empty, too large, of a refused type.
    let mut flow = upload_at_form(2);
    assert_eq!(bad(Err(upload_failure(flow.on_form(Ok(UploadForm::new()))))), "No file data provided");
    let mut flow = upload_at_form(2);
    assert_eq!(bad(Err(upload_failure(flow.on_form(Ok(png_form(None, 101)))))), "File too large: 101 bytes (max: 100)");
    let mut flow = upload_at_form(2);
    let mut form = UploadForm::new();
    form.accept_file(None, None, vec![1]);
    assert_eq!(bad(Err(upload_failure(flow.on_form(Ok(form))))), "Content type not allowed: application/octet-stream");

    // A file for no channel is stored at once; a denial and a failed store end the upload.
    let mut flow = upload_at_form(2);
    assert!(matches!(flow.on_form(Ok(png_form(None, 3))), UploadStep::StoreFile { .. }));
    assert!(matches!(upload_failure(flow.on_stored(Err("disk full".into()))), AppError::InternalServerError(m) if m == "disk full"));
    let mut flow = upload_at_form(2);
    flow.on_form(Ok(png_form(Some(2), 3)));
    assert!(matches!(upload_failure(flow.on_permission(Ok(PermissionResult::Denied("no files".into())))), AppError::Forbidden(m) if m == "no files"));
}

#[test]
fn media_token_requests() {
    let q = media_token_request(&livekit("devkey", "secret"), 7, 1, 2, true);
    assert_eq!((q.api_key.as_str(), q.api_secret.as_str()), ("devkey", "secret"));
    assert_eq!(q.identity, "00000000-0000-0000-0000-000000000007");
    assert_eq!(q.room, room_name(1, 2));
    assert!(q.room_join && q.can_publish && q.can_subscribe && q.room_admin);
    assert_eq!(q.ttl_secs, 300);
    assert!(!media_token_request(&livekit("devkey", "secret"), 7, 1, 2, false).room_admin);
    let url = String::from("ws://x");
    let resp = encode_media_token(&url, &q).unwrap();
    assert_eq!((resp.url.as_str(), resp.room.as_str()), ("ws://x", q.room.as_str()));
    // An empty identity with a room to join is refused by the encoder.
    let anonymous = LiveKitTokenRequest { identity: String::new(), ..media_token_request(&livekit("k", "s"), 7, 1, 2, false) };
    assert!(matches!(encode_media_token(&url, &anonymous), Err(AppError::InternalServerError(_))));
}

fn base64url_bytes(text: &str) -> Vec<u8> {
    let alphabet = "ABCDEFGHIJKLMNOPQRSTUVWXYZabcdefghijklmnopqrstuvwxyz0123456789-_";
    let (mut bits, mut count, mut out): (u32, u32, Vec<u8>) = (0, 0, Vec::new());
    for c in text.chars() {
        bits = (bits << 6) | alphabet.find(c).unwrap() as u32;
        count += 6;
        if count >= 8 {
            count -= 8;
            out.push((bits >> count) as u8);
            bits &= (1 << count) - 1;
        }
    }
    out
}

#[test]
fn media_token_claims() {
    for admin in [true, false] {
        let resp = issue_media_token(&livekit("devkey", "secret"), 7, 1, 2, admin).unwrap();
        let payload = base64url_bytes(resp.token.split('.').nth(1).unwrap());
        let claims: serde_json::Value = serde_json::from_slice(&payload).unwrap();
        assert_eq!(claims["iss"], "devkey");
        assert_eq!(claims["sub"], "00000000-0000-0000-0000-000000000007");
        assert_eq!(claims["video"]["room"].as_str().unwrap(), room_name(1, 2));
        assert_eq!(claims["video"]["roomJoin"], true);
        assert_eq!(claims["video"]["canPublish"], true);
        assert_eq!(claims["video"]["canSubscribe"], true);
        assert_eq!(claims["video"]["roomAdmin"].as_bool().unwrap_or(false), admin);
        let (nbf, exp) = (claims["nbf"].as_u64().unwrap(), claims["exp"].as_u64().unwrap());
        assert!(exp >= nbf + 300 && exp <= nbf + 302);
    }
}
