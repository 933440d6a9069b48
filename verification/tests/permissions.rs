use rust_chat_server::permissions::check::{CheckAnswer, CheckQuery, CheckStage, CheckStep, PermissionCheck};
use rust_chat_server::permissions::keys::PermissionKey;
use rust_chat_server::permissions::repository::{ChannelFeatureFlags, ChannelOverride, RolePermission};
use rust_chat_server::permissions::resolver::{
    check_layer1_hoster_bypass, check_layer2_membership, check_layer3_role_permissions,
    check_layer4_channel_override, check_layer5_feature_flags, PermissionResult,
};
use rust_chat_server::permissions::service::{all_permission_keys, any_allowed, collect_allowed_names, require_allowed};
use rust_chat_server::error::AppError;

const USER: u128 = 0x1111;
const HOST: u128 = 0x9999;
const SPACE: u128 = 0x2222;
const CHANNEL: u128 = 0x3333;
const ROLE: u128 = 0x4444;

fn rp(key: &str, allowed: bool) -> RolePermission {
    RolePermission { role_id: ROLE, permission_key: key.to_string(), allowed }
}

fn ov(key: &str, denied: bool) -> ChannelOverride {
    ChannelOverride { channel_id: CHANNEL, role_id: ROLE, permission_key: key.to_string(), denied }
}

struct Db {
    host: Option<u128>,
    member: bool,
    role_ids: Vec<u128>,
    role_permissions: Vec<RolePermission>,
    overrides: Vec<ChannelOverride>,
    flags: ChannelFeatureFlags,
}

fn clone_rps(v: &[RolePermission]) -> Vec<RolePermission> {
    v.iter().map(|r| RolePermission { role_id: r.role_id, permission_key: r.permission_key.clone(), allowed: r.allowed }).collect()
}

fn clone_ovs(v: &[ChannelOverride]) -> Vec<ChannelOverride> {
    v.iter()
        .map(|o| ChannelOverride { channel_id: o.channel_id, role_id: o.role_id, permission_key: o.permission_key.clone(), denied: o.denied })
        .collect()
}

fn run(db: &Db, user: u128, k: PermissionKey, space: Option<u128>, channel: Option<u128>) -> (PermissionResult, usize) {
    let (mut check, mut step) = PermissionCheck::start(user, k, space, channel);
    let mut asked = 0;
    loop {
        match step {
            CheckStep::Decided(r) => {
                assert_eq!(check.stage(), CheckStage::Finished);
                return (r, asked);
            }
            CheckStep::Ask(q) => {
                asked += 1;
                let answer = match q {
                    CheckQuery::HostUserId => CheckAnswer::HostUserId(db.host),
                    CheckQuery::IsSpaceMember { space_id, user_id } => {
                        assert_eq!(Some(space_id), space);
                        assert_eq!(user_id, user);
                        CheckAnswer::IsSpaceMember(db.member)
                    }
                    CheckQuery::RoleIdsForUser { .. } => CheckAnswer::RoleIds(db.role_ids.clone()),
                    CheckQuery::RolePermissions { role_ids } => {
                        assert_eq!(role_ids, db.role_ids);
                        CheckAnswer::RolePermissions(clone_rps(&db.role_permissions))
                    }
                    CheckQuery::ChannelOverrides { channel_id, .. } => {
                        assert_eq!(Some(channel_id), channel);
                        CheckAnswer::ChannelOverrides(clone_ovs(&db.overrides))
                    }
                    CheckQuery::ChannelFeatureFlags { channel_id } => {
                        assert_eq!(Some(channel_id), channel);
                        CheckAnswer::ChannelFeatureFlags(db.flags)
                    }
                };
                assert!(check.awaits(&answer));
                step = check.answer(answer);
            }
        }
    }
}

fn member_db(perms: Vec<RolePermission>) -> Db {
    Db {
        host: Some(HOST),
        member: true,
        role_ids: vec![ROLE],
        role_permissions: perms,
        overrides: vec![],
        flags: ChannelFeatureFlags::default(),
    }
}

fn denied_with(r: &PermissionResult) -> Option<String> {
    r.reason().map(|s| s.to_string())
}

#[test]
fn permission_key_names() {
    assert_eq!(PermissionKey::ManageInstance.as_str(), "manage_instance");
    assert_eq!(PermissionKey::ViewAuditLog.as_str(), "view_audit_log");
    assert_eq!(PermissionKey::ShareScreen.as_str(), "share_screen");
    assert_eq!(PermissionKey::UseWebhooks.as_str(), "use_webhooks");
    let keys = all_permission_keys();
    assert_eq!(keys.len(), 33);
    let mut names: Vec<&str> = keys.iter().map(|k| k.as_str()).collect();
    names.sort();
    names.dedup();
    assert_eq!(names.len(), 33);
}

#[test]
fn permission_result_accessors() {
    assert!(PermissionResult::Allowed.is_allowed());
    assert_eq!(PermissionResult::Allowed.reason(), None);
    let d = PermissionResult::Denied("nope".to_string());
    assert!(!d.is_allowed());
    assert_eq!(d.reason(), Some("nope"));
}

#[test]
fn layers_one_and_two() {
    assert!(check_layer1_hoster_bypass(USER, Some(USER)).unwrap().is_allowed());
    assert!(check_layer1_hoster_bypass(USER, Some(HOST)).is_none());
    assert!(check_layer1_hoster_bypass(USER, None).is_none());
    assert!(check_layer2_membership(true).is_none());
    assert_eq!(denied_with(&check_layer2_membership(false).unwrap()).as_deref(), Some("Not a member of this space"));
}

#[test]
fn layer_three_roles() {
    assert_eq!(denied_with(&check_layer3_role_permissions(&vec![], "send_messages").unwrap()).as_deref(), Some("No roles assigned"));
    let allow = vec![rp("send_messages", false), rp("send_messages", true)];
    assert!(check_layer3_role_permissions(&allow, "send_messages").unwrap().is_allowed());
    let deny = vec![rp("send_messages", false), rp("read_messages", true)];
    assert_eq!(
        denied_with(&check_layer3_role_permissions(&deny, "send_messages").unwrap()).as_deref(),
        Some("Permission explicitly denied by role")
    );
    assert!(check_layer3_role_permissions(&deny, "pin_messages").is_none());
}

#[test]
fn layer_four_first_override_decides() {
    let ovs = vec![ov("read_messages", true), ov("send_messages", false), ov("send_messages", true)];
    assert!(check_layer4_channel_override(&ovs, "send_messages").unwrap().is_allowed());
    assert_eq!(
        denied_with(&check_layer4_channel_override(&ovs, "read_messages").unwrap()).as_deref(),
        Some("Permission denied by channel override")
    );
    assert!(check_layer4_channel_override(&ovs, "pin_messages").is_none());
}

#[test]
fn layer_five_features() {
    let flags = ChannelFeatureFlags::default();
    assert!(flags.text_enabled && flags.send_file_enabled && !flags.voice_group_enabled && !flags.video_group_enabled);
    assert!(check_layer5_feature_flags(&flags, PermissionKey::SendMessages).is_none());
    assert_eq!(
        denied_with(&check_layer5_feature_flags(&flags, PermissionKey::StartVoice).unwrap()).as_deref(),
        Some("Feature not enabled for this channel: start_voice")
    );
    assert_eq!(
        denied_with(&check_layer5_feature_flags(&flags, PermissionKey::ShareScreen).unwrap()).as_deref(),
        Some("Feature not enabled for this channel: share_screen")
    );
    assert!(check_layer5_feature_flags(&flags, PermissionKey::PinMessages).is_none());
}

#[test]
fn owner_is_allowed_without_any_other_question() {
    let db = Db { host: Some(USER), member: false, role_ids: vec![], role_permissions: vec![], overrides: vec![], flags: ChannelFeatureFlags::default() };
    let (r, asked) = run(&db, USER, PermissionKey::ManageInstance, None, None);
    assert!(r.is_allowed());
    assert_eq!(asked, 1);
}

#[test]
fn no_space_is_denied() {
    let db = member_db(vec![rp("view_audit_log", true)]);
    let (r, asked) = run(&db, USER, PermissionKey::ViewAuditLog, None, None);
    assert_eq!(denied_with(&r).as_deref(), Some("No space provided"));
    assert_eq!(asked, 1);
}

#[test]
fn non_member_is_denied() {
    let mut db = member_db(vec![rp("view_space", true)]);
    db.member = false;
    let (r, asked) = run(&db, USER, PermissionKey::ViewSpace, Some(SPACE), None);
    assert_eq!(denied_with(&r).as_deref(), Some("Not a member of this space"));
    assert_eq!(asked, 2);
}

#[test]
fn role_grant_outside_channel() {
    let db = member_db(vec![rp("view_space", true)]);
    let (r, asked) = run(&db, USER, PermissionKey::ViewSpace, Some(SPACE), None);
    assert!(r.is_allowed());
    assert_eq!(asked, 4);
    let (r2, _) = run(&db, USER, PermissionKey::ManageRoles, Some(SPACE), None);
    assert_eq!(denied_with(&r2).as_deref(), Some("Permission not granted by any role"));
}

#[test]
fn member_without_roles() {
    let mut db = member_db(vec![]);
    db.role_ids = vec![];
    let (r, asked) = run(&db, USER, PermissionKey::ViewSpace, Some(SPACE), None);
    assert_eq!(denied_with(&r).as_deref(), Some("No roles assigned"));
    assert_eq!(asked, 3);
    let (r2, asked2) = run(&db, USER, PermissionKey::SendMessages, Some(SPACE), Some(CHANNEL));
    assert_eq!(denied_with(&r2).as_deref(), Some("No roles assigned"));
    assert_eq!(asked2, 4);
}

#[test]
fn override_denial_beats_role_grant() {
    let mut db = member_db(vec![rp("send_messages", true)]);
    db.overrides = vec![ov("send_messages", true)];
    let (r, asked) = run(&db, USER, PermissionKey::SendMessages, Some(SPACE), Some(CHANNEL));
    assert_eq!(denied_with(&r).as_deref(), Some("Permission denied by channel override"));
    assert_eq!(asked, 5);
}

#[test]
fn override_grant_skips_feature_switches() {
    let mut db = member_db(vec![]);
    db.role_permissions = vec![rp("read_messages", true)];
    db.overrides = vec![ov("join_voice", false)];
    let (r, _) = run(&db, USER, PermissionKey::JoinVoice, Some(SPACE), Some(CHANNEL));
    assert!(r.is_allowed());
}

#[test]
fn disabled_feature_beats_role_grant() {
    let db = member_db(vec![rp("join_video", true)]);
    let (r, asked) = run(&db, USER, PermissionKey::JoinVideo, Some(SPACE), Some(CHANNEL));
    assert_eq!(denied_with(&r).as_deref(), Some("Feature not enabled for this channel: join_video"));
    assert_eq!(asked, 6);
    let (r2, _) = run(&db, USER, PermissionKey::SendMessages, Some(SPACE), Some(CHANNEL));
    assert_eq!(denied_with(&r2).as_deref(), Some("Permission not granted by any role"));
}

#[test]
fn check_refuses_answers_out_of_turn() {
    let (check, _) = PermissionCheck::start(USER, PermissionKey::ViewSpace, Some(SPACE), None);
    assert!(check.awaits(&CheckAnswer::HostUserId(None)));
    assert!(!check.awaits(&CheckAnswer::IsSpaceMember(true)));
}

#[test]
fn denial_becomes_forbidden() {
    assert!(require_allowed(PermissionResult::Allowed).is_ok());
    match require_allowed(PermissionResult::Denied("No roles assigned".to_string())) {
        Err(AppError::Forbidden(m)) => assert_eq!(m, "No roles assigned"),
        other => panic!("unexpected {:?}", other),
    }
}

#[test]
fn listing_allowed_permissions() {
    let keys = all_permission_keys();
    let mut allowed = vec![false; keys.len()];
    allowed[7] = true;
    allowed[9] = true;
    let names = collect_allowed_names(&keys, &allowed);
    assert_eq!(names, vec!["view_space".to_string(), "read_messages".to_string()]);
    assert!(any_allowed(&vec![false, false, true]));
    assert!(!any_allowed(&vec![false]));
    assert!(!any_allowed(&vec![]));
}
