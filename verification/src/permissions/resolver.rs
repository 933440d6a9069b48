//! Layered permission resolution.
//!
//! A check runs through five layers: the instance owner is always allowed;
//! without a space nothing is allowed; outside the space's membership nothing
//! is allowed; the member's roles grant or deny; in a channel, overrides and
//! then the channel's feature switches may decide first.  The facts each
//! layer needs come from the database, so the check is a state machine: it
//! asks for one fact at a time and decides as soon as it can.

use vstd::prelude::*;
use crate::text::str_equal;
use super::keys::{key_name, PermissionKey};
use super::repository::{ChannelFeatureFlags, ChannelOverride, RolePermission};

verus! {

/// What a check decided, as a mathematical value.
pub enum Decision {
    Allowed,
    Denied(Seq<char>),
}

/// The outcome of a permission check.
#[derive(Debug)]
pub enum PermissionResult {
    Allowed,
    Denied(String),
}

impl View for PermissionResult {
    type V = Decision;

    open spec fn view(&self) -> Decision {
        match self {
            PermissionResult::Allowed => Decision::Allowed,
            PermissionResult::Denied(reason) => Decision::Denied(reason@),
        }
    }
}

pub open spec fn opt_decision(r: Option<PermissionResult>) -> Option<Decision> {
    match r {
        Some(x) => Some(x@),
        None => None,
    }
}

impl PermissionResult {
    /// Whether the check allowed the action.
    pub fn is_allowed(&self) -> (b: bool)
        ensures
            b <==> self@ is Allowed,
    {
        match self {
            PermissionResult::Allowed => true,
            PermissionResult::Denied(_) => false,
        }
    }

    /// Why the permission was refused; nothing when it was granted.
    pub fn reason(&self) -> (r: Option<&str>)
        ensures
            match self@ {
                Decision::Allowed => r is None,
                Decision::Denied(reason) => r is Some && r->0@ == reason,
            },
    {
        match self {
            PermissionResult::Allowed => None,
            PermissionResult::Denied(reason) => Some(reason.as_str()),
        }
    }
}

pub(crate) fn denied(reason: &str) -> (r: PermissionResult)
    ensures
        r@ == Decision::Denied(reason@),
{
    PermissionResult::Denied(reason.to_owned())
}

pub open spec fn no_roles_reason() -> Seq<char> {
    "No roles assigned"@
}

/// Layer one: the instance owner may do anything.
pub open spec fn hoster_layer(user_id: u128, host_user_id: Option<u128>) -> Option<Decision> {
    if host_user_id == Some(user_id) {
        Some(Decision::Allowed)
    } else {
        None
    }
}

/// Layer two: outside the space, nothing is allowed.
pub open spec fn membership_layer(is_member: bool) -> Option<Decision> {
    if is_member {
        None
    } else {
        Some(Decision::Denied("Not a member of this space"@))
    }
}

/// Layer three: an allowing entry for the permission in any of the member's
/// roles grants it; entries that all refuse it deny it.
pub open spec fn role_layer(rps: Seq<RolePermission>, key: Seq<char>) -> Option<Decision> {
    if rps.len() == 0 {
        Some(Decision::Denied(no_roles_reason()))
    } else if exists|i: int| 0 <= i < rps.len() && rps[i].permission_key@ == key && rps[i].allowed {
        Some(Decision::Allowed)
    } else if exists|i: int| 0 <= i < rps.len() && rps[i].permission_key@ == key {
        Some(Decision::Denied("Permission explicitly denied by role"@))
    } else {
        None
    }
}

/// Layer four: the first channel override for the permission decides.
pub open spec fn override_layer(ovs: Seq<ChannelOverride>, key: Seq<char>) -> Option<Decision>
    decreases ovs.len(),
{
    if ovs.len() == 0 {
        None
    } else if ovs[0].permission_key@ == key {
        if ovs[0].denied {
            Some(Decision::Denied("Permission denied by channel override"@))
        } else {
            Some(Decision::Allowed)
        }
    } else {
        override_layer(ovs.drop_first(), key)
    }
}

/// Whether the channel's feature switches let the permission through.
pub open spec fn feature_allows(flags: ChannelFeatureFlags, k: PermissionKey) -> bool {
    match k {
        PermissionKey::SendMessages => flags.text_enabled,
        PermissionKey::SendFiles => flags.send_file_enabled,
        PermissionKey::JoinVoice | PermissionKey::StartVoice => flags.voice_group_enabled,
        PermissionKey::JoinVideo | PermissionKey::StartVideo | PermissionKey::ShareScreen => flags.video_group_enabled,
        _ => true,
    }
}

/// Layer five: a switched-off feature denies the permissions that need it.
pub open spec fn feature_layer(flags: ChannelFeatureFlags, k: PermissionKey) -> Option<Decision> {
    if feature_allows(flags, k) {
        None
    } else {
        Some(Decision::Denied("Feature not enabled for this channel: "@ + key_name(k)))
    }
}

/// When no layer after the roles decided: the roles' verdict, or a denial
/// that says whether the member has roles at all.
pub open spec fn role_fallback(role_allowed: Option<Decision>, role_ids: Seq<u128>) -> Decision {
    match role_allowed {
        Some(d) => d,
        None => if role_ids.len() == 0 {
            Decision::Denied(no_roles_reason())
        } else {
            Decision::Denied("Permission not granted by any role"@)
        },
    }
}

/// Everything in the database that a check may read.
pub struct PermissionFacts {
    pub host_user_id: Option<u128>,
    pub is_member: bool,
    pub role_ids: Seq<u128>,
    /// The permission entries of the member's roles.
    pub role_permissions: Seq<RolePermission>,
    /// The overrides of the channel for the member's roles.
    pub overrides: Seq<ChannelOverride>,
    pub flags: ChannelFeatureFlags,
}

/// The entries that the role layer sees: none when the member has no roles.
pub open spec fn fetched_role_permissions(f: PermissionFacts) -> Seq<RolePermission> {
    if f.role_ids.len() == 0 { seq![] } else { f.role_permissions }
}

/// The overrides that the override layer sees: none when the member has no roles.
pub open spec fn fetched_overrides(f: PermissionFacts) -> Seq<ChannelOverride> {
    if f.role_ids.len() == 0 { seq![] } else { f.overrides }
}

/// The decision of a full check of permission `k` for `user_id`, in the
/// given space and channel, against the facts `f`.
pub open spec fn resolve(
    user_id: u128,
    k: PermissionKey,
    space_id: Option<u128>,
    channel_id: Option<u128>,
    f: PermissionFacts,
) -> Decision {
    if let Some(d) = hoster_layer(user_id, f.host_user_id) {
        d
    } else if space_id is None {
        Decision::Denied("No space provided"@)
    } else if let Some(d) = membership_layer(f.is_member) {
        d
    } else {
        let role_allowed = role_layer(fetched_role_permissions(f), key_name(k));
        if channel_id is Some && override_layer(fetched_overrides(f), key_name(k)) is Some {
            override_layer(fetched_overrides(f), key_name(k))->0
        } else if channel_id is Some && feature_layer(f.flags, k) is Some {
            feature_layer(f.flags, k)->0
        } else {
            role_fallback(role_allowed, f.role_ids)
        }
    }
}

/// Layer one.
pub fn check_layer1_hoster_bypass(user_id: u128, host_user_id: Option<u128>) -> (r: Option<PermissionResult>)
    ensures
        opt_decision(r) == hoster_layer(user_id, host_user_id),
{
    if let Some(host_id) = host_user_id {
        if user_id == host_id {
            return Some(PermissionResult::Allowed);
        }
    }
    None
}

/// Layer two.
pub fn check_layer2_membership(is_member: bool) -> (r: Option<PermissionResult>)
    ensures
        opt_decision(r) == membership_layer(is_member),
{
    if !is_member {
        return Some(denied("Not a member of this space"));
    }
    None
}

/// Layer three, over the permission entries of the member's roles.
pub fn check_layer3_role_permissions(role_permissions: &Vec<RolePermission>, permission: &str) -> (r: Option<PermissionResult>)
    ensures
        opt_decision(r) == role_layer(role_permissions@, permission@),
{
    let n = role_permissions.len();
    if n == 0 {
        return Some(denied("No roles assigned"));
    }
    let mut i: usize = 0;
    while i < n
        invariant
            n == role_permissions@.len(),
            i <= n,
            forall|j: int| 0 <= j < i ==> !(role_permissions@[j].permission_key@ == permission@ && role_permissions@[j].allowed),
        decreases n - i,
    {
        let rp = &role_permissions[i];
        if str_equal(rp.permission_key.as_str(), permission) && rp.allowed {
            assert(role_permissions@[i as int].permission_key@ == permission@ && role_permissions@[i as int].allowed);
            return Some(PermissionResult::Allowed);
        }
        i += 1;
    }
    let mut j: usize = 0;
    while j < n
        invariant
            n == role_permissions@.len(),
            j <= n,
            forall|m: int| 0 <= m < n ==> !(role_permissions@[m].permission_key@ == permission@ && role_permissions@[m].allowed),
            forall|m: int| 0 <= m < j ==> role_permissions@[m].permission_key@ != permission@,
        decreases n - j,
    {
        if str_equal(role_permissions[j].permission_key.as_str(), permission) {
            assert(role_permissions@[j as int].permission_key@ == permission@);
            return Some(denied("Permission explicitly denied by role"));
        }
        j += 1;
    }
    None
}

/// Layer four, over the channel's overrides for the member's roles.
pub fn check_layer4_channel_override(overrides: &Vec<ChannelOverride>, permission: &str) -> (r: Option<PermissionResult>)
    ensures
        opt_decision(r) == override_layer(overrides@, permission@),
{
    let n = overrides.len();
    let mut i: usize = 0;
    assert(overrides@.skip(0) =~= overrides@);
    while i < n
        invariant
            n == overrides@.len(),
            i <= n,
            override_layer(overrides@, permission@) == override_layer(overrides@.skip(i as int), permission@),
        decreases n - i,
    {
        let ov = &overrides[i];
        assert(overrides@.skip(i as int).drop_first() =~= overrides@.skip(i + 1));
        if str_equal(ov.permission_key.as_str(), permission) {
            if ov.denied {
                return Some(denied("Permission denied by channel override"));
            } else {
                return Some(PermissionResult::Allowed);
            }
        }
        i += 1;
    }
    None
}

/// Layer five.
pub fn check_layer5_feature_flags(flags: &ChannelFeatureFlags, permission: PermissionKey) -> (r: Option<PermissionResult>)
    ensures
        opt_decision(r) == feature_layer(*flags, permission),
{
    let allowed = match permission {
        PermissionKey::SendMessages => flags.text_enabled,
        PermissionKey::SendFiles => flags.send_file_enabled,
        PermissionKey::JoinVoice | PermissionKey::StartVoice => flags.voice_group_enabled,
        PermissionKey::JoinVideo | PermissionKey::StartVideo | PermissionKey::ShareScreen => flags.video_group_enabled,
        _ => true,
    };
    if !allowed {
        let mut reason = "Feature not enabled for this channel: ".to_owned();
        crate::text::push_str(&mut reason, permission.as_str());
        return Some(PermissionResult::Denied(reason));
    }
    None
}


// ---------------------------------------------------------------------------
// Properties of resolution

/// The instance owner is allowed everything, everywhere.
pub proof fn lemma_owner_always_allowed(
    user_id: u128,
    k: PermissionKey,
    space_id: Option<u128>,
    channel_id: Option<u128>,
    f: PermissionFacts,
)
    requires
        f.host_user_id == Some(user_id),
    ensures
        resolve(user_id, k, space_id, channel_id, f) == Decision::Allowed,
{
}

/// Only the instance owner, or a member of the space, is ever allowed.
pub proof fn lemma_allowed_only_for_owner_or_member(
    user_id: u128,
    k: PermissionKey,
    space_id: Option<u128>,
    channel_id: Option<u128>,
    f: PermissionFacts,
)
    requires
        resolve(user_id, k, space_id, channel_id, f) == Decision::Allowed,
    ensures
        f.host_user_id == Some(user_id) || (space_id is Some && f.is_member),
{
}

/// Without a space, anyone but the owner is denied.
pub proof fn lemma_no_space_denied(
    user_id: u128,
    k: PermissionKey,
    channel_id: Option<u128>,
    f: PermissionFacts,
)
    requires
        f.host_user_id != Some(user_id),
    ensures
        resolve(user_id, k, None, channel_id, f) == Decision::Denied("No space provided"@),
{
}

/// Outside the space's membership, anyone but the owner is denied.
pub proof fn lemma_non_member_denied(
    user_id: u128,
    k: PermissionKey,
    space_id: u128,
    channel_id: Option<u128>,
    f: PermissionFacts,
)
    requires
        f.host_user_id != Some(user_id),
        !f.is_member,
    ensures
        resolve(user_id, k, Some(space_id), channel_id, f) == Decision::Denied("Not a member of this space"@),
{
}

/// Outside a channel, a member who is not the owner is allowed exactly when
/// one of the member's roles has an allowing entry for the permission.
pub proof fn lemma_roles_decide_outside_channels(
    user_id: u128,
    k: PermissionKey,
    space_id: u128,
    f: PermissionFacts,
)
    requires
        f.host_user_id != Some(user_id),
        f.is_member,
    ensures
        resolve(user_id, k, Some(space_id), None, f) == Decision::Allowed <==> (f.role_ids.len() > 0
            && exists|i: int|
            0 <= i < f.role_permissions.len() && f.role_permissions[i].permission_key@ == key_name(k)
                && f.role_permissions[i].allowed),
{
    if f.role_ids.len() > 0 && f.role_permissions.len() == 0 {
        assert(!(exists|i: int|
            0 <= i < f.role_permissions.len() && f.role_permissions[i].permission_key@ == key_name(k)
                && f.role_permissions[i].allowed));
    }
}

/// In a channel, a denying override for the permission denies it, whatever
/// the roles grant.
pub proof fn lemma_override_denial_wins(
    user_id: u128,
    k: PermissionKey,
    space_id: u128,
    channel_id: u128,
    f: PermissionFacts,
)
    requires
        f.host_user_id != Some(user_id),
        f.is_member,
        f.role_ids.len() > 0,
        override_layer(f.overrides, key_name(k)) == Some(Decision::Denied("Permission denied by channel override"@)),
    ensures
        resolve(user_id, k, Some(space_id), Some(channel_id), f) == Decision::Denied(
            "Permission denied by channel override"@,
        ),
{
}

/// In a channel without an override for the permission, a switched-off
/// feature denies the permissions that need it, whatever the roles grant.
pub proof fn lemma_disabled_feature_denies(
    user_id: u128,
    k: PermissionKey,
    space_id: u128,
    channel_id: u128,
    f: PermissionFacts,
)
    requires
        f.host_user_id != Some(user_id),
        f.is_member,
        override_layer(fetched_overrides(f), key_name(k)) is None,
        !feature_allows(f.flags, k),
    ensures
        resolve(user_id, k, Some(space_id), Some(channel_id), f) == Decision::Denied(
            "Feature not enabled for this channel: "@ + key_name(k),
        ),
{
}

/// Layer five, switch by switch: sending messages needs the text switch,
/// sending files the file switch, joining or starting voice the voice
/// switch, and joining or starting video or sharing the screen the video
/// switch; a switch that is off denies the permission, naming it. Every
/// other permission passes the layer.
pub proof fn lemma_feature_switches(flags: ChannelFeatureFlags, k: PermissionKey)
    ensures
        k == PermissionKey::SendMessages ==> (feature_layer(flags, k) is None <==> flags.text_enabled),
        k == PermissionKey::SendFiles ==> (feature_layer(flags, k) is None <==> flags.send_file_enabled),
        k == PermissionKey::JoinVoice || k == PermissionKey::StartVoice ==> (feature_layer(flags, k) is None
            <==> flags.voice_group_enabled),
        k == PermissionKey::JoinVideo || k == PermissionKey::StartVideo || k == PermissionKey::ShareScreen ==> (
        feature_layer(flags, k) is None <==> flags.video_group_enabled),
        !(k == PermissionKey::SendMessages || k == PermissionKey::SendFiles || k == PermissionKey::JoinVoice || k
            == PermissionKey::StartVoice || k == PermissionKey::JoinVideo || k == PermissionKey::StartVideo || k
            == PermissionKey::ShareScreen) ==> feature_layer(flags, k) is None,
        feature_layer(flags, k) is Some ==> feature_layer(flags, k) == Some(
            Decision::Denied("Feature not enabled for this channel: "@ + key_name(k)),
        ),
{
}

/// In a channel whose voice switch is off, a member (not the owner) without
/// an override for it is refused joining or starting voice, whatever the
/// roles grant, with the permission's name.
pub proof fn lemma_voice_off_denies_voice(
    user_id: u128,
    k: PermissionKey,
    space_id: u128,
    channel_id: u128,
    f: PermissionFacts,
)
    requires
        k == PermissionKey::JoinVoice || k == PermissionKey::StartVoice,
        f.host_user_id != Some(user_id),
        f.is_member,
        override_layer(fetched_overrides(f), key_name(k)) is None,
        !f.flags.voice_group_enabled,
    ensures
        resolve(user_id, k, Some(space_id), Some(channel_id), f) == Decision::Denied(
            "Feature not enabled for this channel: "@ + key_name(k),
        ),
{
    lemma_feature_switches(f.flags, k);
    lemma_disabled_feature_denies(user_id, k, space_id, channel_id, f);
}

} // verus!
