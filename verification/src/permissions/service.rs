//! What the services ask of permission checks, and what they make of the
//! answers.

use vstd::prelude::*;
use crate::error::{AppError, ErrorView};
use super::keys::{key_name, PermissionKey};
use super::resolver::{Decision, PermissionResult};

verus! {

/// A permission check that a service needs before it acts.
#[derive(Debug, Clone, Copy, PartialEq, Eq, Structural)]
pub struct PermissionRequest {
    pub user_id: u128,
    pub permission: PermissionKey,
    pub space_id: Option<u128>,
    pub channel_id: Option<u128>,
}

/// A check that must pass: a denial becomes a forbidden error with the
/// denial's reason.
pub fn require_allowed(result: PermissionResult) -> (r: Result<(), AppError>)
    ensures
        match result@ {
            Decision::Allowed => r is Ok,
            Decision::Denied(reason) => r is Err && r->Err_0@ == ErrorView::Forbidden(reason),
        },
{
    match result {
        PermissionResult::Allowed => Ok(()),
        PermissionResult::Denied(reason) => Err(AppError::Forbidden(reason)),
    }
}

/// Every permission, in the order in which a member's permissions are listed.
pub open spec fn all_keys() -> Seq<PermissionKey> {
    seq![
        PermissionKey::ManageInstance,
        PermissionKey::ManageSpaces,
        PermissionKey::ManageRoles,
        PermissionKey::ManageMembers,
        PermissionKey::ManageChannels,
        PermissionKey::ManageInvites,
        PermissionKey::ViewAuditLog,
        PermissionKey::ViewSpace,
        PermissionKey::ViewChannel,
        PermissionKey::ReadMessages,
        PermissionKey::SendMessages,
        PermissionKey::EditOwnMessage,
        PermissionKey::DeleteOwnMessage,
        PermissionKey::EditAnyMessage,
        PermissionKey::DeleteAnyMessage,
        PermissionKey::PinMessages,
        PermissionKey::MentionEveryone,
        PermissionKey::SendFiles,
        PermissionKey::CreateThreads,
        PermissionKey::ManageThreads,
        PermissionKey::AddReactions,
        PermissionKey::JoinVoice,
        PermissionKey::StartVoice,
        PermissionKey::JoinVideo,
        PermissionKey::StartVideo,
        PermissionKey::ShareScreen,
        PermissionKey::KickMembers,
        PermissionKey::BanMembers,
        PermissionKey::MuteMembers,
        PermissionKey::ManageModeration,
        PermissionKey::CustomizeOwnProfile,
        PermissionKey::CustomizeSpace,
        PermissionKey::UseWebhooks,
    ]
}

/// Every permission, in listing order.
pub fn all_permission_keys() -> (v: Vec<PermissionKey>)
    ensures
        v@ == all_keys(),
{
    let v = vec![
        PermissionKey::ManageInstance,
        PermissionKey::ManageSpaces,
        PermissionKey::ManageRoles,
        PermissionKey::ManageMembers,
        PermissionKey::ManageChannels,
        PermissionKey::ManageInvites,
        PermissionKey::ViewAuditLog,
        PermissionKey::ViewSpace,
        PermissionKey::ViewChannel,
        PermissionKey::ReadMessages,
        PermissionKey::SendMessages,
        PermissionKey::EditOwnMessage,
        PermissionKey::DeleteOwnMessage,
        PermissionKey::EditAnyMessage,
        PermissionKey::DeleteAnyMessage,
        PermissionKey::PinMessages,
        PermissionKey::MentionEveryone,
        PermissionKey::SendFiles,
        PermissionKey::CreateThreads,
        PermissionKey::ManageThreads,
        PermissionKey::AddReactions,
        PermissionKey::JoinVoice,
        PermissionKey::StartVoice,
        PermissionKey::JoinVideo,
        PermissionKey::StartVideo,
        PermissionKey::ShareScreen,
        PermissionKey::KickMembers,
        PermissionKey::BanMembers,
        PermissionKey::MuteMembers,
        PermissionKey::ManageModeration,
        PermissionKey::CustomizeOwnProfile,
        PermissionKey::CustomizeSpace,
        PermissionKey::UseWebhooks,
    ];
    assert(v@ =~= all_keys());
    v
}

/// Every permission is listed.
pub proof fn lemma_all_keys_complete(k: PermissionKey)
    ensures
        all_keys().contains(k),
{
    let ks = all_keys();
    match k {
        PermissionKey::ManageInstance => assert(ks[0] == k),
        PermissionKey::ManageSpaces => assert(ks[1] == k),
        PermissionKey::ManageRoles => assert(ks[2] == k),
        PermissionKey::ManageMembers => assert(ks[3] == k),
        PermissionKey::ManageChannels => assert(ks[4] == k),
        PermissionKey::ManageInvites => assert(ks[5] == k),
        PermissionKey::ViewAuditLog => assert(ks[6] == k),
        PermissionKey::ViewSpace => assert(ks[7] == k),
        PermissionKey::ViewChannel => assert(ks[8] == k),
        PermissionKey::ReadMessages => assert(ks[9] == k),
        PermissionKey::SendMessages => assert(ks[10] == k),
        PermissionKey::EditOwnMessage => assert(ks[11] == k),
        PermissionKey::DeleteOwnMessage => assert(ks[12] == k),
        PermissionKey::EditAnyMessage => assert(ks[13] == k),
        PermissionKey::DeleteAnyMessage => assert(ks[14] == k),
        PermissionKey::PinMessages => assert(ks[15] == k),
        PermissionKey::MentionEveryone => assert(ks[16] == k),
        PermissionKey::SendFiles => assert(ks[17] == k),
        PermissionKey::CreateThreads => assert(ks[18] == k),
        PermissionKey::ManageThreads => assert(ks[19] == k),
        PermissionKey::AddReactions => assert(ks[20] == k),
        PermissionKey::JoinVoice => assert(ks[21] == k),
        PermissionKey::StartVoice => assert(ks[22] == k),
        PermissionKey::JoinVideo => assert(ks[23] == k),
        PermissionKey::StartVideo => assert(ks[24] == k),
        PermissionKey::ShareScreen => assert(ks[25] == k),
        PermissionKey::KickMembers => assert(ks[26] == k),
        PermissionKey::BanMembers => assert(ks[27] == k),
        PermissionKey::MuteMembers => assert(ks[28] == k),
        PermissionKey::ManageModeration => assert(ks[29] == k),
        PermissionKey::CustomizeOwnProfile => assert(ks[30] == k),
        PermissionKey::CustomizeSpace => assert(ks[31] == k),
        PermissionKey::UseWebhooks => assert(ks[32] == k),
    }
}

/// The names of the permissions whose checks were allowed, in the order of
/// the permissions.
pub open spec fn allowed_names(keys: Seq<PermissionKey>, allowed: Seq<bool>) -> Seq<Seq<char>>
    decreases keys.len(),
{
    if keys.len() == 0 || allowed.len() == 0 {
        seq![]
    } else {
        let rest = allowed_names(keys.drop_last(), allowed.drop_last());
        if allowed.last() {
            rest.push(key_name(keys.last()))
        } else {
            rest
        }
    }
}

/// How many checks were allowed.
pub open spec fn count_allowed(allowed: Seq<bool>) -> nat
    decreases allowed.len(),
{
    if allowed.len() == 0 {
        0
    } else {
        count_allowed(allowed.drop_last()) + if allowed.last() { 1nat } else { 0nat }
    }
}

/// The listed names are those of the allowed checks and only those: one per
/// allowed check, each allowed permission's name among them, and every name
/// the name of an allowed permission.
pub proof fn lemma_allowed_names(keys: Seq<PermissionKey>, allowed: Seq<bool>)
    requires
        keys.len() == allowed.len(),
    ensures
        allowed_names(keys, allowed).len() == count_allowed(allowed),
        forall|i: int| 0 <= i < keys.len() && allowed[i] ==> allowed_names(keys, allowed).contains(
            #[trigger] key_name(keys[i]),
        ),
        forall|j: int| #![trigger allowed_names(keys, allowed)[j]] 0 <= j < allowed_names(keys, allowed).len() ==> exists|i: int|
            0 <= i < keys.len() && allowed[i] && allowed_names(keys, allowed)[j] == #[trigger] key_name(keys[i]),
    decreases keys.len(),
{
    if keys.len() > 0 {
        let ks = keys.drop_last();
        let al = allowed.drop_last();
        lemma_allowed_names(ks, al);
        let rest = allowed_names(ks, al);
        let r = allowed_names(keys, allowed);
        let n = keys.len() - 1;
        assert forall|i: int| 0 <= i < keys.len() && allowed[i] implies r.contains(#[trigger] key_name(keys[i])) by {
            if i < n {
                assert(ks[i] == keys[i] && al[i] == allowed[i]);
                assert(rest.contains(key_name(ks[i])));
                let j = choose|j: int| 0 <= j < rest.len() && rest[j] == key_name(ks[i]);
                assert(r[j] == rest[j]);
            } else {
                assert(r[r.len() - 1] == key_name(keys[i]));
            }
        }
        assert forall|j: int| #![trigger allowed_names(keys, allowed)[j]] 0 <= j < allowed_names(keys, allowed).len()
            implies exists|i: int| 0 <= i < keys.len() && allowed[i] && allowed_names(keys, allowed)[j] == #[trigger] key_name(keys[i]) by {
            if j < rest.len() {
                assert(r[j] == rest[j]);
                let i = choose|i: int| 0 <= i < ks.len() && al[i] && rest[j] == #[trigger] key_name(ks[i]);
                assert(allowed[i] && keys[i] == ks[i]);
                assert(r[j] == key_name(keys[i]));
            } else {
                assert(allowed[n] && r[j] == key_name(keys[n]));
            }
        }
    } else {
        assert(allowed_names(keys, allowed).len() == 0);
    }
}

pub open spec fn names_of(v: Seq<String>) -> Seq<Seq<char>> {
    v.map_values(|s: String| s@)
}

/// Lists the names of the permissions that were allowed; `allowed[i]` is the
/// outcome of the check of `keys[i]`.
pub fn collect_allowed_names(keys: &Vec<PermissionKey>, allowed: &Vec<bool>) -> (r: Vec<String>)
    requires
        keys@.len() == allowed@.len(),
    ensures
        names_of(r@) == allowed_names(keys@, allowed@),
{
    let n = keys.len();
    let mut r: Vec<String> = Vec::new();
    let mut i: usize = 0;
    while i < n
        invariant
            n == keys@.len(),
            n == allowed@.len(),
            i <= n,
            names_of(r@) == allowed_names(keys@.subrange(0, i as int), allowed@.subrange(0, i as int)),
        decreases n - i,
    {
        let ghost before = r@;
        assert(keys@.subrange(0, (i + 1) as int).drop_last() =~= keys@.subrange(0, i as int));
        assert(allowed@.subrange(0, (i + 1) as int).drop_last() =~= allowed@.subrange(0, i as int));
        if allowed[i] {
            r.push(keys[i].as_str().to_owned());
            assert(names_of(r@) =~= names_of(before).push(key_name(keys@[i as int])));
        }
        i += 1;
    }
    assert(keys@.subrange(0, n as int) =~= keys@);
    assert(allowed@.subrange(0, n as int) =~= allowed@);
    r
}

/// Whether any of a run of checks was allowed; the checks stop at the first
/// that was, so the outcomes may be fewer than the permissions asked about.
pub fn any_allowed(outcomes: &Vec<bool>) -> (b: bool)
    ensures
        b == outcomes@.contains(true),
{
    let n = outcomes.len();
    let mut i: usize = 0;
    while i < n
        invariant
            n == outcomes@.len(),
            i <= n,
            forall|j: int| 0 <= j < i ==> !outcomes@[j],
        decreases n - i,
    {
        if outcomes[i] {
            assert(outcomes@[i as int]);
            return true;
        }
        i += 1;
    }
    false
}

} // verus!
