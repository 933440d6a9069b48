use vstd::prelude::*;

verus! {

/// Every capability that a role, a channel override or the instance owner
/// can grant.
#[derive(Debug, Clone, Copy, PartialEq, Eq, Structural)]
pub enum PermissionKey {
    ManageInstance,
    ManageSpaces,
    ManageRoles,
    ManageMembers,
    ManageChannels,
    ManageInvites,
    ViewAuditLog,
    ViewSpace,
    ViewChannel,
    ReadMessages,
    SendMessages,
    EditOwnMessage,
    DeleteOwnMessage,
    EditAnyMessage,
    DeleteAnyMessage,
    PinMessages,
    MentionEveryone,
    SendFiles,
    CreateThreads,
    ManageThreads,
    AddReactions,
    JoinVoice,
    StartVoice,
    JoinVideo,
    StartVideo,
    ShareScreen,
    KickMembers,
    BanMembers,
    MuteMembers,
    ManageModeration,
    CustomizeOwnProfile,
    CustomizeSpace,
    UseWebhooks,
}

/// The stored name of each permission.
pub open spec fn key_name(k: PermissionKey) -> Seq<char> {
    match k {
        PermissionKey::ManageInstance => "manage_instance"@,
        PermissionKey::ManageSpaces => "manage_spaces"@,
        PermissionKey::ManageRoles => "manage_roles"@,
        PermissionKey::ManageMembers => "manage_members"@,
        PermissionKey::ManageChannels => "manage_channels"@,
        PermissionKey::ManageInvites => "manage_invites"@,
        PermissionKey::ViewAuditLog => "view_audit_log"@,
        PermissionKey::ViewSpace => "view_space"@,
        PermissionKey::ViewChannel => "view_channel"@,
        PermissionKey::ReadMessages => "read_messages"@,
        PermissionKey::SendMessages => "send_messages"@,
        PermissionKey::EditOwnMessage => "edit_own_message"@,
        PermissionKey::DeleteOwnMessage => "delete_own_message"@,
        PermissionKey::EditAnyMessage => "edit_any_message"@,
        PermissionKey::DeleteAnyMessage => "delete_any_message"@,
        PermissionKey::PinMessages => "pin_messages"@,
        PermissionKey::MentionEveryone => "mention_everyone"@,
        PermissionKey::SendFiles => "send_files"@,
        PermissionKey::CreateThreads => "create_threads"@,
        PermissionKey::ManageThreads => "manage_threads"@,
        PermissionKey::AddReactions => "add_reactions"@,
        PermissionKey::JoinVoice => "join_voice"@,
        PermissionKey::StartVoice => "start_voice"@,
        PermissionKey::JoinVideo => "join_video"@,
        PermissionKey::StartVideo => "start_video"@,
        PermissionKey::ShareScreen => "share_screen"@,
        PermissionKey::KickMembers => "kick_members"@,
        PermissionKey::BanMembers => "ban_members"@,
        PermissionKey::MuteMembers => "mute_members"@,
        PermissionKey::ManageModeration => "manage_moderation"@,
        PermissionKey::CustomizeOwnProfile => "customize_own_profile"@,
        PermissionKey::CustomizeSpace => "customize_space"@,
        PermissionKey::UseWebhooks => "use_webhooks"@,
    }
}

impl PermissionKey {
    /// The snake-case name under which the permission is stored.
    pub fn as_str(&self) -> (s: &'static str)
        ensures
            s@ == key_name(*self),
    {
        match self {
            PermissionKey::ManageInstance => "manage_instance",
            PermissionKey::ManageSpaces => "manage_spaces",
            PermissionKey::ManageRoles => "manage_roles",
            PermissionKey::ManageMembers => "manage_members",
            PermissionKey::ManageChannels => "manage_channels",
            PermissionKey::ManageInvites => "manage_invites",
            PermissionKey::ViewAuditLog => "view_audit_log",
            PermissionKey::ViewSpace => "view_space",
            PermissionKey::ViewChannel => "view_channel",
            PermissionKey::ReadMessages => "read_messages",
            PermissionKey::SendMessages => "send_messages",
            PermissionKey::EditOwnMessage => "edit_own_message",
            PermissionKey::DeleteOwnMessage => "delete_own_message",
            PermissionKey::EditAnyMessage => "edit_any_message",
            PermissionKey::DeleteAnyMessage => "delete_any_message",
            PermissionKey::PinMessages => "pin_messages",
            PermissionKey::MentionEveryone => "mention_everyone",
            PermissionKey::SendFiles => "send_files",
            PermissionKey::CreateThreads => "create_threads",
            PermissionKey::ManageThreads => "manage_threads",
            PermissionKey::AddReactions => "add_reactions",
            PermissionKey::JoinVoice => "join_voice",
            PermissionKey::StartVoice => "start_voice",
            PermissionKey::JoinVideo => "join_video",
            PermissionKey::StartVideo => "start_video",
            PermissionKey::ShareScreen => "share_screen",
            PermissionKey::KickMembers => "kick_members",
            PermissionKey::BanMembers => "ban_members",
            PermissionKey::MuteMembers => "mute_members",
            PermissionKey::ManageModeration => "manage_moderation",
            PermissionKey::CustomizeOwnProfile => "customize_own_profile",
            PermissionKey::CustomizeSpace => "customize_space",
            PermissionKey::UseWebhooks => "use_webhooks",
        }
    }
}


/// Different permissions are stored under different names.
pub proof fn lemma_key_names_distinct(a: PermissionKey, b: PermissionKey)
    requires
        a != b,
    ensures
        key_name(a) != key_name(b),
{
    reveal_strlit("manage_instance");
    reveal_strlit("manage_spaces");
    reveal_strlit("manage_roles");
    reveal_strlit("manage_members");
    reveal_strlit("manage_channels");
    reveal_strlit("manage_invites");
    reveal_strlit("view_audit_log");
    reveal_strlit("view_space");
    reveal_strlit("view_channel");
    reveal_strlit("read_messages");
    reveal_strlit("send_messages");
    reveal_strlit("edit_own_message");
    reveal_strlit("delete_own_message");
    reveal_strlit("edit_any_message");
    reveal_strlit("delete_any_message");
    reveal_strlit("pin_messages");
    reveal_strlit("mention_everyone");
    reveal_strlit("send_files");
    reveal_strlit("create_threads");
    reveal_strlit("manage_threads");
    reveal_strlit("add_reactions");
    reveal_strlit("join_voice");
    reveal_strlit("start_voice");
    reveal_strlit("join_video");
    reveal_strlit("start_video");
    reveal_strlit("share_screen");
    reveal_strlit("kick_members");
    reveal_strlit("ban_members");
    reveal_strlit("mute_members");
    reveal_strlit("manage_moderation");
    reveal_strlit("customize_own_profile");
    reveal_strlit("customize_space");
    reveal_strlit("use_webhooks");
    assert("manage_instance"@.len() == 15);
    assert("manage_spaces"@.len() == 13);
    assert("manage_roles"@.len() == 12);
    assert("manage_members"@.len() == 14);
    assert("manage_channels"@.len() == 15);
    assert("manage_invites"@.len() == 14);
    assert("view_audit_log"@.len() == 14);
    assert("view_space"@.len() == 10);
    assert("view_channel"@.len() == 12);
    assert("read_messages"@.len() == 13);
    assert("send_messages"@.len() == 13);
    assert("edit_own_message"@.len() == 16);
    assert("delete_own_message"@.len() == 18);
    assert("edit_any_message"@.len() == 16);
    assert("delete_any_message"@.len() == 18);
    assert("pin_messages"@.len() == 12);
    assert("mention_everyone"@.len() == 16);
    assert("send_files"@.len() == 10);
    assert("create_threads"@.len() == 14);
    assert("manage_threads"@.len() == 14);
    assert("add_reactions"@.len() == 13);
    assert("join_voice"@.len() == 10);
    assert("start_voice"@.len() == 11);
    assert("join_video"@.len() == 10);
    assert("start_video"@.len() == 11);
    assert("share_screen"@.len() == 12);
    assert("kick_members"@.len() == 12);
    assert("ban_members"@.len() == 11);
    assert("mute_members"@.len() == 12);
    assert("manage_moderation"@.len() == 17);
    assert("customize_own_profile"@.len() == 21);
    assert("customize_space"@.len() == 15);
    assert("use_webhooks"@.len() == 12);
    if key_name(a) == key_name(b) {
        assert(key_name(a).len() == key_name(b).len());
        assert(key_name(a)[0] == key_name(b)[0]);
        assert(key_name(a)[1] == key_name(b)[1]);
        assert(key_name(a)[2] == key_name(b)[2]);
        assert(key_name(a)[5] == key_name(b)[5]);
        assert(key_name(a)[7] == key_name(b)[7]);
        assert(key_name(a)[8] == key_name(b)[8]);
        assert(key_name(a)[9] == key_name(b)[9]);
    }
}

/// A character of a stored permission name: a lower-case ASCII letter or `_`.
pub open spec fn is_key_char(c: char) -> bool {
    ('a' <= c && c <= 'z') || c == '_'
}

/// Every stored permission name is non-empty and made only of lower-case
/// ASCII letters and underscores.
pub proof fn lemma_key_name_shape(k: PermissionKey)
    ensures
        key_name(k).len() > 0,
        forall|i: int| 0 <= i < key_name(k).len() ==> is_key_char(#[trigger] key_name(k)[i]),
{
    match k {
        PermissionKey::ManageInstance => {
            reveal_strlit("manage_instance");
        },
        PermissionKey::ManageSpaces => {
            reveal_strlit("manage_spaces");
        },
        PermissionKey::ManageRoles => {
            reveal_strlit("manage_roles");
        },
        PermissionKey::ManageMembers => {
            reveal_strlit("manage_members");
        },
        PermissionKey::ManageChannels => {
            reveal_strlit("manage_channels");
        },
        PermissionKey::ManageInvites => {
            reveal_strlit("manage_invites");
        },
        PermissionKey::ViewAuditLog => {
            reveal_strlit("view_audit_log");
        },
        PermissionKey::ViewSpace => {
            reveal_strlit("view_space");
        },
        PermissionKey::ViewChannel => {
            reveal_strlit("view_channel");
        },
        PermissionKey::ReadMessages => {
            reveal_strlit("read_messages");
        },
        PermissionKey::SendMessages => {
            reveal_strlit("send_messages");
        },
        PermissionKey::EditOwnMessage => {
            reveal_strlit("edit_own_message");
        },
        PermissionKey::DeleteOwnMessage => {
            reveal_strlit("delete_own_message");
        },
        PermissionKey::EditAnyMessage => {
            reveal_strlit("edit_any_message");
        },
        PermissionKey::DeleteAnyMessage => {
            reveal_strlit("delete_any_message");
        },
        PermissionKey::PinMessages => {
            reveal_strlit("pin_messages");
        },
        PermissionKey::MentionEveryone => {
            reveal_strlit("mention_everyone");
        },
        PermissionKey::SendFiles => {
            reveal_strlit("send_files");
        },
        PermissionKey::CreateThreads => {
            reveal_strlit("create_threads");
        },
        PermissionKey::ManageThreads => {
            reveal_strlit("manage_threads");
        },
        PermissionKey::AddReactions => {
            reveal_strlit("add_reactions");
        },
        PermissionKey::JoinVoice => {
            reveal_strlit("join_voice");
        },
        PermissionKey::StartVoice => {
            reveal_strlit("start_voice");
        },
        PermissionKey::JoinVideo => {
            reveal_strlit("join_video");
        },
        PermissionKey::StartVideo => {
            reveal_strlit("start_video");
        },
        PermissionKey::ShareScreen => {
            reveal_strlit("share_screen");
        },
        PermissionKey::KickMembers => {
            reveal_strlit("kick_members");
        },
        PermissionKey::BanMembers => {
            reveal_strlit("ban_members");
        },
        PermissionKey::MuteMembers => {
            reveal_strlit("mute_members");
        },
        PermissionKey::ManageModeration => {
            reveal_strlit("manage_moderation");
        },
        PermissionKey::CustomizeOwnProfile => {
            reveal_strlit("customize_own_profile");
        },
        PermissionKey::CustomizeSpace => {
            reveal_strlit("customize_space");
        },
        PermissionKey::UseWebhooks => {
            reveal_strlit("use_webhooks");
        },
    }
}

} // verus!
