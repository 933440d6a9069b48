//! Spaces, channels, roles and audit: the rules their services apply around
//! the database.

use vstd::prelude::*;
use crate::error::{AppError, ErrorView};
use crate::permissions::keys::{key_name, PermissionKey};
use crate::permissions::service::PermissionRequest;

verus! {

/// A new space needs a slug that no space has yet.
pub fn check_space_slug_free(taken: bool) -> (r: Result<(), AppError>)
    ensures
        r is Ok <==> !taken,
        taken ==> r->Err_0@ == ErrorView::Conflict("Space with similar name already exists"@),
{
    if taken {
        return Err(crate::error::conflict("Space with similar name already exists"));
    }
    Ok(())
}

/// A new channel needs a slug that no channel of its space has yet.
pub fn check_channel_slug_free(taken: bool) -> (r: Result<(), AppError>)
    ensures
        r is Ok <==> !taken,
        taken ==> r->Err_0@ == ErrorView::Conflict("Channel with similar name already exists"@),
{
    if taken {
        return Err(crate::error::conflict("Channel with similar name already exists"));
    }
    Ok(())
}

/// A user is added to a space only once.
pub fn check_not_member(already_member: bool) -> (r: Result<(), AppError>)
    ensures
        r is Ok <==> !already_member,
        already_member ==> r->Err_0@ == ErrorView::Conflict("User is already a member"@),
{
    if already_member {
        return Err(crate::error::conflict("User is already a member"));
    }
    Ok(())
}

/// The name of every space's default role.
pub fn everyone_role_name() -> (s: String)
    ensures
        s@ == "@everyone"@,
{
    "@everyone".to_owned()
}

/// What every member of a new space may do: see the space and its
/// channels, and read messages.
pub fn everyone_permissions() -> (v: Vec<String>)
    ensures
        v@.len() == 3,
        v@[0]@ == key_name(PermissionKey::ViewSpace),
        v@[1]@ == key_name(PermissionKey::ViewChannel),
        v@[2]@ == key_name(PermissionKey::ReadMessages),
{
    let mut v: Vec<String> = Vec::new();
    v.push(PermissionKey::ViewSpace.as_str().to_owned());
    v.push(PermissionKey::ViewChannel.as_str().to_owned());
    v.push(PermissionKey::ReadMessages.as_str().to_owned());
    v
}

/// The default role cannot be deleted.
pub fn check_role_deletable(is_default: bool) -> (r: Result<(), AppError>)
    ensures
        r is Ok <==> !is_default,
        is_default ==> r->Err_0@ == ErrorView::BadRequest("Cannot delete the @everyone default role"@),
{
    if is_default {
        return Err(crate::error::bad_request("Cannot delete the @everyone default role"));
    }
    Ok(())
}

/// The name of a role after an update: the requested one, or the current.
pub fn role_name_after_update(requested: Option<String>, current: String) -> (s: String)
    ensures
        s@ == match requested {
            Some(n) => n@,
            None => current@,
        },
{
    match requested {
        Some(n) => n,
        None => current,
    }
}

/// The membership of a user in a space, which must exist.
pub fn require_membership(found: Option<u128>) -> (r: Result<u128, AppError>)
    ensures
        match found {
            Some(id) => r == Ok::<u128, AppError>(id),
            None => r is Err && r->Err_0@ == ErrorView::NotFound("Membership not found"@),
        },
{
    match found {
        Some(id) => Ok(id),
        None => Err(crate::error::not_found("Membership not found")),
    }
}

/// Changing roles in a space needs the right to manage its roles.
pub fn manage_roles_permission(actor: u128, space_id: u128) -> (r: PermissionRequest)
    ensures
        r == (PermissionRequest {
            user_id: actor,
            permission: PermissionKey::ManageRoles,
            space_id: Some(space_id),
            channel_id: None,
        }),
{
    PermissionRequest { user_id: actor, permission: PermissionKey::ManageRoles, space_id: Some(space_id), channel_id: None }
}

/// Listing or reading roles needs the right to see the space.
pub fn view_space_permission(actor: u128, space_id: u128) -> (r: PermissionRequest)
    ensures
        r == (PermissionRequest {
            user_id: actor,
            permission: PermissionKey::ViewSpace,
            space_id: Some(space_id),
            channel_id: None,
        }),
{
    PermissionRequest { user_id: actor, permission: PermissionKey::ViewSpace, space_id: Some(space_id), channel_id: None }
}

/// Creating an invite needs the right to manage invites, in the invite's
/// space and channel.
pub fn invite_permission(actor: u128, space_id: u128, channel_id: Option<u128>) -> (r: PermissionRequest)
    ensures
        r == (PermissionRequest {
            user_id: actor,
            permission: PermissionKey::ManageInvites,
            space_id: Some(space_id),
            channel_id,
        }),
{
    PermissionRequest { user_id: actor, permission: PermissionKey::ManageInvites, space_id: Some(space_id), channel_id }
}

/// Reading the audit log needs the right to view it, asked outside any
/// space; so only the instance owner is allowed.
pub fn audit_log_permission(actor: u128) -> (r: PermissionRequest)
    ensures
        r == (PermissionRequest {
            user_id: actor,
            permission: PermissionKey::ViewAuditLog,
            space_id: None,
            channel_id: None,
        }),
{
    PermissionRequest { user_id: actor, permission: PermissionKey::ViewAuditLog, space_id: None, channel_id: None }
}

/// Joining a channel's event stream needs the right to view the channel.
pub fn view_channel_permission(user_id: u128, space_id: u128, channel_id: u128) -> (r: PermissionRequest)
    ensures
        r == (PermissionRequest {
            user_id,
            permission: PermissionKey::ViewChannel,
            space_id: Some(space_id),
            channel_id: Some(channel_id),
        }),
{
    PermissionRequest { user_id, permission: PermissionKey::ViewChannel, space_id: Some(space_id), channel_id: Some(channel_id) }
}

/// What a channel update announces: always the updated channel, and a
/// visibility change when the update sets the visibility.
pub fn announces_visibility_change(visibility: &Option<String>) -> (b: bool)
    ensures
        b == visibility is Some,
{
    visibility.is_some()
}

/// The names under which actions are written to the audit log.
#[derive(Debug, Clone, Copy, PartialEq, Eq, Structural)]
pub enum AuditAction {
    Bootstrap,
    Login,
    Logout,
    Register,
    SpaceCreate,
    SpaceDelete,
    ChannelCreate,
    ChannelDelete,
    MemberAdd,
    MemberRemove,
    RoleChange,
    PermissionChange,
    FileUpload,
    FileDelete,
    MessageDelete,
}

pub open spec fn audit_action_name(a: AuditAction) -> Seq<char> {
    match a {
        AuditAction::Bootstrap => "bootstrap"@,
        AuditAction::Login => "login"@,
        AuditAction::Logout => "logout"@,
        AuditAction::Register => "register"@,
        AuditAction::SpaceCreate => "space_create"@,
        AuditAction::SpaceDelete => "space_delete"@,
        AuditAction::ChannelCreate => "channel_create"@,
        AuditAction::ChannelDelete => "channel_delete"@,
        AuditAction::MemberAdd => "member_add"@,
        AuditAction::MemberRemove => "member_remove"@,
        AuditAction::RoleChange => "role_change"@,
        AuditAction::PermissionChange => "permission_change"@,
        AuditAction::FileUpload => "file_upload"@,
        AuditAction::FileDelete => "file_delete"@,
        AuditAction::MessageDelete => "message_delete"@,
    }
}

impl AuditAction {
    /// The name written to the audit log.
    pub fn as_str(&self) -> (s: &'static str)
        ensures
            s@ == audit_action_name(*self),
    {
        match self {
            AuditAction::Bootstrap => "bootstrap",
            AuditAction::Login => "login",
            AuditAction::Logout => "logout",
            AuditAction::Register => "register",
            AuditAction::SpaceCreate => "space_create",
            AuditAction::SpaceDelete => "space_delete",
            AuditAction::ChannelCreate => "channel_create",
            AuditAction::ChannelDelete => "channel_delete",
            AuditAction::MemberAdd => "member_add",
            AuditAction::MemberRemove => "member_remove",
            AuditAction::RoleChange => "role_change",
            AuditAction::PermissionChange => "permission_change",
            AuditAction::FileUpload => "file_upload",
            AuditAction::FileDelete => "file_delete",
            AuditAction::MessageDelete => "message_delete",
        }
    }
}

} // verus!
