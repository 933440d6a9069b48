//! Messages: which permission each operation needs, and the rules on
//! editing and defaults.

use vstd::prelude::*;
use crate::error::{AppError, ErrorView};
use crate::permissions::keys::PermissionKey;
use crate::permissions::service::PermissionRequest;

verus! {

/// Sending into a channel needs the right to send messages there.
pub fn send_permission(user_id: u128, space_id: u128, channel_id: u128) -> (r: PermissionRequest)
    ensures
        r == (PermissionRequest {
            user_id,
            permission: PermissionKey::SendMessages,
            space_id: Some(space_id),
            channel_id: Some(channel_id),
        }),
{
    PermissionRequest { user_id, permission: PermissionKey::SendMessages, space_id: Some(space_id), channel_id: Some(channel_id) }
}

/// Reading a channel's messages needs the right to read them there.
pub fn read_permission(user_id: u128, space_id: u128, channel_id: u128) -> (r: PermissionRequest)
    ensures
        r == (PermissionRequest {
            user_id,
            permission: PermissionKey::ReadMessages,
            space_id: Some(space_id),
            channel_id: Some(channel_id),
        }),
{
    PermissionRequest { user_id, permission: PermissionKey::ReadMessages, space_id: Some(space_id), channel_id: Some(channel_id) }
}

/// Editing one's own message needs the right to edit one's own messages;
/// editing someone else's, the right to edit any.
pub fn edit_permission(author_user_id: u128, user_id: u128, space_id: u128, channel_id: u128) -> (r: PermissionRequest)
    ensures
        r.user_id == user_id,
        r.space_id == Some(space_id),
        r.channel_id == Some(channel_id),
        r.permission == if author_user_id == user_id {
            PermissionKey::EditOwnMessage
        } else {
            PermissionKey::EditAnyMessage
        },
{
    let permission = if author_user_id == user_id {
        PermissionKey::EditOwnMessage
    } else {
        PermissionKey::EditAnyMessage
    };
    PermissionRequest { user_id, permission, space_id: Some(space_id), channel_id: Some(channel_id) }
}

/// Deleting one's own message needs the right to delete one's own messages;
/// deleting someone else's, the right to delete any.
pub fn delete_permission(author_user_id: u128, user_id: u128, space_id: u128, channel_id: u128) -> (r: PermissionRequest)
    ensures
        r.user_id == user_id,
        r.space_id == Some(space_id),
        r.channel_id == Some(channel_id),
        r.permission == if author_user_id == user_id {
            PermissionKey::DeleteOwnMessage
        } else {
            PermissionKey::DeleteAnyMessage
        },
{
    let permission = if author_user_id == user_id {
        PermissionKey::DeleteOwnMessage
    } else {
        PermissionKey::DeleteAnyMessage
    };
    PermissionRequest { user_id, permission, space_id: Some(space_id), channel_id: Some(channel_id) }
}

/// A deleted message cannot be edited: it is not found.
pub fn check_not_deleted(deleted: bool) -> (r: Result<(), AppError>)
    ensures
        r is Ok <==> !deleted,
        deleted ==> r->Err_0@ == ErrorView::NotFound("Message not found"@),
{
    if deleted {
        return Err(crate::error::not_found("Message not found"));
    }
    Ok(())
}

/// The kind of a new message: the requested one, or `text`.
pub fn message_kind(requested: Option<String>) -> (k: String)
    ensures
        k@ == match requested {
            Some(r) => r@,
            None => "text"@,
        },
{
    match requested {
        Some(r) => r,
        None => "text".to_owned(),
    }
}

} // verus!
