//! The rows that permission resolution reads from the database.

use vstd::prelude::*;

verus! {

/// One permission entry of a role.
pub struct RolePermission {
    pub role_id: u128,
    pub permission_key: String,
    pub allowed: bool,
}

/// A per-channel override of one permission for one role.
pub struct ChannelOverride {
    pub channel_id: u128,
    pub role_id: u128,
    pub permission_key: String,
    pub denied: bool,
}

/// The features switched on in a channel, as permission resolution sees them.
#[derive(Debug, Clone, Copy, PartialEq, Eq, Structural)]
pub struct ChannelFeatureFlags {
    pub text_enabled: bool,
    pub send_file_enabled: bool,
    pub voice_group_enabled: bool,
    pub video_group_enabled: bool,
}

impl Default for ChannelFeatureFlags {
    /// A channel without stored flags allows text and files, but neither
    /// voice nor video.
    fn default() -> (f: Self)
        ensures
            f.text_enabled,
            f.send_file_enabled,
            !f.voice_group_enabled,
            !f.video_group_enabled,
    {
        ChannelFeatureFlags {
            text_enabled: true,
            send_file_enabled: true,
            voice_group_enabled: false,
            video_group_enabled: false,
        }
    }
}

/// The fields of a channel that permission checks look up.
pub struct Channel {
    pub id: u128,
    pub space_id: u128,
    pub name: String,
    pub slug: String,
    pub kind: String,
    pub visibility: String,
}

} // verus!
