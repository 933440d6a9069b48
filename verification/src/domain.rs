//! Domain values: the kinds and visibilities of channels and spaces, the
//! states of users, and the requests that create or change them.

use vstd::prelude::*;
use crate::text::str_equal;

verus! {

// ---------------------------------------------------------------------------
// Channels

/// What a channel carries.
#[derive(Debug, Clone, Copy, PartialEq, Eq, Structural)]
pub enum ChannelKind {
    Text,
    Voice,
    Video,
}

pub open spec fn channel_kind_name(k: ChannelKind) -> Seq<char> {
    match k {
        ChannelKind::Text => "text"@,
        ChannelKind::Voice => "voice"@,
        ChannelKind::Video => "video"@,
    }
}

/// The channel kind with the given name, if any.
pub open spec fn channel_kind_named(s: Seq<char>) -> Option<ChannelKind> {
    if s == "text"@ {
        Some(ChannelKind::Text)
    } else if s == "voice"@ {
        Some(ChannelKind::Voice)
    } else if s == "video"@ {
        Some(ChannelKind::Video)
    } else {
        None
    }
}

impl ChannelKind {
    /// The kind as it is displayed and stored.
    pub fn as_str(&self) -> (s: &'static str)
        ensures
            s@ == channel_kind_name(*self),
    {
        match self {
            ChannelKind::Text => "text",
            ChannelKind::Voice => "voice",
            ChannelKind::Video => "video",
        }
    }

    /// Reads a stored kind.
    pub fn parse(s: &str) -> (r: Option<ChannelKind>)
        ensures
            r == channel_kind_named(s@),
    {
        if str_equal(s, "text") {
            Some(ChannelKind::Text)
        } else if str_equal(s, "voice") {
            Some(ChannelKind::Voice)
        } else if str_equal(s, "video") {
            Some(ChannelKind::Video)
        } else {
            None
        }
    }
}

impl Default for ChannelKind {
    fn default() -> (k: Self)
        ensures
            k == ChannelKind::Text,
    {
        ChannelKind::Text
    }
}

/// Who can see a channel.
#[derive(Debug, Clone, Copy, PartialEq, Eq, Structural)]
pub enum ChannelVisibility {
    Public,
    Private,
}

pub open spec fn channel_visibility_name(v: ChannelVisibility) -> Seq<char> {
    match v {
        ChannelVisibility::Public => "public"@,
        ChannelVisibility::Private => "private"@,
    }
}

pub open spec fn channel_visibility_named(s: Seq<char>) -> Option<ChannelVisibility> {
    if s == "public"@ {
        Some(ChannelVisibility::Public)
    } else if s == "private"@ {
        Some(ChannelVisibility::Private)
    } else {
        None
    }
}

impl ChannelVisibility {
    /// The stored name.
    pub fn as_str(&self) -> (s: &'static str)
        ensures
            s@ == channel_visibility_name(*self),
    {
        match self {
            ChannelVisibility::Public => "public",
            ChannelVisibility::Private => "private",
        }
    }

    /// The value a stored name stands for, if any.
    pub fn parse(s: &str) -> (r: Option<ChannelVisibility>)
        ensures
            r == channel_visibility_named(s@),
    {
        if str_equal(s, "public") {
            Some(ChannelVisibility::Public)
        } else if str_equal(s, "private") {
            Some(ChannelVisibility::Private)
        } else {
            None
        }
    }
}

impl Default for ChannelVisibility {
    fn default() -> (v: Self)
        ensures
            v == ChannelVisibility::Public,
    {
        ChannelVisibility::Public
    }
}

/// The kind a new channel gets: the requested one when it is a known kind,
/// text otherwise.
pub fn channel_kind_or_default(requested: Option<&str>) -> (k: ChannelKind)
    ensures
        k == (match requested {
            Some(s) => match channel_kind_named(s@) {
                Some(k) => k,
                None => ChannelKind::Text,
            },
            None => ChannelKind::Text,
        }),
{
    match requested {
        Some(s) => match ChannelKind::parse(s) {
            Some(k) => k,
            None => ChannelKind::default(),
        },
        None => ChannelKind::default(),
    }
}

/// The visibility a new channel gets: the requested one when it is known,
/// public otherwise.
pub fn channel_visibility_or_default(requested: Option<&str>) -> (v: ChannelVisibility)
    ensures
        v == (match requested {
            Some(s) => match channel_visibility_named(s@) {
                Some(v) => v,
                None => ChannelVisibility::Public,
            },
            None => ChannelVisibility::Public,
        }),
{
    match requested {
        Some(s) => match ChannelVisibility::parse(s) {
            Some(v) => v,
            None => ChannelVisibility::default(),
        },
        None => ChannelVisibility::default(),
    }
}

/// The feature switches of a channel.
#[derive(Debug, Clone, Copy, PartialEq, Eq, Structural)]
pub struct ChannelFeatureFlags {
    pub id: u128,
    pub channel_id: u128,
    pub text_enabled: bool,
    pub file_upload_enabled: bool,
    pub voice_group_enabled: bool,
    pub video_group_enabled: bool,
    pub threads_enabled: bool,
    pub reactions_enabled: bool,
}

impl Default for ChannelFeatureFlags {
    /// Fresh switches: text, files, threads and reactions on; voice and video
    /// off; a new identifier and no channel yet.
    fn default() -> (f: Self)
        ensures
            f.channel_id == 0,
            f.text_enabled,
            f.file_upload_enabled,
            !f.voice_group_enabled,
            !f.video_group_enabled,
            f.threads_enabled,
            f.reactions_enabled,
            crate::ids::version_of(f.id) == 7,
    {
        ChannelFeatureFlags {
            id: crate::ids::now_v7(),
            channel_id: 0,
            text_enabled: true,
            file_upload_enabled: true,
            voice_group_enabled: false,
            video_group_enabled: false,
            threads_enabled: true,
            reactions_enabled: true,
        }
    }
}

/// A request to change a channel; absent fields stay as they are.
#[derive(Debug)]
pub struct UpdateChannel {
    pub name: Option<String>,
    pub topic: Option<String>,
    pub visibility: Option<String>,
    pub feature_flags: Option<ChannelFeatureFlagsUpdate>,
}

/// A request to change some feature switches of a channel.
#[derive(Debug, Clone, Copy)]
pub struct ChannelFeatureFlagsUpdate {
    pub text_enabled: Option<bool>,
    pub file_upload_enabled: Option<bool>,
    pub voice_group_enabled: Option<bool>,
    pub video_group_enabled: Option<bool>,
    pub threads_enabled: Option<bool>,
    pub reactions_enabled: Option<bool>,
}

/// A request to create a channel.
#[derive(Debug)]
pub struct CreateChannel {
    pub name: String,
    pub parent_id: Option<u128>,
    pub kind: Option<String>,
    pub visibility: Option<String>,
    pub topic: Option<String>,
}

/// The position of a new channel: after the last one among its siblings,
/// or first when it has none. `None` when the last position is the
/// largest one, after which there is no room.
pub fn next_position(last: Option<i32>) -> (p: Option<i32>)
    ensures
        match last {
            Some(m) => if m < i32::MAX { p == Some((m + 1) as i32) } else { p is None },
            None => p == Some(1i32),
        },
{
    match last {
        Some(m) => if m < i32::MAX { Some(m + 1) } else { None },
        None => Some(1),
    }
}

// ---------------------------------------------------------------------------
// Spaces

/// Who can see a space.
#[derive(Debug, Clone, Copy, PartialEq, Eq, Structural)]
pub enum SpaceVisibility {
    Public,
    Private,
}

pub open spec fn space_visibility_name(v: SpaceVisibility) -> Seq<char> {
    match v {
        SpaceVisibility::Public => "public"@,
        SpaceVisibility::Private => "private"@,
    }
}

pub open spec fn space_visibility_named(s: Seq<char>) -> Option<SpaceVisibility> {
    if s == "public"@ {
        Some(SpaceVisibility::Public)
    } else if s == "private"@ {
        Some(SpaceVisibility::Private)
    } else {
        None
    }
}

impl SpaceVisibility {
    /// The stored name.
    pub fn as_str(&self) -> (s: &'static str)
        ensures
            s@ == space_visibility_name(*self),
    {
        match self {
            SpaceVisibility::Public => "public",
            SpaceVisibility::Private => "private",
        }
    }

    /// The value a stored name stands for, if any.
    pub fn parse(s: &str) -> (r: Option<SpaceVisibility>)
        ensures
            r == space_visibility_named(s@),
    {
        if str_equal(s, "public") {
            Some(SpaceVisibility::Public)
        } else if str_equal(s, "private") {
            Some(SpaceVisibility::Private)
        } else {
            None
        }
    }
}

impl Default for SpaceVisibility {
    /// Spaces are private unless asked otherwise.
    fn default() -> (v: Self)
        ensures
            v == SpaceVisibility::Private,
    {
        SpaceVisibility::Private
    }
}

/// The visibility a new space gets: the requested one when it is known,
/// private otherwise.
pub fn space_visibility_or_default(requested: Option<&str>) -> (v: SpaceVisibility)
    ensures
        v == (match requested {
            Some(s) => match space_visibility_named(s@) {
                Some(v) => v,
                None => SpaceVisibility::Private,
            },
            None => SpaceVisibility::Private,
        }),
{
    match requested {
        Some(s) => match SpaceVisibility::parse(s) {
            Some(v) => v,
            None => SpaceVisibility::default(),
        },
        None => SpaceVisibility::default(),
    }
}

/// A request to create a space.
#[derive(Debug)]
pub struct CreateSpace {
    pub name: String,
    pub description: Option<String>,
    pub visibility: Option<String>,
}

/// A request to change a space; absent fields stay as they are.
#[derive(Debug)]
pub struct UpdateSpace {
    pub name: Option<String>,
    pub description: Option<String>,
    pub visibility: Option<String>,
}

// ---------------------------------------------------------------------------
// Users, messages and roles

/// The state of a user account.
#[derive(Debug, Clone, Copy, PartialEq, Eq, Structural)]
pub enum UserStatus {
    Pending,
    Active,
    Suspended,
    Deleted,
}

pub open spec fn user_status_name(s: UserStatus) -> Seq<char> {
    match s {
        UserStatus::Pending => "pending"@,
        UserStatus::Active => "active"@,
        UserStatus::Suspended => "suspended"@,
        UserStatus::Deleted => "deleted"@,
    }
}

pub open spec fn user_status_named(s: Seq<char>) -> Option<UserStatus> {
    if s == "pending"@ {
        Some(UserStatus::Pending)
    } else if s == "active"@ {
        Some(UserStatus::Active)
    } else if s == "suspended"@ {
        Some(UserStatus::Suspended)
    } else if s == "deleted"@ {
        Some(UserStatus::Deleted)
    } else {
        None
    }
}

impl UserStatus {
    /// The stored name.
    pub fn as_str(&self) -> (s: &'static str)
        ensures
            s@ == user_status_name(*self),
    {
        match self {
            UserStatus::Pending => "pending",
            UserStatus::Active => "active",
            UserStatus::Suspended => "suspended",
            UserStatus::Deleted => "deleted",
        }
    }

    /// The value a stored name stands for, if any.
    pub fn parse(s: &str) -> (r: Option<UserStatus>)
        ensures
            r == user_status_named(s@),
    {
        if str_equal(s, "pending") {
            Some(UserStatus::Pending)
        } else if str_equal(s, "active") {
            Some(UserStatus::Active)
        } else if str_equal(s, "suspended") {
            Some(UserStatus::Suspended)
        } else if str_equal(s, "deleted") {
            Some(UserStatus::Deleted)
        } else {
            None
        }
    }

    /// The status of a stored user: an unknown stored value counts as pending.
    pub fn from_stored(s: &str) -> (r: UserStatus)
        ensures
            r == (match user_status_named(s@) {
                Some(st) => st,
                None => UserStatus::Pending,
            }),
    {
        match UserStatus::parse(s) {
            Some(st) => st,
            None => UserStatus::Pending,
        }
    }
}

/// The device a client logs in from.
#[derive(Debug, Clone)]
pub struct ClientInfo {
    pub client_type: String,
    pub platform: Option<String>,
    pub device_name: Option<String>,
}

/// A user's public profile.
#[derive(Debug)]
pub struct UserProfile {
    pub id: u128,
    pub user_id: u128,
    pub display_name: Option<String>,
    pub avatar_object_id: Option<u128>,
    pub bio: Option<String>,
    pub settings: crate::theme::Settings,
}

impl Default for UserProfile {
    /// A blank profile: a new identifier, no user yet, nothing filled in and
    /// empty settings.
    fn default() -> (p: Self)
        ensures
            p.user_id == 0,
            p.display_name is None,
            p.avatar_object_id is None,
            p.bio is None,
            p.settings@ == Map::<Seq<char>, crate::theme::SettingView>::empty(),
            crate::ids::version_of(p.id) == 7,
    {
        UserProfile {
            id: crate::ids::now_v7(),
            user_id: 0,
            display_name: None,
            avatar_object_id: None,
            bio: None,
            settings: crate::theme::Settings::empty(),
        }
    }
}

/// A request to edit a message.
#[derive(Debug)]
pub struct UpdateMessage {
    pub content: Option<String>,
}

/// A request to create a role with some permissions.
#[derive(Debug)]
pub struct CreateRoleRequest {
    pub name: String,
    pub permission_keys: Vec<String>,
}

/// A request to rename a role or replace its permissions.
#[derive(Debug)]
pub struct UpdateRoleRequest {
    pub name: Option<String>,
    pub permission_keys: Option<Vec<String>>,
}


// ---------------------------------------------------------------------------
// Names read back

/// Reading back the stored name of a channel kind gives the kind.
pub proof fn lemma_channel_kind_name_round_trip(k: ChannelKind)
    ensures
        channel_kind_named(channel_kind_name(k)) == Some(k),
{
    reveal_strlit("text");
    reveal_strlit("voice");
    reveal_strlit("video");
    assert("voice"@.len() == 5);
    assert("text"@.len() == 4);
    assert("video"@[1] == 'i');
    assert("voice"@[1] == 'o');
}

/// A name that reads as a channel kind is that kind's stored name.
pub proof fn lemma_channel_kind_named_is_name(s: Seq<char>)
    ensures
        channel_kind_named(s) matches Some(k) ==> channel_kind_name(k) == s,
{
}

/// Reading back the stored name of a channel visibility gives the visibility.
pub proof fn lemma_channel_visibility_name_round_trip(v: ChannelVisibility)
    ensures
        channel_visibility_named(channel_visibility_name(v)) == Some(v),
{
    reveal_strlit("public");
    reveal_strlit("private");
    assert("public"@.len() == 6);
    assert("private"@.len() == 7);
}

/// A name that reads as a channel visibility is that visibility's name.
pub proof fn lemma_channel_visibility_named_is_name(s: Seq<char>)
    ensures
        channel_visibility_named(s) matches Some(v) ==> channel_visibility_name(v) == s,
{
}

/// Reading back the stored name of a space visibility gives the visibility.
pub proof fn lemma_space_visibility_name_round_trip(v: SpaceVisibility)
    ensures
        space_visibility_named(space_visibility_name(v)) == Some(v),
{
    reveal_strlit("public");
    reveal_strlit("private");
    assert("public"@.len() == 6);
    assert("private"@.len() == 7);
}

/// A name that reads as a space visibility is that visibility's name.
pub proof fn lemma_space_visibility_named_is_name(s: Seq<char>)
    ensures
        space_visibility_named(s) matches Some(v) ==> space_visibility_name(v) == s,
{
}

/// Reading back the stored name of a user status gives the status.
pub proof fn lemma_user_status_name_round_trip(st: UserStatus)
    ensures
        user_status_named(user_status_name(st)) == Some(st),
{
    reveal_strlit("pending");
    reveal_strlit("active");
    reveal_strlit("suspended");
    reveal_strlit("deleted");
    assert("pending"@.len() == 7);
    assert("active"@.len() == 6);
    assert("suspended"@.len() == 9);
    assert("deleted"@.len() == 7);
    assert("pending"@[0] == 'p');
    assert("deleted"@[0] == 'd');
}

/// A name that reads as a user status is that status's name.
pub proof fn lemma_user_status_named_is_name(s: Seq<char>)
    ensures
        user_status_named(s) matches Some(st) ==> user_status_name(st) == s,
{
}

} // verus!
