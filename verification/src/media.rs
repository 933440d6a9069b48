//! Voice and video calls: which calls a channel allows, the permission each
//! needs, and the room a call takes place in.

use vstd::prelude::*;
use crate::auth::AuthUser;
use crate::config::LiveKitConfig;
use crate::domain::{channel_kind_name, ChannelFeatureFlags, ChannelKind};
use crate::error::{AppError, ErrorView};
use crate::ids::{hyphenated, push_uuid, uuid_parse};
use crate::permissions::keys::{key_name, PermissionKey};
use crate::permissions::repository::ChannelFeatureFlags as FeatureSwitches;
use crate::permissions::resolver::feature_allows;
use crate::permissions::resolver::{Decision, PermissionResult};
use crate::permissions::service::PermissionRequest;
use crate::text::{push_str, str_equal};

verus! {

/// A request for a call token.
#[derive(Debug)]
pub struct MediaTokenRequest {
    pub mode: String,
    pub intent: String,
    pub client_type: Option<String>,
}

/// A call token and where to use it.
#[derive(Debug)]
pub struct MediaTokenResponse {
    pub provider: String,
    pub url: String,
    pub room: String,
    pub token: String,
}

/// How long a call token is valid, in seconds.
pub const MEDIA_TOKEN_TTL_SECS: u64 = 300;

/// The kind of call.
#[derive(Debug, Clone, Copy, PartialEq, Eq, Structural)]
pub enum MediaMode {
    Voice,
    Video,
}

/// Whether the caller joins or starts the call.
#[derive(Debug, Clone, Copy, PartialEq, Eq, Structural)]
pub enum MediaIntent {
    Join,
    Start,
}

/// What a token request asks for, once read.
#[derive(Debug, Clone, Copy, PartialEq, Eq, Structural)]
pub struct MediaPlan {
    pub mode: MediaMode,
    pub intent: MediaIntent,
}

pub open spec fn mode_named(s: Seq<char>) -> Option<MediaMode> {
    if s == "voice"@ {
        Some(MediaMode::Voice)
    } else if s == "video"@ {
        Some(MediaMode::Video)
    } else {
        None
    }
}

pub open spec fn intent_named(s: Seq<char>) -> Option<MediaIntent> {
    if s == "join"@ {
        Some(MediaIntent::Join)
    } else if s == "start"@ {
        Some(MediaIntent::Start)
    } else {
        None
    }
}

/// Reads a token request: calls must be configured, the mode must be voice
/// or video, and the intent join or start.
pub fn plan_media_token(enabled: bool, mode: &str, intent: &str) -> (r: Result<MediaPlan, AppError>)
    ensures
        !enabled ==> r is Err && r->Err_0@ == ErrorView::ServiceUnavailable("LiveKit is not configured"@),
        enabled && mode_named(mode@) is None ==> r is Err && r->Err_0@ == ErrorView::BadRequest(
            "mode must be 'voice' or 'video'"@,
        ),
        enabled && mode_named(mode@) is Some && intent_named(intent@) is None ==> r is Err && r->Err_0@
            == ErrorView::BadRequest("intent must be 'join' or 'start'"@),
        enabled && mode_named(mode@) is Some && intent_named(intent@) is Some ==> r == Ok::<MediaPlan, AppError>(
            MediaPlan { mode: mode_named(mode@)->0, intent: intent_named(intent@)->0 },
        ),
{
    if !enabled {
        return Err(AppError::ServiceUnavailable("LiveKit is not configured".to_owned()));
    }
    let m = if str_equal(mode, "voice") {
        MediaMode::Voice
    } else if str_equal(mode, "video") {
        MediaMode::Video
    } else {
        return Err(crate::error::bad_request("mode must be 'voice' or 'video'"));
    };
    let i = if str_equal(intent, "join") {
        MediaIntent::Join
    } else if str_equal(intent, "start") {
        MediaIntent::Start
    } else {
        return Err(crate::error::bad_request("intent must be 'join' or 'start'"));
    };
    Ok(MediaPlan { mode: m, intent: i })
}

pub open spec fn mode_kind(m: MediaMode) -> ChannelKind {
    match m {
        MediaMode::Voice => ChannelKind::Voice,
        MediaMode::Video => ChannelKind::Video,
    }
}

pub open spec fn mode_name(m: MediaMode) -> Seq<char> {
    match m {
        MediaMode::Voice => "voice"@,
        MediaMode::Video => "video"@,
    }
}

fn mode_str(m: MediaMode) -> (s: &'static str)
    ensures
        s@ == mode_name(m),
{
    match m {
        MediaMode::Voice => "voice",
        MediaMode::Video => "video",
    }
}

/// A call needs a channel of its own kind.
pub fn check_channel_kind(plan: MediaPlan, kind: ChannelKind) -> (r: Result<(), AppError>)
    ensures
        r is Ok <==> kind == mode_kind(plan.mode),
        r is Err ==> r->Err_0@ == ErrorView::BadRequest(
            "Channel is a "@ + channel_kind_name(kind) + " channel, not a "@ + mode_name(plan.mode) + " channel"@,
        ),
{
    let expected = match plan.mode {
        MediaMode::Voice => ChannelKind::Voice,
        MediaMode::Video => ChannelKind::Video,
    };
    if kind != expected {
        let mut m = "Channel is a ".to_owned();
        push_str(&mut m, kind.as_str());
        push_str(&mut m, " channel, not a ");
        push_str(&mut m, mode_str(plan.mode));
        push_str(&mut m, " channel");
        return Err(AppError::BadRequest(m));
    }
    Ok(())
}

/// A call needs its feature switched on in the channel.
pub fn check_media_feature(plan: MediaPlan, flags: &ChannelFeatureFlags) -> (r: Result<(), AppError>)
    ensures
        r is Ok <==> match plan.mode {
            MediaMode::Voice => flags.voice_group_enabled,
            MediaMode::Video => flags.video_group_enabled,
        },
        r is Err ==> r->Err_0@ == ErrorView::Forbidden(mode_name(plan.mode) + " is not enabled in this channel"@),
{
    let enabled = match plan.mode {
        MediaMode::Voice => flags.voice_group_enabled,
        MediaMode::Video => flags.video_group_enabled,
    };
    if !enabled {
        let mut m = mode_str(plan.mode).to_owned();
        push_str(&mut m, " is not enabled in this channel");
        return Err(AppError::Forbidden(m));
    }
    Ok(())
}

pub open spec fn required_permission(plan: MediaPlan) -> PermissionKey {
    match (plan.mode, plan.intent) {
        (MediaMode::Voice, MediaIntent::Join) => PermissionKey::JoinVoice,
        (MediaMode::Voice, MediaIntent::Start) => PermissionKey::StartVoice,
        (MediaMode::Video, MediaIntent::Join) => PermissionKey::JoinVideo,
        (MediaMode::Video, MediaIntent::Start) => PermissionKey::StartVideo,
    }
}

/// The permission a call needs: to join or to start a call of its kind.
pub fn media_permission(plan: MediaPlan) -> (k: PermissionKey)
    ensures
        k == required_permission(plan),
{
    match (plan.mode, plan.intent) {
        (MediaMode::Voice, MediaIntent::Join) => PermissionKey::JoinVoice,
        (MediaMode::Voice, MediaIntent::Start) => PermissionKey::StartVoice,
        (MediaMode::Video, MediaIntent::Join) => PermissionKey::JoinVideo,
        (MediaMode::Video, MediaIntent::Start) => PermissionKey::StartVideo,
    }
}

/// Starting a call also asks whether the caller may start one, which makes
/// the caller the room's admin; joining asks nothing more.
pub fn start_permission(plan: MediaPlan) -> (k: Option<PermissionKey>)
    ensures
        k == match plan.intent {
            MediaIntent::Join => None,
            MediaIntent::Start => Some(
                match plan.mode {
                    MediaMode::Voice => PermissionKey::StartVoice,
                    MediaMode::Video => PermissionKey::StartVideo,
                },
            ),
        },
{
    match plan.intent {
        MediaIntent::Join => None,
        MediaIntent::Start => Some(
            match plan.mode {
                MediaMode::Voice => PermissionKey::StartVoice,
                MediaMode::Video => PermissionKey::StartVideo,
            },
        ),
    }
}

/// The room of a channel's calls.
pub fn room_name(space_id: u128, channel_id: u128) -> (r: String)
    ensures
        r@ == "space-"@ + hyphenated(space_id) + "-channel-"@ + hyphenated(channel_id),
{
    let mut r = "space-".to_owned();
    push_uuid(&mut r, space_id);
    push_str(&mut r, "-channel-");
    push_uuid(&mut r, channel_id);
    r
}

/// The answer to a token request.
pub fn livekit_response(url: String, room: String, token: String) -> (r: MediaTokenResponse)
    ensures
        r.provider@ == "livekit"@,
        r.url == url,
        r.room == room,
        r.token == token,
{
    MediaTokenResponse { provider: "livekit".to_owned(), url, room, token }
}

/// What is handed to LiveKit's token builder: the server's key and secret,
/// the caller's identity, the room, the grants and the lifetime.
#[derive(Debug)]
pub struct LiveKitTokenRequest {
    pub api_key: String,
    pub api_secret: String,
    pub identity: String,
    pub room: String,
    pub room_join: bool,
    pub can_publish: bool,
    pub can_subscribe: bool,
    pub room_admin: bool,
    pub ttl_secs: u64,
}

/// The token request for the user in the channel's room: identified by the
/// user's hyphenated UUID, granted to join, publish and subscribe, to
/// administer the room when `room_admin`, for `MEDIA_TOKEN_TTL_SECS`.
pub open spec fn requests(
    q: LiveKitTokenRequest,
    config: LiveKitConfig,
    user_id: u128,
    space_id: u128,
    channel_id: u128,
    room_admin: bool,
) -> bool {
    &&& q.api_key@ == config.api_key@
    &&& q.api_secret@ == config.api_secret@
    &&& q.identity@ == hyphenated(user_id)
    &&& q.room@ == "space-"@ + hyphenated(space_id) + "-channel-"@ + hyphenated(channel_id)
    &&& q.room_join && q.can_publish && q.can_subscribe
    &&& q.room_admin == room_admin
    &&& q.ttl_secs == MEDIA_TOKEN_TTL_SECS
}

/// Builds the token request for the user in the channel's room.
pub fn media_token_request(
    config: &LiveKitConfig,
    user_id: u128,
    space_id: u128,
    channel_id: u128,
    room_admin: bool,
) -> (q: LiveKitTokenRequest)
    ensures
        requests(q, *config, user_id, space_id, channel_id, room_admin),
{
    LiveKitTokenRequest {
        api_key: config.api_key.clone(),
        api_secret: config.api_secret.clone(),
        identity: crate::ids::uuid_to_string(user_id),
        room: room_name(space_id, channel_id),
        room_join: true,
        can_publish: true,
        can_subscribe: true,
        room_admin,
        ttl_secs: MEDIA_TOKEN_TTL_SECS,
    }
}

/// Whether LiveKit's encoder accepts a token request: a key and a secret,
/// and an identity and a room when the grant joins a room.
pub open spec fn token_request_accepted(q: LiveKitTokenRequest) -> bool {
    q.api_key@.len() > 0 && q.api_secret@.len() > 0 && (q.room_join ==> q.identity@.len() > 0 && q.room@.len() > 0)
}

/// The JWT that LiveKit's `AccessToken::to_jwt` makes (HS256 with the secret)
/// of the claims: issuer `api_key`, subject `identity`, a video grant to
/// `room` with the four switches, not before `nbf` and expiring at `exp`
/// (seconds since the epoch), every other claim left at its default.
pub uninterp spec fn livekit_jwt(
    api_key: Seq<char>,
    api_secret: Seq<char>,
    identity: Seq<char>,
    room: Seq<char>,
    room_join: bool,
    can_publish: bool,
    can_subscribe: bool,
    room_admin: bool,
    nbf: u64,
    exp: u64,
) -> Seq<char>;

/// Whether `t` is LiveKit's JWT of the request, issued at some time `nbf`
/// and expiring `ttl_secs` after some (later or equal) reading of the clock.
pub open spec fn livekit_token_of(q: LiveKitTokenRequest, t: Seq<char>) -> bool {
    exists|nbf: u64, now: u64|
        now + q.ttl_secs <= u64::MAX && t == #[trigger] livekit_jwt(
            q.api_key@,
            q.api_secret@,
            q.identity@,
            q.room@,
            q.room_join,
            q.can_publish,
            q.can_subscribe,
            q.room_admin,
            nbf,
            (now + q.ttl_secs) as u64,
        )
}

/// `livekit_api::access_token::AccessToken`, built with `with_api_key`,
/// `with_identity`, `with_ttl` and `with_grants` from the request, then
/// encoded by `to_jwt`. Claimed, as the source shows: `to_jwt` refuses an
/// empty key or secret, and an empty identity or room when the grant joins a
/// room; otherwise it encodes (HS256 with an HMAC key, which cannot fail)
/// the claims of the request, with `nbf` the clock's reading in
/// `with_api_key` and `exp` that of `with_ttl` plus the lifetime. The clock
/// readings are left open. `with_ttl` adds the lifetime to the clock, which
/// panics on overflow: hence the bound on `ttl_secs`. The builder also
/// expects a clock set after 1970.
#[verifier::external_body]
fn livekit_access_token(q: &LiveKitTokenRequest) -> (r: Result<String, String>)
    requires
        q.ttl_secs <= 0xFFFF_FFFF,
    ensures
        (r is Ok) == token_request_accepted(*q),
        r is Ok ==> exists|nbf: u64, now: u64|
            now + q.ttl_secs <= u64::MAX && r->Ok_0@ == #[trigger] livekit_jwt(
                q.api_key@,
                q.api_secret@,
                q.identity@,
                q.room@,
                q.room_join,
                q.can_publish,
                q.can_subscribe,
                q.room_admin,
                nbf,
                (now + q.ttl_secs) as u64,
            ),
{
    let grants = livekit_api::access_token::VideoGrants {
        room_join: q.room_join,
        room: q.room.clone(),
        can_publish: Some(q.can_publish),
        can_subscribe: Some(q.can_subscribe),
        room_admin: q.room_admin,
        ..Default::default()
    };
    livekit_api::access_token::AccessToken::with_api_key(&q.api_key, &q.api_secret)
        .with_identity(&q.identity)
        .with_ttl(std::time::Duration::from_secs(q.ttl_secs))
        .with_grants(grants)
        .to_jwt()
        .map_err(|e| e.to_string())
}

/// Encodes a token request and answers with the token, the server's
/// address and the room; the encoder's refusal is an internal error.
pub fn encode_media_token(url: &String, q: &LiveKitTokenRequest) -> (r: Result<MediaTokenResponse, AppError>)
    requires
        q.ttl_secs <= 0xFFFF_FFFF,
    ensures
        (r is Ok) == token_request_accepted(*q),
        r matches Ok(resp) ==> resp.provider@ == "livekit"@ && resp.url@ == url@ && resp.room@ == q.room@
            && livekit_token_of(*q, resp.token@),
        r matches Err(e) ==> e@ is InternalServerError,
{
    let token = livekit_access_token(q);
    media_token_outcome(url.clone(), q.room.clone(), token)
}

/// The answer to a token request once the token is encoded: the token with
/// the server's address and the room, or the encoder's error as an internal
/// error.
pub fn media_token_outcome(url: String, room: String, token: Result<String, String>) -> (r: Result<MediaTokenResponse, AppError>)
    ensures
        match token {
            Ok(t) => r matches Ok(resp) && resp.provider@ == "livekit"@ && resp.url == url && resp.room == room
                && resp.token == t,
            Err(e) => r is Err && r->Err_0@ == ErrorView::InternalServerError(
                "Failed to generate LiveKit token: "@ + e@,
            ),
        },
{
    match token {
        Ok(t) => Ok(livekit_response(url, room, t)),
        Err(e) => {
            let mut m = "Failed to generate LiveKit token: ".to_owned();
            push_str(&mut m, e.as_str());
            Err(AppError::InternalServerError(m))
        },
    }
}

/// A call token for the user in the channel's room, valid for
/// `MEDIA_TOKEN_TTL_SECS`; the starter of a call administers the room. It is
/// issued exactly when the key and secret of the configuration are not
/// empty; otherwise the refusal is an internal error.
pub fn issue_media_token(
    config: &LiveKitConfig,
    user_id: u128,
    space_id: u128,
    channel_id: u128,
    room_admin: bool,
) -> (r: Result<MediaTokenResponse, AppError>)
    ensures
        issued(*config, space_id, channel_id, r),
        r matches Ok(resp) ==> token_for(*config, user_id, space_id, channel_id, room_admin, resp.token@),
{
    let q = media_token_request(config, user_id, space_id, channel_id, room_admin);
    proof {
        crate::ids::lemma_hyphenated_len(user_id);
    }
    encode_media_token(&config.url, &q)
}


// ---------------------------------------------------------------------------
// A token request, step by step

/// What a token request waits for.
#[derive(Debug, Clone, Copy, PartialEq, Eq, Structural)]
pub enum MediaStage {
    AwaitChannel,
    AwaitFlags,
    AwaitPermission,
    AwaitStartPermission,
    Finished,
}

/// What a token request needs next.
#[derive(Debug)]
pub enum MediaStep {
    /// Look the channel up, for its space and kind.
    LookupChannel { channel_id: u128 },
    /// Read the channel's feature switches.
    LoadFeatureFlags { channel_id: u128 },
    /// Check a permission that must be granted.
    RequirePermission(PermissionRequest),
    /// Ask whether a permission is granted.
    AskPermission(PermissionRequest),
    /// The answer to the request.
    Done(Result<MediaTokenResponse, AppError>),
}

/// The state of a token request.
pub struct MediaFlowView {
    pub config: LiveKitConfig,
    pub user_id: u128,
    pub channel_id: u128,
    pub space_id: u128,
    pub plan: MediaPlan,
    pub stage: MediaStage,
    pub request: Option<LiveKitTokenRequest>,
}

/// A token request in progress.
pub struct MediaTokenFlow {
    config: LiveKitConfig,
    user_id: u128,
    channel_id: u128,
    space_id: u128,
    plan: MediaPlan,
    stage: MediaStage,
    request: Option<LiveKitTokenRequest>,
}

impl View for MediaTokenFlow {
    type V = MediaFlowView;

    closed spec fn view(&self) -> MediaFlowView {
        MediaFlowView {
            config: self.config,
            user_id: self.user_id,
            channel_id: self.channel_id,
            space_id: self.space_id,
            plan: self.plan,
            stage: self.stage,
            request: self.request,
        }
    }
}

/// What issuing the token answers: a LiveKit token for the channel's room,
/// exactly when the key and secret are not empty, or else an internal error.
pub open spec fn issued(
    config: LiveKitConfig,
    space_id: u128,
    channel_id: u128,
    r: Result<MediaTokenResponse, AppError>,
) -> bool {
    &&& r matches Ok(resp) ==> resp.provider@ == "livekit"@ && resp.url@ == config.url@ && resp.room@ == "space-"@
        + hyphenated(space_id) + "-channel-"@ + hyphenated(channel_id)
    &&& r matches Err(e) ==> e@ is InternalServerError
    &&& (r is Ok) == (config.api_key@.len() > 0 && config.api_secret@.len() > 0)
}

/// Whether `t` is the call token for the user in the channel's room:
/// LiveKit's JWT identifying the user by the hyphenated UUID, granting to
/// join, publish and subscribe, to administer the room when `room_admin`,
/// and expiring `MEDIA_TOKEN_TTL_SECS` after a reading of the clock.
pub open spec fn token_for(
    config: LiveKitConfig,
    user_id: u128,
    space_id: u128,
    channel_id: u128,
    room_admin: bool,
    t: Seq<char>,
) -> bool {
    exists|nbf: u64, now: u64|
        now + MEDIA_TOKEN_TTL_SECS <= u64::MAX && t == #[trigger] livekit_jwt(
            config.api_key@,
            config.api_secret@,
            hyphenated(user_id),
            "space-"@ + hyphenated(space_id) + "-channel-"@ + hyphenated(channel_id),
            true,
            true,
            true,
            room_admin,
            nbf,
            (now + MEDIA_TOKEN_TTL_SECS) as u64,
        )
}

/// The request ends with the token for its user and channel, administering
/// the room when `room_admin` (or with the issuer's refusal).
pub open spec fn answers_token_for(step: MediaStep, v: MediaFlowView, room_admin: bool) -> bool {
    &&& answers_token(step, v.config, v.space_id, v.channel_id)
    &&& step matches MediaStep::Done(Ok(resp)) ==> token_for(v.config, v.user_id, v.space_id, v.channel_id, room_admin, resp.token@)
}

/// The request ended by encoding the token request for the flow's user and
/// channel, administering the room when `room_admin`.
pub open spec fn encoded_for(v: MediaFlowView, room_admin: bool) -> bool {
    v.request matches Some(q) && requests(q, v.config, v.user_id, v.space_id, v.channel_id, room_admin)
}

/// The request ends with this error.
pub open spec fn fails_with(step: MediaStep, e: ErrorView) -> bool {
    step matches MediaStep::Done(Err(x)) && x@ == e
}

/// The request ends with the issued token (or the issuer's error).
pub open spec fn answers_token(step: MediaStep, config: LiveKitConfig, space_id: u128, channel_id: u128) -> bool {
    step matches MediaStep::Done(t) && issued(config, space_id, channel_id, t)
}

/// Whether the channel's switches allow calls of this kind.
pub open spec fn mode_enabled(m: MediaMode, flags: ChannelFeatureFlags) -> bool {
    match m {
        MediaMode::Voice => flags.voice_group_enabled,
        MediaMode::Video => flags.video_group_enabled,
    }
}

/// The permission that starting a call of this kind needs.
pub open spec fn start_key(m: MediaMode) -> PermissionKey {
    match m {
        MediaMode::Voice => PermissionKey::StartVoice,
        MediaMode::Video => PermissionKey::StartVideo,
    }
}

impl MediaTokenFlow {
    fn halted(config: LiveKitConfig, channel_id: u128) -> (f: MediaTokenFlow)
        ensures
            f@.stage == MediaStage::Finished,
            f@.config == config,
            f@.channel_id == channel_id,
    {
        MediaTokenFlow {
            config,
            user_id: 0,
            channel_id,
            space_id: 0,
            plan: MediaPlan { mode: MediaMode::Voice, intent: MediaIntent::Join },
            stage: MediaStage::Finished,
            request: None,
        }
    }

    /// Starts a token request for `user` in the channel: calls must be
    /// configured, the user's id must read as a UUID, the mode must be voice
    /// or video and the intent join or start, checked in that order; then
    /// the channel is looked up.
    pub fn start(config: LiveKitConfig, user: &AuthUser, request: &MediaTokenRequest, channel_id: u128) -> (r: (
        MediaTokenFlow,
        MediaStep,
    ))
        ensures
            r.0@.config == config,
            r.0@.channel_id == channel_id,
            !config.enabled ==> r.0@.stage == MediaStage::Finished && fails_with(
                r.1,
                ErrorView::ServiceUnavailable("LiveKit is not configured"@),
            ),
            config.enabled && uuid_parse(user.user_id@) is Err ==> r.0@.stage == MediaStage::Finished && fails_with(
                r.1,
                ErrorView::Unauthorized(uuid_parse(user.user_id@)->Err_0),
            ),
            config.enabled && uuid_parse(user.user_id@) is Ok && mode_named(request.mode@) is None ==> r.0@.stage
                == MediaStage::Finished && fails_with(r.1, ErrorView::BadRequest("mode must be 'voice' or 'video'"@)),
            config.enabled && uuid_parse(user.user_id@) is Ok && mode_named(request.mode@) is Some && intent_named(
                request.intent@,
            ) is None ==> r.0@.stage == MediaStage::Finished && fails_with(
                r.1,
                ErrorView::BadRequest("intent must be 'join' or 'start'"@),
            ),
            config.enabled && uuid_parse(user.user_id@) is Ok && mode_named(request.mode@) is Some && intent_named(
                request.intent@,
            ) is Some ==> {
                &&& r.0@.stage == MediaStage::AwaitChannel
                &&& r.0@.user_id == uuid_parse(user.user_id@)->Ok_0
                &&& r.0@.plan == MediaPlan {
                    mode: mode_named(request.mode@)->0,
                    intent: intent_named(request.intent@)->0,
                }
                &&& r.1 matches MediaStep::LookupChannel { channel_id: c } && c == channel_id
            },
    {
        if !config.enabled {
            let e = AppError::ServiceUnavailable("LiveKit is not configured".to_owned());
            return (Self::halted(config, channel_id), MediaStep::Done(Err(e)));
        }
        let user_id = match user.user_id_uuid() {
            Ok(u) => u,
            Err(e) => return (Self::halted(config, channel_id), MediaStep::Done(Err(e))),
        };
        let plan = match plan_media_token(true, request.mode.as_str(), request.intent.as_str()) {
            Ok(p) => p,
            Err(e) => return (Self::halted(config, channel_id), MediaStep::Done(Err(e))),
        };
        let flow = MediaTokenFlow {
            config,
            user_id,
            channel_id,
            space_id: 0,
            plan,
            stage: MediaStage::AwaitChannel,
            request: None,
        };
        (flow, MediaStep::LookupChannel { channel_id })
    }

    /// What the request waits for.
    pub fn stage(&self) -> (s: MediaStage)
        ensures
            s == self@.stage,
    {
        self.stage
    }

    /// Issues the token, administering the room when `room_admin`.
    fn finish(&mut self, room_admin: bool) -> (step: MediaStep)
        ensures
            final(self)@ == (MediaFlowView { stage: MediaStage::Finished, request: final(self)@.request, ..old(self)@ }),
            encoded_for(final(self)@, room_admin),
            answers_token_for(step, old(self)@, room_admin),
    {
        self.stage = MediaStage::Finished;
        let q = media_token_request(&self.config, self.user_id, self.space_id, self.channel_id, room_admin);
        proof {
            crate::ids::lemma_hyphenated_len(self.user_id);
        }
        let t = encode_media_token(&self.config.url, &q);
        self.request = Some(q);
        MediaStep::Done(t)
    }

    /// Takes the channel, as its space and kind: a call needs a channel of
    /// its own kind; then the channel's switches are read. A failed lookup
    /// is the answer.
    pub fn on_channel(&mut self, found: Result<(u128, ChannelKind), AppError>) -> (step: MediaStep)
        requires
            old(self)@.stage == MediaStage::AwaitChannel,
        ensures
            final(self)@.config == old(self)@.config,
            final(self)@.user_id == old(self)@.user_id,
            final(self)@.channel_id == old(self)@.channel_id,
            final(self)@.plan == old(self)@.plan,
            match found {
                Err(e) => final(self)@.stage == MediaStage::Finished && fails_with(step, e@),
                Ok((s, k)) => if k == mode_kind(old(self)@.plan.mode) {
                    &&& final(self)@.stage == MediaStage::AwaitFlags
                    &&& final(self)@.space_id == s
                    &&& step matches MediaStep::LoadFeatureFlags { channel_id: c } && c == old(self)@.channel_id
                } else {
                    &&& final(self)@.stage == MediaStage::Finished
                    &&& fails_with(
                        step,
                        ErrorView::BadRequest(
                            "Channel is a "@ + channel_kind_name(k) + " channel, not a "@ + mode_name(
                                old(self)@.plan.mode,
                            ) + " channel"@,
                        ),
                    )
                },
            },
    {
        match found {
            Err(e) => {
                self.stage = MediaStage::Finished;
                MediaStep::Done(Err(e))
            },
            Ok((space_id, kind)) => match check_channel_kind(self.plan, kind) {
                Err(e) => {
                    self.stage = MediaStage::Finished;
                    MediaStep::Done(Err(e))
                },
                Ok(()) => {
                    self.space_id = space_id;
                    self.stage = MediaStage::AwaitFlags;
                    MediaStep::LoadFeatureFlags { channel_id: self.channel_id }
                },
            },
        }
    }

    /// Takes the channel's switches: the call's feature must be on; then the
    /// permission to join or start the call is required. A failed read is
    /// the answer.
    pub fn on_flags(&mut self, flags: Result<ChannelFeatureFlags, AppError>) -> (step: MediaStep)
        requires
            old(self)@.stage == MediaStage::AwaitFlags,
        ensures
            final(self)@ == (MediaFlowView { stage: final(self)@.stage, ..old(self)@ }),
            match flags {
                Err(e) => final(self)@.stage == MediaStage::Finished && fails_with(step, e@),
                Ok(f) => if mode_enabled(old(self)@.plan.mode, f) {
                    &&& final(self)@.stage == MediaStage::AwaitPermission
                    &&& step matches MediaStep::RequirePermission(q) && q == (PermissionRequest {
                        user_id: old(self)@.user_id,
                        permission: required_permission(old(self)@.plan),
                        space_id: Some(old(self)@.space_id),
                        channel_id: Some(old(self)@.channel_id),
                    })
                } else {
                    &&& final(self)@.stage == MediaStage::Finished
                    &&& fails_with(step, ErrorView::Forbidden(mode_name(old(self)@.plan.mode) + " is not enabled in this channel"@))
                },
            },
    {
        match flags {
            Err(e) => {
                self.stage = MediaStage::Finished;
                MediaStep::Done(Err(e))
            },
            Ok(f) => match check_media_feature(self.plan, &f) {
                Err(e) => {
                    self.stage = MediaStage::Finished;
                    MediaStep::Done(Err(e))
                },
                Ok(()) => {
                    self.stage = MediaStage::AwaitPermission;
                    MediaStep::RequirePermission(
                        PermissionRequest {
                            user_id: self.user_id,
                            permission: media_permission(self.plan),
                            space_id: Some(self.space_id),
                            channel_id: Some(self.channel_id),
                        },
                    )
                },
            },
        }
    }

    /// Takes the outcome of the required permission: a denial is forbidden
    /// with its reason; joining then gets its token, and starting asks
    /// whether the caller may start calls, which makes the room theirs to
    /// administer.
    pub fn on_permission(&mut self, outcome: Result<PermissionResult, AppError>) -> (step: MediaStep)
        requires
            old(self)@.stage == MediaStage::AwaitPermission,
        ensures
            final(self)@ == (MediaFlowView { stage: final(self)@.stage, request: final(self)@.request, ..old(self)@ }),
            match outcome {
                Err(e) => final(self)@.stage == MediaStage::Finished && fails_with(step, e@) && final(self)@.request
                    == old(self)@.request,
                Ok(r) => match r@ {
                    Decision::Denied(reason) => final(self)@.stage == MediaStage::Finished && fails_with(
                        step,
                        ErrorView::Forbidden(reason),
                    ) && final(self)@.request == old(self)@.request,
                    Decision::Allowed => match old(self)@.plan.intent {
                        MediaIntent::Join => final(self)@.stage == MediaStage::Finished && encoded_for(final(self)@, false)
                            && answers_token_for(step, old(self)@, false),
                        MediaIntent::Start => {
                            &&& final(self)@.stage == MediaStage::AwaitStartPermission
                            &&& final(self)@.request == old(self)@.request
                            &&& step matches MediaStep::AskPermission(q) && q == (PermissionRequest {
                                user_id: old(self)@.user_id,
                                permission: start_key(old(self)@.plan.mode),
                                space_id: Some(old(self)@.space_id),
                                channel_id: Some(old(self)@.channel_id),
                            })
                        },
                    },
                },
            },
    {
        let result = match outcome {
            Err(e) => {
                self.stage = MediaStage::Finished;
                return MediaStep::Done(Err(e));
            },
            Ok(r) => r,
        };
        if let Err(e) = crate::permissions::service::require_allowed(result) {
            self.stage = MediaStage::Finished;
            return MediaStep::Done(Err(e));
        }
        match start_permission(self.plan) {
            Some(k) => {
                self.stage = MediaStage::AwaitStartPermission;
                MediaStep::AskPermission(
                    PermissionRequest {
                        user_id: self.user_id,
                        permission: k,
                        space_id: Some(self.space_id),
                        channel_id: Some(self.channel_id),
                    },
                )
            },
            None => self.finish(false),
        }
    }

    /// Takes whether the caller may start calls, and issues the token.
    pub fn on_start_permission(&mut self, outcome: Result<bool, AppError>) -> (step: MediaStep)
        requires
            old(self)@.stage == MediaStage::AwaitStartPermission,
        ensures
            final(self)@ == (MediaFlowView { stage: MediaStage::Finished, request: final(self)@.request, ..old(self)@ }),
            match outcome {
                Err(e) => fails_with(step, e@) && final(self)@.request == old(self)@.request,
                Ok(may_start) => encoded_for(final(self)@, may_start) && answers_token_for(step, old(self)@, may_start),
            },
    {
        match outcome {
            Err(e) => {
                self.stage = MediaStage::Finished;
                MediaStep::Done(Err(e))
            },
            Ok(may_start) => self.finish(may_start),
        }
    }
}

/// The permission a call needs names the call's own intent and mode: its
/// stored name is `join_` or `start_` followed by the mode's name; so
/// different calls need different permissions, a start needs the start
/// permission of its mode, and the channel switch that layer five checks for
/// it is the switch of the call's mode.
pub proof fn lemma_required_permission_names_call(plan: MediaPlan, other: MediaPlan, flags: FeatureSwitches)
    ensures
        key_name(required_permission(plan)) == match plan.intent {
            MediaIntent::Join => "join_"@,
            MediaIntent::Start => "start_"@,
        } + mode_name(plan.mode),
        required_permission(plan) == required_permission(other) ==> plan == other,
        plan.intent == MediaIntent::Start ==> required_permission(plan) == start_key(plan.mode),
        feature_allows(flags, required_permission(plan)) == match plan.mode {
            MediaMode::Voice => flags.voice_group_enabled,
            MediaMode::Video => flags.video_group_enabled,
        },
{
    reveal_strlit("join_");
    reveal_strlit("start_");
    reveal_strlit("voice");
    reveal_strlit("video");
    reveal_strlit("join_voice");
    reveal_strlit("start_voice");
    reveal_strlit("join_video");
    reveal_strlit("start_video");
    assert("join_"@ + "voice"@ =~= "join_voice"@);
    assert("start_"@ + "voice"@ =~= "start_voice"@);
    assert("join_"@ + "video"@ =~= "join_video"@);
    assert("start_"@ + "video"@ =~= "start_video"@);
}

} // verus!
