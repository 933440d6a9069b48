//! The realtime gateway: what a connected client's commands lead to, and
//! the keys under which typing and presence are kept.

use vstd::prelude::*;
use vstd::string::StrSliceExecFns;
use crate::error::{label_of, message_of, AppError};
use crate::ids::{hyphenated, push_uuid, uuid_parse};
use crate::text::hex_fixed;
use crate::text::{push_char, push_str};
use std::collections::HashSet;

verus! {

broadcast use vstd::std_specs::hash::group_hash_axioms;

/// An error reported to a client over the socket.
#[derive(Debug)]
pub struct ErrorData {
    pub code: String,
    pub message: String,
}

/// A command sent by a client.
#[derive(Debug)]
pub enum WsCommand {
    SendMessage { channel_id: u128, content: String },
    JoinChannel { channel_id: u128 },
    LeaveChannel { channel_id: u128 },
    Typing { channel_id: u128, is_typing: bool },
}

/// A command, as its values.
pub enum CommandView {
    SendMessage(u128, Seq<char>),
    JoinChannel(u128),
    LeaveChannel(u128),
    Typing(u128),
}

impl View for WsCommand {
    type V = CommandView;

    open spec fn view(&self) -> CommandView {
        match self {
            WsCommand::SendMessage { channel_id, content } => CommandView::SendMessage(*channel_id, content@),
            WsCommand::JoinChannel { channel_id } => CommandView::JoinChannel(*channel_id),
            WsCommand::LeaveChannel { channel_id } => CommandView::LeaveChannel(*channel_id),
            WsCommand::Typing { channel_id, is_typing: _ } => CommandView::Typing(*channel_id),
        }
    }
}

/// What the connection does next.
#[derive(Debug)]
pub enum GatewayAction {
    Nothing,
    /// Create a message in the channel on the user's behalf.
    CreateMessage { channel_id: u128, content: String },
    /// Publish the message just created to the channel's subscribers.
    PublishMessage { channel_id: u128 },
    /// Look the channel up, to learn its space.
    LookupChannel { channel_id: u128 },
    /// Check that the user may view the channel.
    CheckViewChannel { space_id: u128, channel_id: u128 },
    /// Forward the channel's events to the client.
    Subscribe { channel_id: u128 },
    /// Stop forwarding the channel's events.
    Unsubscribe { channel_id: u128 },
    /// Mark the user as typing in the channel.
    SetTyping { channel_id: u128 },
    /// Report an error to the client.
    SendError(ErrorData),
}

/// An action, as its values.
pub enum ActionView {
    Nothing,
    CreateMessage(u128, Seq<char>),
    PublishMessage(u128),
    LookupChannel(u128),
    CheckViewChannel(u128, u128),
    Subscribe(u128),
    Unsubscribe(u128),
    SetTyping(u128),
    SendError(Seq<char>, Seq<char>),
}

impl View for GatewayAction {
    type V = ActionView;

    open spec fn view(&self) -> ActionView {
        match self {
            GatewayAction::Nothing => ActionView::Nothing,
            GatewayAction::CreateMessage { channel_id, content } => ActionView::CreateMessage(*channel_id, content@),
            GatewayAction::PublishMessage { channel_id } => ActionView::PublishMessage(*channel_id),
            GatewayAction::LookupChannel { channel_id } => ActionView::LookupChannel(*channel_id),
            GatewayAction::CheckViewChannel { space_id, channel_id } => ActionView::CheckViewChannel(*space_id, *channel_id),
            GatewayAction::Subscribe { channel_id } => ActionView::Subscribe(*channel_id),
            GatewayAction::Unsubscribe { channel_id } => ActionView::Unsubscribe(*channel_id),
            GatewayAction::SetTyping { channel_id } => ActionView::SetTyping(*channel_id),
            GatewayAction::SendError(e) => ActionView::SendError(e.code@, e.message@),
        }
    }
}

/// What the connection waits for.
#[derive(Debug, Clone, Copy, PartialEq, Eq, Structural)]
pub enum Pending {
    /// The next command.
    Command,
    /// The outcome of creating a message in this channel.
    MessageCreated(u128),
    /// The space of this channel, if the channel exists.
    ChannelFound(u128),
    /// Whether the user may view this channel.
    ViewPermission(u128),
}

/// The state of a client's connection: the channels it has joined and what
/// it waits for.
pub struct GatewaySession {
    joined: HashSet<u128>,
    pending: Pending,
}

/// A connection, as the channels it joined and what it waits for.
pub struct SessionView {
    pub joined: Set<u128>,
    pub pending: Pending,
}

impl View for GatewaySession {
    type V = SessionView;

    closed spec fn view(&self) -> SessionView {
        SessionView { joined: self.joined@, pending: self.pending }
    }
}

fn error_data(code: &str, message: &str) -> (e: ErrorData)
    ensures
        e.code@ == code@,
        e.message@ == message@,
{
    ErrorData { code: code.to_owned(), message: message.to_owned() }
}

impl GatewaySession {
    /// A new connection: no channel joined, waiting for a command.
    pub fn new() -> (s: GatewaySession)
        ensures
            s@.joined == Set::<u128>::empty(),
            s@.pending == Pending::Command,
    {
        GatewaySession { joined: HashSet::new(), pending: Pending::Command }
    }

    /// What the connection waits for.
    pub fn pending(&self) -> (p: Pending)
        ensures
            p == self@.pending,
    {
        self.pending
    }

    /// Whether the channel's events are forwarded to the client.
    pub fn has_joined(&self, channel_id: u128) -> (b: bool)
        ensures
            b == self@.joined.contains(channel_id),
    {
        self.joined.contains(&channel_id)
    }

    /// Reacts to a client's command. Sending creates a message; joining a
    /// channel not yet joined looks it up; leaving a joined channel stops
    /// its events; typing marks the user as typing.
    pub fn on_command(&mut self, cmd: WsCommand) -> (a: GatewayAction)
        requires
            old(self)@.pending == Pending::Command,
        ensures
            match cmd@ {
                CommandView::SendMessage(c, content) => {
                    &&& a@ == ActionView::CreateMessage(c, content)
                    &&& final(self)@.pending == Pending::MessageCreated(c)
                    &&& final(self)@.joined == old(self)@.joined
                },
                CommandView::JoinChannel(c) => {
                    &&& final(self)@.joined == old(self)@.joined
                    &&& if old(self)@.joined.contains(c) {
                        a@ == ActionView::Nothing && final(self)@.pending == Pending::Command
                    } else {
                        a@ == ActionView::LookupChannel(c) && final(self)@.pending == Pending::ChannelFound(c)
                    }
                },
                CommandView::LeaveChannel(c) => {
                    &&& final(self)@.joined == old(self)@.joined.remove(c)
                    &&& final(self)@.pending == Pending::Command
                    &&& a@ == if old(self)@.joined.contains(c) {
                        ActionView::Unsubscribe(c)
                    } else {
                        ActionView::Nothing
                    }
                },
                CommandView::Typing(c) => {
                    &&& a@ == ActionView::SetTyping(c)
                    &&& final(self)@.pending == Pending::Command
                    &&& final(self)@.joined == old(self)@.joined
                },
            },
    {
        match cmd {
            WsCommand::SendMessage { channel_id, content } => {
                self.pending = Pending::MessageCreated(channel_id);
                GatewayAction::CreateMessage { channel_id, content }
            },
            WsCommand::JoinChannel { channel_id } => {
                if self.joined.contains(&channel_id) {
                    GatewayAction::Nothing
                } else {
                    self.pending = Pending::ChannelFound(channel_id);
                    GatewayAction::LookupChannel { channel_id }
                }
            },
            WsCommand::LeaveChannel { channel_id } => {
                let was_joined = self.joined.remove(&channel_id);
                if was_joined {
                    GatewayAction::Unsubscribe { channel_id }
                } else {
                    GatewayAction::Nothing
                }
            },
            WsCommand::Typing { channel_id, is_typing: _ } => {
                GatewayAction::SetTyping { channel_id }
            },
        }
    }

    /// Once the message is created it is published to the channel; a refusal
    /// is reported to the client as forbidden, with the error's text.
    pub fn on_message_created(&mut self, outcome: Result<(), AppError>) -> (a: GatewayAction)
        requires
            old(self)@.pending is MessageCreated,
        ensures
            final(self)@.pending == Pending::Command,
            final(self)@.joined == old(self)@.joined,
            match outcome {
                Ok(_) => a@ == ActionView::PublishMessage(old(self)@.pending->MessageCreated_0),
                Err(e) => a@ == ActionView::SendError("forbidden"@, label_of(e@) + message_of(e@)),
            },
    {
        let channel_id = match self.pending {
            Pending::MessageCreated(c) => c,
            _ => 0,
        };
        self.pending = Pending::Command;
        match outcome {
            Ok(()) => GatewayAction::PublishMessage { channel_id },
            Err(e) => {
                let message = e.to_display_string();
                GatewayAction::SendError(ErrorData { code: "forbidden".to_owned(), message })
            },
        }
    }

    /// Once the channel is looked up, the user's right to view it is
    /// checked; a channel that does not exist is reported.
    pub fn on_channel_found(&mut self, space_id: Option<u128>) -> (a: GatewayAction)
        requires
            old(self)@.pending is ChannelFound,
        ensures
            final(self)@.joined == old(self)@.joined,
            match space_id {
                Some(s) => {
                    &&& a@ == ActionView::CheckViewChannel(s, old(self)@.pending->ChannelFound_0)
                    &&& final(self)@.pending == Pending::ViewPermission(old(self)@.pending->ChannelFound_0)
                },
                None => {
                    &&& a@ == ActionView::SendError("not_found"@, "Channel not found"@)
                    &&& final(self)@.pending == Pending::Command
                },
            },
    {
        let channel_id = match self.pending {
            Pending::ChannelFound(c) => c,
            _ => 0,
        };
        match space_id {
            Some(s) => {
                self.pending = Pending::ViewPermission(channel_id);
                GatewayAction::CheckViewChannel { space_id: s, channel_id }
            },
            None => {
                self.pending = Pending::Command;
                GatewayAction::SendError(error_data("not_found", "Channel not found"))
            },
        }
    }

    /// A user allowed to view the channel joins it; otherwise the refusal is
    /// reported.
    pub fn on_view_permission(&mut self, allowed: bool) -> (a: GatewayAction)
        requires
            old(self)@.pending is ViewPermission,
        ensures
            final(self)@.pending == Pending::Command,
            allowed ==> a@ == ActionView::Subscribe(old(self)@.pending->ViewPermission_0)
                && final(self)@.joined == old(self)@.joined.insert(old(self)@.pending->ViewPermission_0),
            !allowed ==> a@ == ActionView::SendError("forbidden"@, "No permission to view channel"@)
                && final(self)@.joined == old(self)@.joined,
    {
        let channel_id = match self.pending {
            Pending::ViewPermission(c) => c,
            _ => 0,
        };
        self.pending = Pending::Command;
        if allowed {
            self.joined.insert(channel_id);
            GatewayAction::Subscribe { channel_id }
        } else {
            GatewayAction::SendError(error_data("forbidden", "No permission to view channel"))
        }
    }
}

// ---------------------------------------------------------------------------
// Typing and presence

/// How long a typing mark lasts, in seconds.
pub const TYPING_TTL_SECS: u64 = 5;

/// How long a presence mark lasts, in seconds.
pub const PRESENCE_TTL_SECS: u64 = 300;

/// The key that marks a user as typing in a channel.
pub fn typing_key(channel_id: u128, user_id: u128) -> (k: String)
    ensures
        k@ == "typing:"@ + hyphenated(channel_id) + ":"@ + hyphenated(user_id),
{
    let mut k = "typing:".to_owned();
    push_uuid(&mut k, channel_id);
    push_char(&mut k, ':');
    push_uuid(&mut k, user_id);
    assert(k@ =~= "typing:"@ + hyphenated(channel_id) + ":"@ + hyphenated(user_id)) by {
        reveal_strlit(":");
    }
    k
}

/// The pattern that matches the typing keys of a channel.
pub fn typing_pattern(channel_id: u128) -> (k: String)
    ensures
        k@ == "typing:"@ + hyphenated(channel_id) + ":*"@,
{
    let mut k = "typing:".to_owned();
    push_uuid(&mut k, channel_id);
    push_str(&mut k, ":*");
    k
}

/// The key that marks a user as online.
pub fn presence_key(user_id: u128) -> (k: String)
    ensures
        k@ == "presence:"@ + hyphenated(user_id),
{
    let mut k = "presence:".to_owned();
    push_uuid(&mut k, user_id);
    k
}

/// The part of a key after its last colon (the whole key when it has none).
pub open spec fn last_segment(k: Seq<char>) -> Seq<char>
    decreases k.len(),
{
    if k.len() == 0 {
        seq![]
    } else if k.last() == ':' {
        seq![]
    } else {
        last_segment(k.drop_last()).push(k.last())
    }
}

/// The last segment of a key.
pub fn key_last_segment(k: &str) -> (s: String)
    ensures
        s@ == last_segment(k@),
{
    let n = k.unicode_len();
    let mut start: usize = n;
    assert(k@.subrange(0, n as int) =~= k@);
    assert(k@.subrange(n as int, n as int) =~= Seq::<char>::empty());
    assert(last_segment(k@) =~= last_segment(k@.subrange(0, n as int)) + k@.subrange(n as int, n as int));
    while start > 0 && k.get_char(start - 1) != ':'
        invariant
            n == k@.len(),
            start <= n,
            last_segment(k@) == last_segment(k@.subrange(0, start as int)) + k@.subrange(start as int, n as int),
        decreases start,
    {
        let ghost p = k@.subrange(0, start as int);
        assert(p.drop_last() =~= k@.subrange(0, start - 1));
        assert(k@.subrange(start - 1, n as int) =~= seq![p.last()] + k@.subrange(start as int, n as int));
        assert(last_segment(p) == last_segment(p.drop_last()).push(p.last()));
        assert(last_segment(p.drop_last()).push(p.last()) + k@.subrange(start as int, n as int)
            =~= last_segment(k@.subrange(0, start - 1)) + k@.subrange(start - 1, n as int));
        start -= 1;
    }
    assert(last_segment(k@.subrange(0, start as int)) =~= Seq::<char>::empty());
    assert(last_segment(k@) =~= k@.subrange(start as int, n as int));
    let mut s = String::new();
    let mut i: usize = start;
    while i < n
        invariant
            n == k@.len(),
            start <= i <= n,
            s@ == k@.subrange(start as int, i as int),
        decreases n - i,
    {
        let c = k.get_char(i);
        push_char(&mut s, c);
        assert(k@.subrange(start as int, (i + 1) as int) =~= k@.subrange(start as int, i as int).push(c));
        i += 1;
    }
    s
}

/// The user that a typing key names, if its last segment reads as a UUID.
pub open spec fn typing_user(k: Seq<char>) -> Option<u128> {
    match uuid_parse(last_segment(k)) {
        Ok(u) => Some(u),
        Err(_) => None,
    }
}

/// The users that typing keys name, in the order of the keys; keys whose
/// last segment is not a UUID are skipped.
pub open spec fn typing_users(keys: Seq<Seq<char>>) -> Seq<u128>
    decreases keys.len(),
{
    if keys.len() == 0 {
        seq![]
    } else {
        match typing_user(keys.last()) {
            Some(u) => typing_users(keys.drop_last()).push(u),
            None => typing_users(keys.drop_last()),
        }
    }
}

/// Reads the typing users out of the keys that matched a channel's pattern.
pub fn typing_users_from_keys(keys: &Vec<String>) -> (r: Vec<u128>)
    ensures
        r@ == typing_users(keys@.map_values(|k: String| k@)),
        forall|i: int, u: u128| #![trigger keys@[i], hyphenated(u)]
            0 <= i < keys@.len() && last_segment(keys@[i]@) == hyphenated(u) ==> typing_user(keys@[i]@) == Some(u),
{
    let n = keys.len();
    let ghost ks = keys@.map_values(|k: String| k@);
    let mut r: Vec<u128> = Vec::new();
    let mut i: usize = 0;
    while i < n
        invariant
            n == keys@.len(),
            ks == keys@.map_values(|k: String| k@),
            i <= n,
            r@ == typing_users(ks.subrange(0, i as int)),
            forall|j: int, u: u128| #![trigger keys@[j], hyphenated(u)]
                0 <= j < i && last_segment(keys@[j]@) == hyphenated(u) ==> typing_user(keys@[j]@) == Some(u),
        decreases n - i,
    {
        let seg = key_last_segment(keys[i].as_str());
        assert(ks.subrange(0, (i + 1) as int).drop_last() =~= ks.subrange(0, i as int));
        assert(ks.subrange(0, (i + 1) as int).last() == keys@[i as int]@);
        let parsed = crate::ids::read_uuid(seg.as_str());
        match parsed {
            Ok(u) => r.push(u),
            Err(_) => {},
        }
        proof {
            assert forall|j: int, u: u128| #![trigger keys@[j], hyphenated(u)]
                0 <= j < i + 1 && last_segment(keys@[j]@) == hyphenated(u) implies typing_user(keys@[j]@) == Some(u) by {
                if j == i {
                    assert(hyphenated(u) == seg@);
                }
            }
        }
        i += 1;
    }
    assert(ks.subrange(0, n as int) =~= ks);
    r
}

/// Keys that each name their user read back as those users, in order.
pub proof fn lemma_typing_users_read_back(keys: Seq<Seq<char>>, users: Seq<u128>)
    requires
        keys.len() == users.len(),
        forall|i: int| 0 <= i < keys.len() ==> #[trigger] typing_user(keys[i]) == Some(users[i]),
    ensures
        typing_users(keys) == users,
    decreases keys.len(),
{
    if keys.len() > 0 {
        let k = keys.drop_last();
        let v = users.drop_last();
        assert forall|i: int| 0 <= i < k.len() implies #[trigger] typing_user(k[i]) == Some(v[i]) by {
            assert(k[i] == keys[i]);
            assert(typing_user(keys[i]) == Some(users[i]));
        }
        lemma_typing_users_read_back(k, v);
        assert(typing_user(keys.last()) == Some(users.last())) by {
            assert(typing_user(keys[keys.len() - 1]) == Some(users[keys.len() - 1]));
        }
        assert(v.push(users.last()) =~= users);
    }
}

/// The users among `user_ids` that are online; `online[i]` says whether
/// `user_ids[i]` is.
pub fn online_users(user_ids: &Vec<u128>, online: &Vec<bool>) -> (r: Vec<u128>)
    requires
        user_ids@.len() == online@.len(),
    ensures
        r@ == online_subsequence(user_ids@, online@),
{
    let n = user_ids.len();
    let mut r: Vec<u128> = Vec::new();
    let mut i: usize = 0;
    while i < n
        invariant
            n == user_ids@.len(),
            n == online@.len(),
            i <= n,
            r@ == online_subsequence(user_ids@.subrange(0, i as int), online@.subrange(0, i as int)),
        decreases n - i,
    {
        assert(user_ids@.subrange(0, (i + 1) as int).drop_last() =~= user_ids@.subrange(0, i as int));
        assert(online@.subrange(0, (i + 1) as int).drop_last() =~= online@.subrange(0, i as int));
        if online[i] {
            r.push(user_ids[i]);
        }
        i += 1;
    }
    assert(user_ids@.subrange(0, n as int) =~= user_ids@);
    assert(online@.subrange(0, n as int) =~= online@);
    r
}

/// The entries of `ids` whose flag in `flags` is set, in order.
pub open spec fn online_subsequence(ids: Seq<u128>, flags: Seq<bool>) -> Seq<u128>
    decreases ids.len(),
{
    if ids.len() == 0 || flags.len() == 0 {
        seq![]
    } else if flags.last() {
        online_subsequence(ids.drop_last(), flags.drop_last()).push(ids.last())
    } else {
        online_subsequence(ids.drop_last(), flags.drop_last())
    }
}


proof fn lemma_hex_fixed_no_colon(v: nat, w: nat)
    ensures
        !hex_fixed(v, w).contains(':'),
        hex_fixed(v, w).len() == w,
    decreases w,
{
    if w > 0 {
        lemma_hex_fixed_no_colon(v / 16, (w - 1) as nat);
        let h = hex_fixed(v, w);
        assert forall|i: int| 0 <= i < h.len() implies h[i] != ':' by {
            if i < h.len() - 1 {
                assert(h[i] == hex_fixed(v / 16, (w - 1) as nat)[i]);
            }
        }
    }
}

/// The canonical form of a UUID holds no colon.
proof fn lemma_hyphenated_no_colon(u: u128)
    ensures
        !hyphenated(u).contains(':'),
{
    let v = u as nat;
    lemma_hex_fixed_no_colon(v / 0x1_0000_0000_0000_0000_0000_0000, 8);
    lemma_hex_fixed_no_colon(v / 0x1_0000_0000_0000_0000_0000, 4);
    lemma_hex_fixed_no_colon(v / 0x1_0000_0000_0000_0000, 4);
    lemma_hex_fixed_no_colon(v / 0x1_0000_0000_0000, 4);
    lemma_hex_fixed_no_colon(v, 12);
    let h = hyphenated(u);
    assert forall|i: int| 0 <= i < h.len() implies h[i] != ':' by {
        let g1 = hex_fixed(v / 0x1_0000_0000_0000_0000_0000_0000, 8);
        let g2 = hex_fixed(v / 0x1_0000_0000_0000_0000_0000, 4);
        let g3 = hex_fixed(v / 0x1_0000_0000_0000_0000, 4);
        let g4 = hex_fixed(v / 0x1_0000_0000_0000, 4);
        let g5 = hex_fixed(v, 12);
        assert(h == g1 + seq!['-'] + g2 + seq!['-'] + g3 + seq!['-'] + g4 + seq!['-'] + g5);
        if i < 8 {
            assert(h[i] == g1[i]);
        } else if i == 8 {
        } else if i < 13 {
            assert(h[i] == g2[i - 9]);
        } else if i == 13 {
        } else if i < 18 {
            assert(h[i] == g3[i - 14]);
        } else if i == 18 {
        } else if i < 23 {
            assert(h[i] == g4[i - 19]);
        } else if i == 23 {
        } else {
            assert(h[i] == g5[i - 24]);
        }
    }
}

proof fn lemma_last_segment_after_colon(p: Seq<char>, h: Seq<char>)
    requires
        !h.contains(':'),
    ensures
        last_segment(p + seq![':'] + h) == h,
    decreases h.len(),
{
    let k = p + seq![':'] + h;
    if h.len() == 0 {
        assert(k.last() == ':');
    } else {
        assert(k.last() == h.last());
        assert(k.drop_last() =~= p + seq![':'] + h.drop_last());
        assert(!h.drop_last().contains(':')) by {
            if h.drop_last().contains(':') {
                let i = choose|i: int| 0 <= i < h.drop_last().len() && h.drop_last()[i] == ':';
                assert(h[i] == ':');
            }
        }
        lemma_last_segment_after_colon(p, h.drop_last());
        assert(h.last() != ':') by {
            assert(h[h.len() - 1] == h.last());
        }
        assert(h.drop_last().push(h.last()) =~= h);
    }
}

/// The last segment of a user's typing key in a channel is the user's id.
pub proof fn lemma_typing_key_ends_with_user(channel_id: u128, user_id: u128)
    ensures
        last_segment("typing:"@ + hyphenated(channel_id) + ":"@ + hyphenated(user_id)) == hyphenated(user_id),
{
    reveal_strlit(":");
    lemma_hyphenated_no_colon(user_id);
    assert(":"@ =~= seq![':']);
    assert("typing:"@ + hyphenated(channel_id) + ":"@ + hyphenated(user_id) =~= ("typing:"@ + hyphenated(channel_id))
        + seq![':'] + hyphenated(user_id));
    lemma_last_segment_after_colon("typing:"@ + hyphenated(channel_id), hyphenated(user_id));
}

} // verus!
