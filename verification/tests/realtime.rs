use rust_chat_server::error::AppError;
use rust_chat_server::realtime::{
    key_last_segment, online_users, presence_key, typing_key, typing_pattern, typing_users_from_keys, GatewayAction,
    GatewaySession, Pending, WsCommand,
};

#[test]
fn joining_and_leaving_channels() {
    let mut s = GatewaySession::new();
    assert!(matches!(s.on_command(WsCommand::JoinChannel { channel_id: 7 }), GatewayAction::LookupChannel { channel_id: 7 }));
    assert_eq!(s.pending(), Pending::ChannelFound(7));
    assert!(matches!(s.on_channel_found(Some(3)), GatewayAction::CheckViewChannel { space_id: 3, channel_id: 7 }));
    assert!(matches!(s.on_view_permission(true), GatewayAction::Subscribe { channel_id: 7 }));
    assert!(s.has_joined(7));
    assert!(matches!(s.on_command(WsCommand::JoinChannel { channel_id: 7 }), GatewayAction::Nothing));
    assert_eq!(s.pending(), Pending::Command);
    assert!(matches!(s.on_command(WsCommand::LeaveChannel { channel_id: 7 }), GatewayAction::Unsubscribe { channel_id: 7 }));
    assert!(!s.has_joined(7));
    assert!(matches!(s.on_command(WsCommand::LeaveChannel { channel_id: 7 }), GatewayAction::Nothing));
}

#[test]
fn refusals_are_reported() {
    let mut s = GatewaySession::new();
    s.on_command(WsCommand::JoinChannel { channel_id: 1 });
    match s.on_channel_found(None) {
        GatewayAction::SendError(e) => assert_eq!((e.code.as_str(), e.message.as_str()), ("not_found", "Channel not found")),
        other => panic!("unexpected {:?}", other),
    }
    s.on_command(WsCommand::JoinChannel { channel_id: 1 });
    s.on_channel_found(Some(2));
    match s.on_view_permission(false) {
        GatewayAction::SendError(e) => assert_eq!((e.code.as_str(), e.message.as_str()), ("forbidden", "No permission to view channel")),
        other => panic!("unexpected {:?}", other),
    }
    assert!(!s.has_joined(1));
}

#[test]
fn sending_and_typing() {
    let mut s = GatewaySession::new();
    match s.on_command(WsCommand::SendMessage { channel_id: 4, content: "hi".into() }) {
        GatewayAction::CreateMessage { channel_id, content } => assert_eq!((channel_id, content.as_str()), (4, "hi")),
        other => panic!("unexpected {:?}", other),
    }
    assert!(matches!(s.on_message_created(Ok(())), GatewayAction::PublishMessage { channel_id: 4 }));
    s.on_command(WsCommand::SendMessage { channel_id: 4, content: "hi".into() });
    match s.on_message_created(Err(AppError::Forbidden("No roles assigned".into()))) {
        GatewayAction::SendError(e) => assert_eq!((e.code.as_str(), e.message.as_str()), ("forbidden", "Forbidden: No roles assigned")),
        other => panic!("unexpected {:?}", other),
    }
    assert!(matches!(s.on_command(WsCommand::Typing { channel_id: 4, is_typing: false }), GatewayAction::SetTyping { channel_id: 4 }));
}

#[test]
fn typing_and_presence_keys() {
    assert_eq!(typing_key(1, 2), "typing:00000000-0000-0000-0000-000000000001:00000000-0000-0000-0000-000000000002");
    assert_eq!(typing_pattern(1), "typing:00000000-0000-0000-0000-000000000001:*");
    assert_eq!(presence_key(3), "presence:00000000-0000-0000-0000-000000000003");
    assert_eq!(key_last_segment("a:b:c"), "c");
    assert_eq!(key_last_segment("abc"), "abc");
    assert_eq!(key_last_segment("abc:"), "");
    let keys = vec![typing_key(1, 2), "typing:x:garbage".to_string(), typing_key(1, 0xabc)];
    assert_eq!(typing_users_from_keys(&keys), vec![2, 0xabc]);
    assert_eq!(online_users(&vec![1, 2, 3], &vec![true, false, true]), vec![1, 3]);
}
