use strausslib::chat_service::{
    bridge_step, is_chat_message, subscribed_channel, BridgeAction, BridgeEvent, Listener,
    ServerMessageKind,
};
use strausslib::redisclient::STRAUSS_REDIS_ADDR;
use strausslib::twitch::chat::{STRAUSS_CHAT_MSG_RX_REDIS_CH, STRAUSS_CHAT_MSG_TX_REDIS_CH};

#[test]
fn listen_twitch() {
    match bridge_step(BridgeEvent::FromTwitch(Some(String::from("")))) {
        BridgeAction::Publish { channel, payload } => {
            assert_eq!(channel, "#strauss-chat-msg-rx");
            assert_eq!(payload, "");
        }
        _ => panic!("a chat message from Twitch must be published"),
    }
}

#[test]
fn listen_redis() {
    match bridge_step(BridgeEvent::FromRedis(String::from("test message"))) {
        BridgeAction::Say { message } => assert_eq!(message, "test message"),
        _ => panic!("a message from Redis must be said in chat"),
    }
}

#[test]
fn twitch_turn_without_message_does_nothing() {
    assert!(matches!(bridge_step(BridgeEvent::FromTwitch(None)), BridgeAction::Idle));
}

#[test]
fn only_chat_messages_are_handed_on() {
    assert!(is_chat_message(&ServerMessageKind::Privmsg));
    for kind in [
        ServerMessageKind::ClearChat,
        ServerMessageKind::ClearMsg,
        ServerMessageKind::GlobalUserState,
        ServerMessageKind::Join,
        ServerMessageKind::Notice,
        ServerMessageKind::Part,
        ServerMessageKind::Ping,
        ServerMessageKind::Pong,
        ServerMessageKind::Reconnect,
        ServerMessageKind::RoomState,
        ServerMessageKind::UserNotice,
        ServerMessageKind::UserState,
        ServerMessageKind::Whisper,
        ServerMessageKind::Generic,
    ] {
        assert!(!is_chat_message(&kind));
    }
}

#[test]
fn listeners_subscribe_to_their_channels() {
    assert_eq!(subscribed_channel(&Listener::Redis), "#strauss-chat-msg-tx");
    assert_eq!(subscribed_channel(&Listener::Twitch), "#strauss-chat-msg-rx");
}

#[test]
fn channel_names_and_address() {
    assert_eq!(STRAUSS_CHAT_MSG_RX_REDIS_CH, "#strauss-chat-msg-rx");
    assert_eq!(STRAUSS_CHAT_MSG_TX_REDIS_CH, "#strauss-chat-msg-tx");
    assert_ne!(STRAUSS_CHAT_MSG_RX_REDIS_CH, STRAUSS_CHAT_MSG_TX_REDIS_CH);
    assert_eq!(STRAUSS_REDIS_ADDR, "redis://redis:6379");
}
