//! Decisions of the chat service, which carries Twitch chat to Redis and back:
//! chat messages received from Twitch are published on the receive channel,
//! and messages that arrive on the transmit channel are said in Twitch chat.

use crate::twitch::chat::{STRAUSS_CHAT_MSG_RX_REDIS_CH, STRAUSS_CHAT_MSG_TX_REDIS_CH};
use vstd::prelude::*;

verus! {

/// Kind of a message that arrives on the Twitch IRC connection.
pub enum ServerMessageKind {
    ClearChat,
    ClearMsg,
    GlobalUserState,
    Join,
    Notice,
    Part,
    Ping,
    Pong,
    Privmsg,
    Reconnect,
    RoomState,
    UserNotice,
    UserState,
    Whisper,
    Generic,
}

/// Whether a message from the Twitch connection is handed on by the chat
/// client: chat messages are, every other kind is passed over while the client
/// waits for the next message.
pub fn is_chat_message(kind: &ServerMessageKind) -> (b: bool)
    ensures
        b == (*kind is Privmsg),
{
    match kind {
        ServerMessageKind::Privmsg => true,
        _ => false,
    }
}

/// The two listeners of the chat service.
pub enum Listener {
    /// Hears Redis and speaks in Twitch chat.
    Redis,
    /// Hears Twitch chat and publishes on Redis.
    Twitch,
}

/// The Redis channel that a listener's Redis connection subscribes to.
pub fn subscribed_channel(listener: &Listener) -> (channel: String)
    ensures
        *listener is Redis ==> channel@ == STRAUSS_CHAT_MSG_TX_REDIS_CH@,
        *listener is Twitch ==> channel@ == STRAUSS_CHAT_MSG_RX_REDIS_CH@,
{
    match listener {
        Listener::Redis => String::from_str(STRAUSS_CHAT_MSG_TX_REDIS_CH),
        Listener::Twitch => String::from_str(STRAUSS_CHAT_MSG_RX_REDIS_CH),
    }
}

/// What one listener heard.
pub enum BridgeEvent {
    /// The Twitch chat client returned, with the chat message as JSON text
    /// when it received one.
    FromTwitch(Option<String>),
    /// A message arrived on the subscribed Redis channel.
    FromRedis(String),
}

/// What the listener does about it.
pub enum BridgeAction {
    /// Publish `payload` on the Redis channel `channel`.
    Publish { channel: String, payload: String },
    /// Say `message` in Twitch chat.
    Say { message: String },
    /// Nothing to do.
    Idle,
}

/// The action that answers one event: a chat message from Twitch is published
/// unchanged on the receive channel, a message from Redis is said unchanged in
/// Twitch chat, and a Twitch turn without a message does nothing.
pub fn bridge_step(event: BridgeEvent) -> (action: BridgeAction)
    ensures
        match event {
            BridgeEvent::FromTwitch(Some(json)) => match action {
                BridgeAction::Publish { channel, payload } => channel@
                    == STRAUSS_CHAT_MSG_RX_REDIS_CH@ && payload@ == json@,
                _ => false,
            },
            BridgeEvent::FromTwitch(None) => action is Idle,
            BridgeEvent::FromRedis(msg) => match action {
                BridgeAction::Say { message } => message@ == msg@,
                _ => false,
            },
        },
{
    match event {
        BridgeEvent::FromTwitch(Some(json)) => BridgeAction::Publish {
            channel: String::from_str(STRAUSS_CHAT_MSG_RX_REDIS_CH),
            payload: json,
        },
        BridgeEvent::FromTwitch(None) => BridgeAction::Idle,
        BridgeEvent::FromRedis(msg) => BridgeAction::Say { message: msg },
    }
}

/// What the chat service publishes from Twitch never reaches the Redis listener,
/// which is the only listener that speaks in Twitch chat: the receive channel
/// is not the transmit channel, so chat messages are not echoed back.
pub proof fn law_no_echo()
    ensures
        STRAUSS_CHAT_MSG_RX_REDIS_CH@ != STRAUSS_CHAT_MSG_TX_REDIS_CH@,
{
    reveal_strlit("#strauss-chat-msg-rx");
    reveal_strlit("#strauss-chat-msg-tx");
    assert(STRAUSS_CHAT_MSG_RX_REDIS_CH@[18] != STRAUSS_CHAT_MSG_TX_REDIS_CH@[18]);
}

} // verus!
