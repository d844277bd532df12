//! Names of the Redis channels that carry Twitch chat messages.

use vstd::prelude::*;

verus! {

/// Redis channel on which messages received from Twitch chat are published.
pub const STRAUSS_CHAT_MSG_RX_REDIS_CH: &'static str = "#strauss-chat-msg-rx";

/// Redis channel whose messages are sent to Twitch chat.
pub const STRAUSS_CHAT_MSG_TX_REDIS_CH: &'static str = "#strauss-chat-msg-tx";

} // verus!
