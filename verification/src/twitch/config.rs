//! Twitch configuration: the chat channel, taken from the `chat` service's
//! `channel` option of the configuration, and the login credentials, taken
//! from the `TWITCH_USER` and `TWITCH_TOKEN` environment variables.

use crate::config::StraussConfig;
use vstd::prelude::*;

verus! {

/// The `channel` option of the `chat` service, as the configuration holds it.
pub open spec fn configured_channel(config: Map<Seq<char>, Map<Seq<char>, Seq<char>>>) -> Seq<char> {
    config["chat"@]["channel"@]
}

/// The configuration names a chat channel.
pub open spec fn names_channel(config: Map<Seq<char>, Map<Seq<char>, Seq<char>>>) -> bool {
    config.contains_key("chat"@) && config["chat"@].contains_key("channel"@)
}

/// Whether the configuration names a chat channel, which `TwitchChannel::load`
/// and `TwitchConfig::load` ask of their input.
pub fn names_channel_in(config: &StraussConfig) -> (b: bool)
    ensures
        b == names_channel(config@),
        b == (config@.contains_key("chat"@) && config@["chat"@].contains_key("channel"@)),
{
    let chat = String::from_str("chat");
    let channel = String::from_str("channel");
    match config.services.get(&chat) {
        Some(options) => options.contains_key(&channel),
        None => false,
    }
}

/// The Twitch channel to join.
#[derive(Debug, Clone)]
pub struct TwitchChannel {
    pub name: String,
}

impl TwitchChannel {
    /// The channel that the configuration names under `chat` / `channel`.
    pub fn load(config: StraussConfig) -> (channel: TwitchChannel)
        requires
            config@.contains_key("chat"@),
            config@["chat"@].contains_key("channel"@),
        ensures
            channel.name@ == configured_channel(config@),
            channel.name@ == config@["chat"@]["channel"@],
    {
        let chat = String::from_str("chat");
        let channel = String::from_str("channel");
        let options = config.services.get(&chat).unwrap();
        let name = options.get(&channel).unwrap();
        TwitchChannel { name: name.clone() }
    }
}

/// The text that describes credentials in diagnostics: both fields masked.
pub open spec fn redacted_credentials_text() -> Seq<char> {
    "TwitchCredentials { login_name: \"***\", oauth_token: \"***\" }"@
}

/// The login name and OAuth token of the Twitch account.
#[derive(Clone)]
pub struct TwitchCredentials {
    pub login_name: String,
    pub oauth_token: String,
}

impl TwitchCredentials {
    /// Credentials from the values of the `TWITCH_USER` and `TWITCH_TOKEN`
    /// environment variables.
    pub fn load(login_name: String, oauth_token: String) -> (c: TwitchCredentials)
        ensures
            c.login_name@ == login_name@,
            c.oauth_token@ == oauth_token@,
    {
        TwitchCredentials { login_name, oauth_token }
    }

    /// Text that describes the credentials in diagnostics; it shows neither
    /// field.
    pub fn debug_text(&self) -> (text: String)
        ensures
            text@ == redacted_credentials_text(),
    {
        String::from_str("TwitchCredentials { login_name: \"***\", oauth_token: \"***\" }")
    }
}

/// Everything the chat client needs to connect: channel and credentials.
#[derive(Clone)]
pub struct TwitchConfig {
    pub channel: TwitchChannel,
    pub credentials: TwitchCredentials,
}

impl TwitchConfig {
    /// The channel named by the configuration, with the given credentials.
    pub fn load(config: StraussConfig, credentials: TwitchCredentials) -> (c: TwitchConfig)
        requires
            config@.contains_key("chat"@),
            config@["chat"@].contains_key("channel"@),
        ensures
            c.channel.name@ == configured_channel(config@),
            c.channel.name@ == config@["chat"@]["channel"@],
            c.credentials.login_name@ == credentials.login_name@,
            c.credentials.oauth_token@ == credentials.oauth_token@,
    {
        TwitchConfig { channel: TwitchChannel::load(config), credentials }
    }
}

/// Gives the name of the chat channel.
pub trait Channel {
    spec fn channel_name(&self) -> Seq<char>;

    fn channel(&self) -> (name: String)
        ensures
            name@ == self.channel_name(),
    ;
}

/// Gives the login name and OAuth token.
pub trait Credentials {
    spec fn login(&self) -> (Seq<char>, Seq<char>);

    fn credentials(&self) -> (pair: (String, String))
        ensures
            (pair.0@, pair.1@) == self.login(),
    ;
}

/// Channel and credentials together.
pub trait Config: Channel + Credentials {}

impl Channel for TwitchConfig {
    open spec fn channel_name(&self) -> Seq<char> {
        self.channel.name@
    }

    fn channel(&self) -> (name: String) {
        self.channel.name.clone()
    }
}

impl Credentials for TwitchConfig {
    open spec fn login(&self) -> (Seq<char>, Seq<char>) {
        (self.credentials.login_name@, self.credentials.oauth_token@)
    }

    fn credentials(&self) -> (pair: (String, String)) {
        (self.credentials.login_name.clone(), self.credentials.oauth_token.clone())
    }
}

impl Config for TwitchConfig {}

/// The channel is the `channel` option of the `chat` service, character for
/// character, and a configuration names a channel exactly when the `chat`
/// service has a `channel` option.
pub proof fn law_channel_is_the_chat_channel_option(config: Map<Seq<char>, Map<Seq<char>, Seq<char>>>)
    ensures
        names_channel(config) <==> (config.contains_key("chat"@) && config["chat"@].contains_key("channel"@)),
        names_channel(config) ==> configured_channel(config) == config["chat"@]["channel"@],
        names_channel(config) ==> configured_channel(config).len() == config["chat"@]["channel"@].len(),
{
}

/// Other services do not matter: adding or replacing any service but `chat`
/// changes neither whether a channel is named nor which.
pub proof fn law_other_services_do_not_matter(
    config: Map<Seq<char>, Map<Seq<char>, Seq<char>>>,
    service: Seq<char>,
    options: Map<Seq<char>, Seq<char>>,
)
    requires
        service != "chat"@,
    ensures
        names_channel(config.insert(service, options)) == names_channel(config),
        names_channel(config) ==> configured_channel(config.insert(service, options))
            == configured_channel(config),
{
    assert(config.insert(service, options)["chat"@] == config["chat"@] || !config.contains_key("chat"@));
}

/// Other options of the `chat` service do not matter either.
pub proof fn law_other_chat_options_do_not_matter(
    config: Map<Seq<char>, Map<Seq<char>, Seq<char>>>,
    option: Seq<char>,
    value: Seq<char>,
)
    requires
        config.contains_key("chat"@),
        option != "channel"@,
    ensures
        names_channel(config.insert("chat"@, config["chat"@].insert(option, value)))
            == names_channel(config),
        names_channel(config) ==> configured_channel(
            config.insert("chat"@, config["chat"@].insert(option, value)),
        ) == configured_channel(config),
{
}

/// Whatever the configuration holds otherwise, a `chat` service whose `channel`
/// option is `name` names a channel, and that channel is `name`.
pub proof fn law_stored_channel_is_loaded(
    config: Map<Seq<char>, Map<Seq<char>, Seq<char>>>,
    chat_options: Map<Seq<char>, Seq<char>>,
    name: Seq<char>,
)
    ensures
        names_channel(config.insert("chat"@, chat_options.insert("channel"@, name))),
        configured_channel(config.insert("chat"@, chat_options.insert("channel"@, name))) == name,
{
}

/// A configuration made by `TwitchConfig::load` gives back, through `Channel`
/// and `Credentials`, the configured channel and the credentials it was given.
pub proof fn law_config_gives_back_what_it_loaded(
    c: TwitchConfig,
    config: Map<Seq<char>, Map<Seq<char>, Seq<char>>>,
    login_name: Seq<char>,
    oauth_token: Seq<char>,
)
    requires
        c.channel.name@ == configured_channel(config),
        c.credentials.login_name@ == login_name,
        c.credentials.oauth_token@ == oauth_token,
    ensures
        c.channel_name() == configured_channel(config),
        c.login() == (login_name, oauth_token),
{
}

} // verus!
