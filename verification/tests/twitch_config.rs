use strausslib::config::StraussConfig;
use strausslib::string_map::StringMap;
use strausslib::twitch::config::{
    names_channel_in, Channel, Credentials, TwitchChannel, TwitchConfig, TwitchCredentials,
};

fn config_with_channel(channel: &str) -> StraussConfig {
    let mut chat_config: StringMap<String> = StringMap::new();
    let mut services: StringMap<StringMap<String>> = StringMap::new();
    chat_config.insert(String::from("channel"), String::from(channel));
    services.insert(String::from("chat"), chat_config);
    StraussConfig { services }
}

#[test]
fn read_channel() {
    let config = config_with_channel("test_channel");

    let dut = TwitchChannel::load(config);
    assert_eq!(dut.name, "test_channel");
    println!("::TEST OUTPUT:: {dut:#?}")
}

#[test]
fn read_credentials_from_values() {
    let dut = TwitchCredentials::load(String::from("test_user"), String::from("0xdeadbeef"));
    assert_eq!(dut.login_name, "test_user");
    assert_eq!(dut.oauth_token, "0xdeadbeef");
    println!("::TEST OUTPUT:: {}", dut.debug_text())
}

#[test]
fn create_config_from_values() {
    let config = config_with_channel("test_channel");
    let credentials = TwitchCredentials::load(String::from("test_user"), String::from("0xdeadbeef"));

    let dut = TwitchConfig::load(config, credentials);
    assert_eq!(dut.channel(), "test_channel");
    assert_eq!(dut.credentials(), (String::from("test_user"), String::from("0xdeadbeef")));
    assert_eq!(dut.credentials.login_name, "test_user");
    assert_eq!(dut.credentials.oauth_token, "0xdeadbeef");
}

#[test]
fn channel_ignores_other_services_and_options() {
    let mut chat_config: StringMap<String> = StringMap::new();
    chat_config.insert(String::from("color"), String::from("blue"));
    chat_config.insert(String::from("channel"), String::from("main"));
    let mut other: StringMap<String> = StringMap::new();
    other.insert(String::from("channel"), String::from("elsewhere"));
    let mut services: StringMap<StringMap<String>> = StringMap::new();
    services.insert(String::from("redis"), other);
    services.insert(String::from("chat"), chat_config);
    let dut = TwitchChannel::load(StraussConfig { services });
    assert_eq!(dut.name, "main");
}

#[test]
fn credentials_text_hides_both_fields() {
    let a = TwitchCredentials::load(String::from("test_user"), String::from("0xdeadbeef"));
    let b = TwitchCredentials::load(String::from("someone"), String::from("secret"));
    let text = a.debug_text();
    assert_eq!(text, "TwitchCredentials { login_name: \"***\", oauth_token: \"***\" }");
    assert_eq!(text, b.debug_text());
    assert!(!text.contains("test_user"));
    assert!(!text.contains("0xdeadbeef"));
}

#[test]
fn names_channel_only_with_chat_channel_option() {
    assert!(names_channel_in(&config_with_channel("x")));
    let empty = StraussConfig { services: StringMap::new() };
    assert!(!names_channel_in(&empty));
    let mut chat_config: StringMap<String> = StringMap::new();
    chat_config.insert(String::from("chan"), String::from("x"));
    let mut services: StringMap<StringMap<String>> = StringMap::new();
    services.insert(String::from("chat"), chat_config);
    assert!(!names_channel_in(&StraussConfig { services }));
}
