//! The typed payload readers, the identifiers, the builders and the
//! request-side helpers, on concrete values.

use rustcord::channel::{Channel, ChannelType, SendMessageBuilder, SendMessageContent};
use rustcord::config::BotConfig;
use rustcord::guild::{Guild, GuildMember, GuildMemberUpdate, UnavailableGuild};
use rustcord::interaction::{ApplicationCommandOptionType, Interaction, InteractionType};
use rustcord::message::{EmbedBuilder, Message, MessageType};
use rustcord::misc::{BotGateway, Snowflake};
use rustcord::rest;
use rustcord::user::{Flag, PremiumType, User};

fn chars(s: &str) -> Vec<char> {
    s.chars().collect()
}

fn text(v: &[char]) -> String {
    v.iter().collect()
}

#[test]
fn snowflake_decodes_its_parts() {
    let s = Snowflake::new(175928847299117063);
    assert_eq!(s.timestamp(), 1462015105796);
    assert_eq!(s.internal_worker_id(), 1);
    assert_eq!(s.internal_process_id(), 0);
    assert_eq!(s.increment_id(), 7);
}

#[test]
fn snowflake_from_string_is_fallible() {
    let s = Snowflake::from_string(String::from("175928847299117063")).expect("digits parse");
    assert_eq!(s.value(), 175928847299117063);
    assert!(Snowflake::from_string(String::from("abc")).is_none());
    assert!(Snowflake::from_string(String::from("")).is_none());
    assert!(Snowflake::from_string(String::from("-1")).is_none());
    assert!(Snowflake::from_string(String::from("18446744073709551616")).is_none());
}

#[test]
fn user_from_json_and_flags() {
    let u = User::from_json(&chars(
        "{\"id\":\"42\",\"username\":\"ada\",\"discriminator\":\"0001\",\
         \"bot\":true,\"locale\":\"en\",\"premium_type\":2,\"flags\":65537,\
         \"public_flags\":1}",
    ))
    .expect("user decodes");
    assert_eq!(u.id, "42");
    assert_eq!(u.bot, Some(true));
    assert_eq!(u.premium_type, Some(PremiumType::Nitro));
    assert_eq!(u.has_flag(Flag::Staff), Some(true));
    assert_eq!(u.has_flag(Flag::Partner), Some(false));
    assert_eq!(u.has_flag(Flag::VerifiedBot), Some(true));
    assert_eq!(u.has_public_flag(Flag::Staff), Some(true));
    assert_eq!(u.has_public_flag(Flag::VerifiedBot), Some(false));
}

#[test]
fn user_without_flag_masks() {
    let u = User::from_json(&chars(
        "{\"id\":\"42\",\"username\":\"ada\",\"discriminator\":\"0001\"}",
    ))
    .expect("user decodes");
    assert_eq!(u.has_flag(Flag::Staff), None);
    assert_eq!(u.has_public_flag(Flag::Staff), None);
    assert_eq!(u.locale, None);
    assert_eq!(u.premium_type, None);
}

#[test]
fn user_rejects_bad_premium_code() {
    assert!(User::from_json(&chars(
        "{\"id\":\"42\",\"username\":\"ada\",\"discriminator\":\"0001\",\"premium_type\":9}",
    ))
    .is_none());
}

#[test]
fn guild_from_json_with_roles() {
    let g = Guild::from_json(&chars(
        "{\"id\":\"5\",\"name\":\"den\",\"afk_timeout\":300,\"verification_level\":1,\
         \"mfa_level\":0,\"icon\":null,\"roles\":[{\"id\":\"9\",\"name\":\"mods\",\
         \"color\":255,\"hoist\":true,\"position\":1,\"permissions\":8,\
         \"permissions_new\":\"8\",\"managed\":false,\"mentionable\":true}]}",
    ))
    .expect("guild decodes");
    assert_eq!(g.name, "den");
    assert_eq!(g.icon, None);
    assert_eq!(g.roles.len(), 1);
    assert_eq!(g.roles[0].name, "mods");
    assert_eq!(g.roles[0].color, 255);
    assert!(g.roles[0].hoist);
}

#[test]
fn guild_member_reads_roles_key() {
    let m = GuildMember::from_json(&chars(
        "{\"user\":{\"id\":\"42\",\"username\":\"ada\",\"discriminator\":\"0001\"},\
         \"roles\":[\"1\",\"2\"],\"joined_at\":\"2021\",\"deaf\":false,\"mute\":false}",
    ))
    .expect("member decodes");
    assert_eq!(m.role_ids, vec![String::from("1"), String::from("2")]);
    assert_eq!(m.user.as_ref().map(|u| u.username.clone()), Some(String::from("ada")));
    assert_eq!(m.nick, None);
}

#[test]
fn guild_member_update_from_json() {
    let u = GuildMemberUpdate::from_json(&chars(
        "{\"guild_id\":\"5\",\"nick\":\"a\",\"roles\":[],\
         \"user\":{\"id\":\"42\",\"username\":\"ada\",\"discriminator\":\"0001\"}}",
    ))
    .expect("update decodes");
    assert_eq!(u.guild_id, "5");
    assert_eq!(u.user.username, "ada");
    assert_eq!(u.nick.as_deref(), Some("a"));
}

#[test]
fn unavailable_guild_from_json() {
    let g = UnavailableGuild::from_json(&chars("{\"id\":\"123\"}")).expect("guild stub decodes");
    assert_eq!(g.id, "123");
}

#[test]
fn channel_from_json_reads_type_code() {
    let c = Channel::from_json(&chars(
        "{\"id\":\"9\",\"type\":0,\"name\":\"general\",\"nsfw\":false}",
    ))
    .expect("channel decodes");
    assert_eq!(c.channel_type, ChannelType::GuildText);
    assert_eq!(c.name.as_deref(), Some("general"));
    assert!(Channel::from_json(&chars("{\"id\":\"9\",\"type\":7}")).is_none());
    assert_eq!(ChannelType::from_i64(13), Some(ChannelType::GuildStageVoice));
    assert_eq!(ChannelType::GuildNewsThread.as_i64(), 10);
}

#[test]
fn message_from_json_exact_fields() {
    let m = Message::from_json(&chars(
        "{\"id\":111,\"author\":{\"id\":\"42\",\"username\":\"ada\",\
         \"discriminator\":\"0001\"},\"channel_id\":\"9\",\"content\":\"hi\",\
         \"timestamp\":5,\"tts\":false,\"mention_everyone\":true,\
         \"mention_roles\":[\"7\"],\"type\":19,\"flags\":4}",
    ))
    .expect("message decodes");
    assert_eq!(m.id.value(), 111);
    assert_eq!(m.message_type, MessageType::Reply);
    assert_eq!(m.mention_roles, vec![String::from("7")]);
    assert!(m.mention_everyone);
    assert_eq!(m.flags, Some(4));
    assert_eq!(MessageType::from_i64(13), None);
    assert_eq!(MessageType::from_i64(23), Some(MessageType::ContextMenuCommand));
}

#[test]
fn interaction_from_json_with_options() {
    let i = Interaction::from_json(&chars(
        "{\"id\":\"3\",\"application_id\":\"77\",\"token\":\"tk\",\"version\":1,\
         \"type\":2,\"guild_id\":\"5\",\"data\":{\"id\":\"8\",\"name\":\"roll\",\
         \"options\":[{\"name\":\"sides\",\"type\":4,\"value\":\"20\",\
         \"options\":[{\"name\":\"inner\",\"type\":3}]}]}}",
    ))
    .expect("interaction decodes");
    assert_eq!(i.interaction_type, InteractionType::ApplicationCommand);
    assert_eq!(i.data.name, "roll");
    let opts = i.data.options.as_ref().expect("options present");
    assert_eq!(opts[0].name, "sides");
    assert_eq!(opts[0].option_type, ApplicationCommandOptionType::Integer);
    assert_eq!(opts[0].value.as_deref(), Some("20"));
    let inner = opts[0].options.as_ref().expect("nested options present");
    assert_eq!(inner[0].name, "inner");
    assert_eq!(inner[0].option_type, ApplicationCommandOptionType::Text);
}

#[test]
fn bot_config_from_json() {
    let c = BotConfig::from_json(&chars(
        "{\"token\":\"tok123\",\"application_id\":\"77\",\"intents\":512}",
    ))
    .expect("config decodes");
    assert_eq!(c.application_id, "77");
    assert_eq!(c.intents, 512);
    assert!(BotConfig::from_json(&chars("{\"token\":\"t\",\"application_id\":\"7\"}")).is_none());
    assert!(BotConfig::from_json(&chars(
        "{\"token\":\"t\",\"application_id\":\"7\",\"intents\":4294967296}"
    ))
    .is_none());
}

#[test]
fn bot_gateway_from_json() {
    let g = BotGateway::from_json(&chars(
        "{\"url\":\"wss://gateway.example.com\",\"shards\":1,\
         \"session_start_limit\":{\"total\":1000,\"remaining\":999,\
         \"reset_after\":0,\"max_concurrency\":1}}",
    ))
    .expect("bootstrap answer decodes");
    assert_eq!(g.url, "wss://gateway.example.com");
    assert_eq!(g.shards, 1);
    assert_eq!(g.session_start_limit.remaining, 999);
}

#[test]
fn send_message_builder_renders_text() {
    let b = SendMessageBuilder::new(SendMessageContent::TextMessage(String::from("hi \"you\"")));
    assert_eq!(text(&b.payload_chars()), "{\"tts\":false,\"content\":\"hi \\\"you\\\"\"}");
    let b2 = SendMessageBuilder::new(SendMessageContent::TextMessage(String::from("x"))).tts(true);
    assert_eq!(text(&b2.payload_chars()), "{\"tts\":true,\"content\":\"x\"}");
}

#[test]
fn send_message_builder_renders_stickers() {
    let b = SendMessageBuilder::new(SendMessageContent::StickersMessage(vec![
        String::from("1"),
        String::from("2"),
    ]));
    assert_eq!(text(&b.payload_chars()), "{\"tts\":false,\"content\":[\"1\",\"2\"]}");
    let empty = SendMessageBuilder::new(SendMessageContent::StickersMessage(Vec::new()));
    assert_eq!(text(&empty.payload_chars()), "{\"tts\":false,\"content\":[]}");
}

#[test]
fn embed_builder_sets_slots() {
    let b = EmbedBuilder::new()
        .title(String::from("t"))
        .description(String::from("d"))
        .timestamp(9)
        .color(255);
    assert_eq!(b.0.title.as_deref(), Some("t"));
    assert_eq!(b.0.description.as_deref(), Some("d"));
    assert_eq!(b.0.timestamp, Some(9));
    assert_eq!(b.0.color, Some(255));
    assert_eq!(b.0.url, None);
    let b2 = EmbedBuilder::new().url(String::from("u"));
    assert_eq!(b2.0.url.as_deref(), Some("u"));
    assert_eq!(b2.0.title, None);
}

#[test]
fn request_urls_are_exact() {
    assert_eq!(
        rest::discord_request_url(rest::Version::V9, rest::Endpoint::BotGateway),
        "https://discordapp.com/api/v9/gateway/bot"
    );
    assert_eq!(
        rest::discord_request_url(rest::Version::V6, rest::Endpoint::BotGateway),
        "https://discordapp.com/api/v6/gateway/bot"
    );
    assert_eq!(rest::api_url("users/@me"), "https://discordapp.com/api/v9/users/@me");
    assert_eq!(rest::channel_endpoint("9"), "channels/9");
    assert_eq!(rest::channel_messages_endpoint("9"), "channels/9/messages");
    assert_eq!(rest::guild_endpoint("5"), "guilds/5");
    assert_eq!(rest::guild_members_endpoint("5"), "guilds/5/members");
    assert_eq!(rest::guild_member_endpoint("5", "42"), "guilds/5/members/42");
    assert_eq!(rest::guild_roles_endpoint("5"), "guild/5/roles");
    assert_eq!(rest::user_endpoint("42"), "users/42");
    assert_eq!(rest::current_user_endpoint(), "users/@me");
    assert_eq!(rest::dm_channels_endpoint(), "users/@me/channels");
    assert_eq!(rest::authorization_header_value("tok"), "Bot tok");
    assert_eq!(text(&rest::dm_channel_payload(&String::from("42"))), "{\"recipient_id\":\"42\"}");
}

#[test]
fn control_characters_are_escaped() {
    let b = SendMessageBuilder::new(SendMessageContent::TextMessage(String::from("a\nb\u{1}c")));
    assert_eq!(text(&b.payload_chars()), "{\"tts\":false,\"content\":\"a\\u000ab\\u0001c\"}");
}

#[test]
fn string_values_are_unescaped() {
    let u = User::from_json(&chars(
        "{\"id\":\"42\",\"username\":\"a\\nb \\u0041 \\uD83D\\uDE00 \\\\ \\\"\",\
         \"discriminator\":\"0001\"}",
    ))
    .expect("user decodes");
    assert_eq!(u.username, "a\nb A \u{1F600} \\ \"");
}

#[test]
fn simple_escapes_all_decode() {
    let u = User::from_json(&chars(
        "{\"id\":\"42\",\"username\":\"\\\"\\\\\\/\\b\\f\\n\\r\\t\",\"discriminator\":\"0001\"}",
    ))
    .expect("user decodes");
    assert_eq!(u.username, "\"\\/\u{8}\u{c}\n\r\t");
}

#[test]
fn bad_escapes_are_malformed() {
    assert!(User::from_json(&chars(
        "{\"id\":\"42\",\"username\":\"a\\qb\",\"discriminator\":\"0001\"}",
    ))
    .is_none());
    // a lone high surrogate names no character
    assert!(User::from_json(&chars(
        "{\"id\":\"42\",\"username\":\"\\uD800\",\"discriminator\":\"0001\"}",
    ))
    .is_none());
}

#[test]
fn outbound_escaping_reads_back() {
    let b = SendMessageBuilder::new(SendMessageContent::TextMessage(String::from(
        "a\"b\\c\nd \u{1F600}",
    )));
    let payload = b.payload_chars();
    let fields = rustcord::json::doc_fields_exec(&payload).expect("own payload scans");
    let content = rustcord::json::fs_req_str(&payload, &fields, "content")
        .expect("content reads back");
    assert_eq!(text(&content), "a\"b\\c\nd \u{1F600}");
}
