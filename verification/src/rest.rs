//! The request-side arithmetic of the one-shot HTTP helpers: versions,
//! endpoints, request URLs and request bodies. The caller performs the
//! HTTP itself and hands the answers back as text.

use vstd::prelude::*;

use crate::channel::{push_quoted, quoted_text};

verus! {

/// An API version the service still answers.
#[derive(Clone, Copy, Debug, PartialEq, Eq, Structural)]
pub enum Version {
    V6,
    V8,
    V9,
}

/// The path segment a version stands under.
pub open spec fn spec_version_segment(v: Version) -> Seq<char> {
    match v {
        Version::V6 => "v6"@,
        Version::V8 => "v8"@,
        Version::V9 => "v9"@,
    }
}

impl Version {
    pub fn path_segment(&self) -> (r: &'static str)
        ensures
            r@ == spec_version_segment(*self),
    {
        match self {
            Version::V6 => "v6",
            Version::V8 => "v8",
            Version::V9 => "v9",
        }
    }
}

/// A named endpoint of the service's HTTP side.
#[derive(Clone, Copy, Debug, PartialEq, Eq, Structural)]
pub enum Endpoint {
    /// Where the gateway's WebSocket URL is asked for.
    BotGateway,
}

/// The path an endpoint stands under.
pub open spec fn spec_endpoint_path(e: Endpoint) -> Seq<char> {
    match e {
        Endpoint::BotGateway => "gateway/bot"@,
    }
}

impl Endpoint {
    pub fn path(&self) -> (r: &'static str)
        ensures
            r@ == spec_endpoint_path(*self),
    {
        match self {
            Endpoint::BotGateway => "gateway/bot",
        }
    }
}

/// The URL of a named endpoint under a chosen version.
pub fn discord_request_url(version: Version, endpoint: Endpoint) -> (r: String)
    ensures
        r@ == "https://discordapp.com/api/"@ + spec_version_segment(version) + "/"@
            + spec_endpoint_path(endpoint),
{
    let mut url = String::from_str("https://discordapp.com/api/");
    url.append(version.path_segment());
    url.append("/");
    url.append(endpoint.path());
    url
}

/// The URL of a free-form endpoint under the version this library speaks.
pub fn api_url(endpoint: &str) -> (r: String)
    ensures
        r@ == "https://discordapp.com/api/v9/"@ + endpoint@,
{
    let mut url = String::from_str("https://discordapp.com/api/v9/");
    url.append(endpoint);
    url
}

/// The endpoint of one channel.
pub fn channel_endpoint(channel_id: &str) -> (r: String)
    ensures
        r@ == "channels/"@ + channel_id@,
{
    let mut e = String::from_str("channels/");
    e.append(channel_id);
    e
}

/// The endpoint a channel's messages are posted to.
pub fn channel_messages_endpoint(channel_id: &str) -> (r: String)
    ensures
        r@ == "channels/"@ + channel_id@ + "/messages"@,
{
    let mut e = String::from_str("channels/");
    e.append(channel_id);
    e.append("/messages");
    e
}

/// The endpoint of one guild.
pub fn guild_endpoint(guild_id: &str) -> (r: String)
    ensures
        r@ == "guilds/"@ + guild_id@,
{
    let mut e = String::from_str("guilds/");
    e.append(guild_id);
    e
}

/// The endpoint of a guild's members.
pub fn guild_members_endpoint(guild_id: &str) -> (r: String)
    ensures
        r@ == "guilds/"@ + guild_id@ + "/members"@,
{
    let mut e = String::from_str("guilds/");
    e.append(guild_id);
    e.append("/members");
    e
}

/// The endpoint of one member of a guild.
pub fn guild_member_endpoint(guild_id: &str, user_id: &str) -> (r: String)
    ensures
        r@ == "guilds/"@ + guild_id@ + "/members/"@ + user_id@,
{
    let mut e = String::from_str("guilds/");
    e.append(guild_id);
    e.append("/members/");
    e.append(user_id);
    e
}

/// The endpoint a guild's roles are read from, spelled exactly as this
/// library has always spelled it.
pub fn guild_roles_endpoint(guild_id: &str) -> (r: String)
    ensures
        r@ == "guild/"@ + guild_id@ + "/roles"@,
{
    let mut e = String::from_str("guild/");
    e.append(guild_id);
    e.append("/roles");
    e
}

/// The endpoint of one user.
pub fn user_endpoint(user_id: &str) -> (r: String)
    ensures
        r@ == "users/"@ + user_id@,
{
    let mut e = String::from_str("users/");
    e.append(user_id);
    e
}

/// The endpoint of the connected account.
pub fn current_user_endpoint() -> (r: String)
    ensures
        r@ == "users/@me"@,
{
    String::from_str("users/@me")
}

/// The endpoint direct-message channels are opened at.
pub fn dm_channels_endpoint() -> (r: String)
    ensures
        r@ == "users/@me/channels"@,
{
    String::from_str("users/@me/channels")
}

/// The body that opens a direct-message channel with one recipient.
pub fn dm_channel_payload(recipient_id: &String) -> (r: Vec<char>)
    ensures
        r@ == seq!['{', '"', 'r', 'e', 'c', 'i', 'p', 'i', 'e', 'n', 't', '_', 'i', 'd', '"', ':']
            + quoted_text(recipient_id@) + seq!['}'],
{
    let mut out: Vec<char> = vec![
        '{',
        '"',
        'r',
        'e',
        'c',
        'i',
        'p',
        'i',
        'e',
        'n',
        't',
        '_',
        'i',
        'd',
        '"',
        ':',
    ];
    proof {
        assert(out@ =~= seq![
            '{',
            '"',
            'r',
            'e',
            'c',
            'i',
            'p',
            'i',
            'e',
            'n',
            't',
            '_',
            'i',
            'd',
            '"',
            ':',
        ]);
    }
    push_quoted(&mut out, recipient_id);
    out.push('}');
    proof {
        assert(out@ =~= seq![
            '{',
            '"',
            'r',
            'e',
            'c',
            'i',
            'p',
            'i',
            'e',
            'n',
            't',
            '_',
            'i',
            'd',
            '"',
            ':',
        ] + quoted_text(recipient_id@) + seq!['}']);
    }
    out
}

/// The bearer line sent with every request.
pub fn authorization_header_value(token: &str) -> (r: String)
    ensures
        r@ == "Bot "@ + token@,
{
    let mut h = String::from_str("Bot ");
    h.append(token);
    h
}

} // verus!
