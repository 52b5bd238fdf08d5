//! Messages, their kinds, and the embed builder.

use vstd::prelude::*;

use crate::json::{
    doc_fields_exec, fs_opt_i64, fs_opt_str, fs_raw, fs_req_bool, fs_req_i64, fs_req_str, lookup,
    parse_str_list, span_is_null, spans_wf, fields_view, spec_doc_fields, spec_fs_opt_i64,
    spec_fs_opt_str, spec_fs_raw, spec_fs_req_bool, spec_fs_req_i64, spec_fs_req_str,
    spec_str_list, is_null_text, copy_range, find_field,
};
use crate::guild::{strings_seq_view, view_opt_str};
use crate::misc::{
    fs_opt_snowflake, fs_snowflake, spec_application, spec_fs_opt_snowflake, spec_fs_snowflake,
    Application, Snowflake,
};
use crate::outside::chars_to_string;
use crate::user::{spec_user, User, UserModel};

verus! {

/// What kind of message a message is.
#[derive(Clone, Copy, Debug, PartialEq, Eq, Structural)]
pub enum MessageType {
    Default,
    RecipientAdd,
    RecipientRemove,
    Call,
    ChannelNameChange,
    ChannelIconChange,
    ChannelPinnedMessage,
    GuildMemberJoin,
    UserPremiumGuildSubscription,
    UserPremiumGuildSubscriptionTier1,
    UserPremiumGuildSubscriptionTier2,
    UserPremiumGuildSubscriptionTier3,
    ChannelFollowAdd,
    GuildDiscoveryDisqualified,
    GuildDiscoveryRequalified,
    GuildDiscoveryGracePeriodInitialWarning,
    GuildDiscoveryGracePeriodFinalWarning,
    ThreadCreated,
    Reply,
    ChatInputCommand,
    ThreadStarterMessage,
    GuildInviteReminder,
    ContextMenuCommand,
}

/// The wire coding of the message kind.
pub open spec fn spec_message_type(n: int) -> Option<MessageType> {
    if n == 0 {
        Some(MessageType::Default)
    } else if n == 1 {
        Some(MessageType::RecipientAdd)
    } else if n == 2 {
        Some(MessageType::RecipientRemove)
    } else if n == 3 {
        Some(MessageType::Call)
    } else if n == 4 {
        Some(MessageType::ChannelNameChange)
    } else if n == 5 {
        Some(MessageType::ChannelIconChange)
    } else if n == 6 {
        Some(MessageType::ChannelPinnedMessage)
    } else if n == 7 {
        Some(MessageType::GuildMemberJoin)
    } else if n == 8 {
        Some(MessageType::UserPremiumGuildSubscription)
    } else if n == 9 {
        Some(MessageType::UserPremiumGuildSubscriptionTier1)
    } else if n == 10 {
        Some(MessageType::UserPremiumGuildSubscriptionTier2)
    } else if n == 11 {
        Some(MessageType::UserPremiumGuildSubscriptionTier3)
    } else if n == 12 {
        Some(MessageType::ChannelFollowAdd)
    } else if n == 14 {
        Some(MessageType::GuildDiscoveryDisqualified)
    } else if n == 15 {
        Some(MessageType::GuildDiscoveryRequalified)
    } else if n == 16 {
        Some(MessageType::GuildDiscoveryGracePeriodInitialWarning)
    } else if n == 17 {
        Some(MessageType::GuildDiscoveryGracePeriodFinalWarning)
    } else if n == 18 {
        Some(MessageType::ThreadCreated)
    } else if n == 19 {
        Some(MessageType::Reply)
    } else if n == 20 {
        Some(MessageType::ChatInputCommand)
    } else if n == 21 {
        Some(MessageType::ThreadStarterMessage)
    } else if n == 22 {
        Some(MessageType::GuildInviteReminder)
    } else if n == 23 {
        Some(MessageType::ContextMenuCommand)
    } else {
        None
    }
}

impl MessageType {
    pub fn from_i64(n: i64) -> (r: Option<MessageType>)
        ensures
            r == spec_message_type(n as int),
    {
        if n == 0 {
            Some(MessageType::Default)
        } else if n == 1 {
            Some(MessageType::RecipientAdd)
        } else if n == 2 {
            Some(MessageType::RecipientRemove)
        } else if n == 3 {
            Some(MessageType::Call)
        } else if n == 4 {
            Some(MessageType::ChannelNameChange)
        } else if n == 5 {
            Some(MessageType::ChannelIconChange)
        } else if n == 6 {
            Some(MessageType::ChannelPinnedMessage)
        } else if n == 7 {
            Some(MessageType::GuildMemberJoin)
        } else if n == 8 {
            Some(MessageType::UserPremiumGuildSubscription)
        } else if n == 9 {
            Some(MessageType::UserPremiumGuildSubscriptionTier1)
        } else if n == 10 {
            Some(MessageType::UserPremiumGuildSubscriptionTier2)
        } else if n == 11 {
            Some(MessageType::UserPremiumGuildSubscriptionTier3)
        } else if n == 12 {
            Some(MessageType::ChannelFollowAdd)
        } else if n == 14 {
            Some(MessageType::GuildDiscoveryDisqualified)
        } else if n == 15 {
            Some(MessageType::GuildDiscoveryRequalified)
        } else if n == 16 {
            Some(MessageType::GuildDiscoveryGracePeriodInitialWarning)
        } else if n == 17 {
            Some(MessageType::GuildDiscoveryGracePeriodFinalWarning)
        } else if n == 18 {
            Some(MessageType::ThreadCreated)
        } else if n == 19 {
            Some(MessageType::Reply)
        } else if n == 20 {
            Some(MessageType::ChatInputCommand)
        } else if n == 21 {
            Some(MessageType::ThreadStarterMessage)
        } else if n == 22 {
            Some(MessageType::GuildInviteReminder)
        } else if n == 23 {
            Some(MessageType::ContextMenuCommand)
        } else {
            None
        }
    }
}

/// What the ghost model of a message holds.
pub struct MessageModel {
    pub id: u64,
    pub author: UserModel,
    pub channel_id: Seq<char>,
    pub guild_id: Option<Seq<char>>,
    pub content: Seq<char>,
    pub timestamp: i64,
    pub edited_timestamp: Option<Seq<char>>,
    pub tts: bool,
    pub mention_everyone: bool,
    pub mention_roles: Seq<Seq<char>>,
    pub application: Option<u64>,
    pub application_id: Option<u64>,
    pub flags: Option<i64>,
    pub message_type: MessageType,
}

/// One message of a channel, as a message-create event carries it.
pub struct Message {
    pub id: Snowflake,
    pub author: User,
    pub channel_id: String,
    pub guild_id: Option<String>,
    pub content: String,
    pub timestamp: i64,
    pub edited_timestamp: Option<String>,
    pub tts: bool,
    pub mention_everyone: bool,
    pub mention_roles: Vec<String>,
    pub application: Option<Application>,
    pub application_id: Option<Snowflake>,
    pub flags: Option<i64>,
    pub message_type: MessageType,
}

impl View for Message {
    type V = MessageModel;

    open spec fn view(&self) -> MessageModel {
        MessageModel {
            id: self.id@,
            author: self.author@,
            channel_id: self.channel_id@,
            guild_id: view_opt_str(self.guild_id),
            content: self.content@,
            timestamp: self.timestamp,
            edited_timestamp: view_opt_str(self.edited_timestamp),
            tts: self.tts,
            mention_everyone: self.mention_everyone,
            mention_roles: strings_seq_view(self.mention_roles@),
            application: match self.application {
                None => None,
                Some(a) => Some(a@),
            },
            application_id: match self.application_id {
                None => None,
                Some(a) => Some(a@),
            },
            flags: self.flags,
            message_type: self.message_type,
        }
    }
}

/// An optional nested application object.
pub open spec fn spec_fs_opt_application(
    s: Seq<char>,
    fs: Seq<(Seq<char>, (int, int))>,
    key: Seq<char>,
) -> Option<Option<u64>> {
    match lookup(fs, key) {
        None => Some(None),
        Some(sp) => if is_null_text(s.subrange(sp.0, sp.1)) {
            Some(None)
        } else {
            match spec_application(s.subrange(sp.0, sp.1)) {
                None => None,
                Some(a) => Some(Some(a)),
            }
        },
    }
}

pub fn fs_opt_application(s: &Vec<char>, fields: &Vec<crate::json::RawField>, key: &str) -> (r:
    Option<Option<Application>>)
    requires
        spans_wf(s@, fields_view(fields@)),
    ensures
        match r {
            Some(Some(a)) => spec_fs_opt_application(s@, fields_view(fields@), key@) == Some(
                Some(a@),
            ),
            Some(None) => spec_fs_opt_application(s@, fields_view(fields@), key@) == Some(
                None::<u64>,
            ),
            None => spec_fs_opt_application(s@, fields_view(fields@), key@) is None,
        },
{
    match find_field(s, fields, key) {
        None => Some(None),
        Some((a, b)) => {
            if span_is_null(s, a, b) {
                Some(None)
            } else {
                let one = copy_range(s, a, b);
                match Application::from_json(&one) {
                    Some(app) => Some(Some(app)),
                    None => None,
                }
            }
        },
    }
}

/// The message object's wire shape; its kind stands under the key `type`,
/// and its author is a nested user object.
pub open spec fn spec_message(p: Seq<char>) -> Option<MessageModel> {
    match spec_doc_fields(p) {
        None => None,
        Some(fs) => match (
            spec_fs_snowflake(p, fs, "id"@),
            spec_fs_req_str(p, fs, "channel_id"@),
            spec_fs_req_str(p, fs, "content"@),
            spec_fs_req_i64(p, fs, "timestamp"@),
            spec_fs_req_i64(p, fs, "type"@),
        ) {
            (Some(id), Some(channel_id), Some(content), Some(timestamp), Some(ty)) => match spec_message_type(
                ty as int,
            ) {
                None => None,
                Some(message_type) => match (
                    spec_fs_opt_str(p, fs, "guild_id"@),
                    spec_fs_opt_str(p, fs, "edited_timestamp"@),
                    spec_fs_req_bool(p, fs, "tts"@),
                    spec_fs_req_bool(p, fs, "mention_everyone"@),
                ) {
                    (Some(guild_id), Some(edited_timestamp), Some(tts), Some(mention_everyone)) => match (
                        spec_fs_opt_application(p, fs, "application"@),
                        spec_fs_opt_snowflake(p, fs, "application_id"@),
                        spec_fs_opt_i64(p, fs, "flags"@),
                    ) {
                        (Some(application), Some(application_id), Some(flags)) => match spec_fs_raw(
                            p,
                            fs,
                            "mention_roles"@,
                        ) {
                            None => None,
                            Some(rraw) => match spec_str_list(rraw) {
                                None => None,
                                Some(mention_roles) => match spec_fs_raw(p, fs, "author"@) {
                                    None => None,
                                    Some(uraw) => match spec_user(uraw) {
                                        None => None,
                                        Some(author) => Some(
                                            MessageModel {
                                                id,
                                                author,
                                                channel_id,
                                                guild_id,
                                                content,
                                                timestamp,
                                                edited_timestamp,
                                                tts,
                                                mention_everyone,
                                                mention_roles,
                                                application,
                                                application_id,
                                                flags,
                                                message_type,
                                            },
                                        ),
                                    },
                                },
                            },
                        },
                        _ => None,
                    },
                    _ => None,
                },
            },
            _ => None,
        },
    }
}

impl Message {
    pub fn from_json(p: &Vec<char>) -> (r: Option<Message>)
        ensures
            match r {
                Some(m) => spec_message(p@) == Some(m@),
                None => spec_message(p@) is None,
            },
    {
        let fields = match doc_fields_exec(p) {
            Some(f) => f,
            None => {
                return None;
            },
        };
        let id = match fs_snowflake(p, &fields, "id") {
            Some(v) => v,
            None => {
                return None;
            },
        };
        let channel_id = match fs_req_str(p, &fields, "channel_id") {
            Some(v) => chars_to_string(&v),
            None => {
                return None;
            },
        };
        let content = match fs_req_str(p, &fields, "content") {
            Some(v) => chars_to_string(&v),
            None => {
                return None;
            },
        };
        let timestamp = match fs_req_i64(p, &fields, "timestamp") {
            Some(v) => v,
            None => {
                return None;
            },
        };
        let ty = match fs_req_i64(p, &fields, "type") {
            Some(v) => v,
            None => {
                return None;
            },
        };
        let message_type = match MessageType::from_i64(ty) {
            Some(v) => v,
            None => {
                return None;
            },
        };
        let guild_id = match fs_opt_str(p, &fields, "guild_id") {
            Some(Some(v)) => Some(chars_to_string(&v)),
            Some(None) => None,
            None => {
                return None;
            },
        };
        let edited_timestamp = match fs_opt_str(p, &fields, "edited_timestamp") {
            Some(Some(v)) => Some(chars_to_string(&v)),
            Some(None) => None,
            None => {
                return None;
            },
        };
        let tts = match fs_req_bool(p, &fields, "tts") {
            Some(v) => v,
            None => {
                return None;
            },
        };
        let mention_everyone = match fs_req_bool(p, &fields, "mention_everyone") {
            Some(v) => v,
            None => {
                return None;
            },
        };
        let application = match fs_opt_application(p, &fields, "application") {
            Some(v) => v,
            None => {
                return None;
            },
        };
        let application_id = match fs_opt_snowflake(p, &fields, "application_id") {
            Some(v) => v,
            None => {
                return None;
            },
        };
        let flags = match fs_opt_i64(p, &fields, "flags") {
            Some(v) => v,
            None => {
                return None;
            },
        };
        let rraw = match fs_raw(p, &fields, "mention_roles") {
            Some(v) => v,
            None => {
                return None;
            },
        };
        let mention_roles = match parse_str_list(&rraw) {
            Some(v) => v,
            None => {
                return None;
            },
        };
        let uraw = match fs_raw(p, &fields, "author") {
            Some(v) => v,
            None => {
                return None;
            },
        };
        let author = match User::from_json(&uraw) {
            Some(v) => v,
            None => {
                return None;
            },
        };
        Some(
            Message {
                id,
                author,
                channel_id,
                guild_id,
                content,
                timestamp,
                edited_timestamp,
                tts,
                mention_everyone,
                mention_roles,
                application,
                application_id,
                flags,
                message_type,
            },
        )
    }
}

/// The footer line of an embed.
#[derive(Clone, Debug)]
pub struct EmbedFooter {
    pub text: String,
    pub icon_url: Option<String>,
    pub proxy_icon_url: Option<String>,
}

/// The image of an embed.
#[derive(Clone, Debug)]
pub struct EmbedImage {
    pub url: String,
    pub proxy_url: Option<String>,
    pub height: Option<i64>,
    pub width: Option<i64>,
}

/// The thumbnail of an embed.
#[derive(Clone, Debug)]
pub struct EmbedThumbnail {
    pub url: String,
    pub proxy_url: Option<String>,
    pub height: Option<i64>,
    pub width: Option<i64>,
}

/// The video of an embed.
#[derive(Clone, Debug)]
pub struct EmbedVideo {
    pub url: Option<String>,
    pub proxy_url: Option<String>,
    pub height: Option<i64>,
    pub width: Option<i64>,
}

/// The provider line of an embed.
#[derive(Clone, Debug)]
pub struct EmbedProvider {
    pub name: Option<String>,
    pub url: Option<String>,
}

/// The author line of an embed.
#[derive(Clone, Debug)]
pub struct EmbedAuthor {
    pub name: String,
    pub url: Option<String>,
    pub icon_url: Option<String>,
    pub proxy_icon_url: Option<String>,
}

/// One titled field of an embed.
#[derive(Clone, Debug)]
pub struct EmbedField {
    pub name: String,
    pub value: String,
    pub inline: Option<bool>,
}

/// A rich embed attached to a message.
#[derive(Debug)]
pub struct MessageEmbed {
    pub title: Option<String>,
    pub description: Option<String>,
    pub url: Option<String>,
    pub timestamp: Option<i64>,
    pub color: Option<i64>,
    pub footer: Option<EmbedFooter>,
    pub image: Option<EmbedImage>,
    pub thumbnail: Option<EmbedThumbnail>,
    pub video: Option<EmbedVideo>,
    pub provider: Option<EmbedProvider>,
    pub author: Option<EmbedAuthor>,
    pub fields: Vec<EmbedField>,
}

/// Assembles an embed a piece at a time: each setter fills its own slot
/// and leaves every other slot as it was.
pub struct EmbedBuilder(pub MessageEmbed);

impl EmbedBuilder {
    /// An embed with nothing set.
    pub fn new() -> (r: Self)
        ensures
            r.0.title is None,
            r.0.description is None,
            r.0.url is None,
            r.0.timestamp is None,
            r.0.color is None,
            r.0.footer is None,
            r.0.image is None,
            r.0.thumbnail is None,
            r.0.video is None,
            r.0.provider is None,
            r.0.author is None,
            r.0.fields@.len() == 0,
    {
        EmbedBuilder(
            MessageEmbed {
                title: None,
                description: None,
                url: None,
                timestamp: None,
                color: None,
                footer: None,
                image: None,
                thumbnail: None,
                video: None,
                provider: None,
                author: None,
                fields: Vec::new(),
            },
        )
    }

    /// Set the title.
    pub fn title(self, t: String) -> (r: Self)
        ensures
            r.0 == (MessageEmbed { title: Some(t), ..self.0 }),
    {
        EmbedBuilder(MessageEmbed { title: Some(t), ..self.0 })
    }

    /// Set the description.
    pub fn description(self, desc: String) -> (r: Self)
        ensures
            r.0 == (MessageEmbed { description: Some(desc), ..self.0 }),
    {
        EmbedBuilder(MessageEmbed { description: Some(desc), ..self.0 })
    }

    /// Set the URL.
    pub fn url(self, u: String) -> (r: Self)
        ensures
            r.0 == (MessageEmbed { url: Some(u), ..self.0 }),
    {
        EmbedBuilder(MessageEmbed { url: Some(u), ..self.0 })
    }

    /// Set the timestamp.
    pub fn timestamp(self, t: i64) -> (r: Self)
        ensures
            r.0 == (MessageEmbed { timestamp: Some(t), ..self.0 }),
    {
        EmbedBuilder(MessageEmbed { timestamp: Some(t), ..self.0 })
    }

    /// Set the color.
    pub fn color(self, c: i64) -> (r: Self)
        ensures
            r.0 == (MessageEmbed { color: Some(c), ..self.0 }),
    {
        EmbedBuilder(MessageEmbed { color: Some(c), ..self.0 })
    }
}

} // verus!
