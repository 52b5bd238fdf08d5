//! Channels, and the builder for messages sent to one.

use vstd::prelude::*;

use crate::json::{
    doc_fields_exec, fs_opt_bool, fs_opt_i64, fs_opt_str, fs_req_i64, fs_req_str, spec_doc_fields,
    spec_fs_opt_bool, spec_fs_opt_i64, spec_fs_opt_str, spec_fs_req_i64, spec_fs_req_str,
};
use crate::outside::chars_to_string;
use crate::text::{escape_text, push_escaped};

verus! {

/// What kind of channel a channel is.
#[derive(Clone, Copy, Debug, PartialEq, Eq, Structural)]
pub enum ChannelType {
    GuildText,
    DirectMessage,
    GuildVoice,
    GroupDirectMessage,
    GuildCategory,
    GuildNews,
    GuildStore,
    GuildNewsThread,
    GuildPublicThread,
    GuildPrivateThread,
    GuildStageVoice,
}

/// The wire coding of the channel kind.
pub open spec fn spec_channel_type(n: int) -> Option<ChannelType> {
    if n == 0 {
        Some(ChannelType::GuildText)
    } else if n == 1 {
        Some(ChannelType::DirectMessage)
    } else if n == 2 {
        Some(ChannelType::GuildVoice)
    } else if n == 3 {
        Some(ChannelType::GroupDirectMessage)
    } else if n == 4 {
        Some(ChannelType::GuildCategory)
    } else if n == 5 {
        Some(ChannelType::GuildNews)
    } else if n == 6 {
        Some(ChannelType::GuildStore)
    } else if n == 10 {
        Some(ChannelType::GuildNewsThread)
    } else if n == 11 {
        Some(ChannelType::GuildPublicThread)
    } else if n == 12 {
        Some(ChannelType::GuildPrivateThread)
    } else if n == 13 {
        Some(ChannelType::GuildStageVoice)
    } else {
        None
    }
}

impl ChannelType {
    pub fn from_i64(n: i64) -> (r: Option<ChannelType>)
        ensures
            r == spec_channel_type(n as int),
    {
        if n == 0 {
            Some(ChannelType::GuildText)
        } else if n == 1 {
            Some(ChannelType::DirectMessage)
        } else if n == 2 {
            Some(ChannelType::GuildVoice)
        } else if n == 3 {
            Some(ChannelType::GroupDirectMessage)
        } else if n == 4 {
            Some(ChannelType::GuildCategory)
        } else if n == 5 {
            Some(ChannelType::GuildNews)
        } else if n == 6 {
            Some(ChannelType::GuildStore)
        } else if n == 10 {
            Some(ChannelType::GuildNewsThread)
        } else if n == 11 {
            Some(ChannelType::GuildPublicThread)
        } else if n == 12 {
            Some(ChannelType::GuildPrivateThread)
        } else if n == 13 {
            Some(ChannelType::GuildStageVoice)
        } else {
            None
        }
    }

    pub fn as_i64(&self) -> (r: i64)
        ensures
            spec_channel_type(r as int) == Some(*self),
    {
        match self {
            ChannelType::GuildText => 0,
            ChannelType::DirectMessage => 1,
            ChannelType::GuildVoice => 2,
            ChannelType::GroupDirectMessage => 3,
            ChannelType::GuildCategory => 4,
            ChannelType::GuildNews => 5,
            ChannelType::GuildStore => 6,
            ChannelType::GuildNewsThread => 10,
            ChannelType::GuildPublicThread => 11,
            ChannelType::GuildPrivateThread => 12,
            ChannelType::GuildStageVoice => 13,
        }
    }
}

/// What the ghost model of a channel holds.
pub struct ChannelModel {
    pub id: Seq<char>,
    pub channel_type: ChannelType,
    pub guild_id: Option<Seq<char>>,
    pub position: Option<i64>,
    pub name: Option<Seq<char>>,
    pub topic: Option<Seq<char>>,
    pub nsfw: Option<bool>,
}

/// A channel of a guild, or a direct-message channel.
pub struct Channel {
    pub id: String,
    pub channel_type: ChannelType,
    pub guild_id: Option<String>,
    pub position: Option<i64>,
    pub name: Option<String>,
    pub topic: Option<String>,
    pub nsfw: Option<bool>,
}

impl View for Channel {
    type V = ChannelModel;

    open spec fn view(&self) -> ChannelModel {
        ChannelModel {
            id: self.id@,
            channel_type: self.channel_type,
            guild_id: crate::guild::view_opt_str(self.guild_id),
            position: self.position,
            name: crate::guild::view_opt_str(self.name),
            topic: crate::guild::view_opt_str(self.topic),
            nsfw: self.nsfw,
        }
    }
}

/// The channel object's wire shape; its kind stands under the key `type`.
pub open spec fn spec_channel(p: Seq<char>) -> Option<ChannelModel> {
    match spec_doc_fields(p) {
        None => None,
        Some(fs) => match (spec_fs_req_str(p, fs, "id"@), spec_fs_req_i64(p, fs, "type"@)) {
            (Some(id), Some(ty)) => match spec_channel_type(ty as int) {
                None => None,
                Some(channel_type) => match (
                    spec_fs_opt_str(p, fs, "guild_id"@),
                    spec_fs_opt_i64(p, fs, "position"@),
                    spec_fs_opt_str(p, fs, "name"@),
                    spec_fs_opt_str(p, fs, "topic"@),
                    spec_fs_opt_bool(p, fs, "nsfw"@),
                ) {
                    (Some(guild_id), Some(position), Some(name), Some(topic), Some(nsfw)) => Some(
                        ChannelModel { id, channel_type, guild_id, position, name, topic, nsfw },
                    ),
                    _ => None,
                },
            },
            _ => None,
        },
    }
}

impl Channel {
    pub fn from_json(p: &Vec<char>) -> (r: Option<Channel>)
        ensures
            match r {
                Some(c) => spec_channel(p@) == Some(c@),
                None => spec_channel(p@) is None,
            },
    {
        let fields = match doc_fields_exec(p) {
            Some(f) => f,
            None => {
                return None;
            },
        };
        let id = match fs_req_str(p, &fields, "id") {
            Some(v) => chars_to_string(&v),
            None => {
                return None;
            },
        };
        let ty = match fs_req_i64(p, &fields, "type") {
            Some(v) => v,
            None => {
                return None;
            },
        };
        let channel_type = match ChannelType::from_i64(ty) {
            Some(v) => v,
            None => {
                return None;
            },
        };
        let guild_id = match fs_opt_str(p, &fields, "guild_id") {
            Some(Some(v)) => Some(chars_to_string(&v)),
            Some(None) => None,
            None => {
                return None;
            },
        };
        let position = match fs_opt_i64(p, &fields, "position") {
            Some(v) => v,
            None => {
                return None;
            },
        };
        let name = match fs_opt_str(p, &fields, "name") {
            Some(Some(v)) => Some(chars_to_string(&v)),
            Some(None) => None,
            None => {
                return None;
            },
        };
        let topic = match fs_opt_str(p, &fields, "topic") {
            Some(Some(v)) => Some(chars_to_string(&v)),
            Some(None) => None,
            None => {
                return None;
            },
        };
        let nsfw = match fs_opt_bool(p, &fields, "nsfw") {
            Some(v) => v,
            None => {
                return None;
            },
        };
        Some(Channel { id, channel_type, guild_id, position, name, topic, nsfw })
    }
}

/// What an outbound message carries: plain text, or sticker identifiers.
pub enum SendMessageContent {
    TextMessage(String),
    StickersMessage(Vec<String>),
}

/// The ghost model of outbound message content.
pub enum SendMessageContentModel {
    Text(Seq<char>),
    Stickers(Seq<Seq<char>>),
}

impl View for SendMessageContent {
    type V = SendMessageContentModel;

    open spec fn view(&self) -> SendMessageContentModel {
        match self {
            SendMessageContent::TextMessage(t) => SendMessageContentModel::Text(t@),
            SendMessageContent::StickersMessage(l) => SendMessageContentModel::Stickers(
                crate::guild::strings_seq_view(l@),
            ),
        }
    }
}

/// One string value in wire form: quotes around escaped content.
pub open spec fn quoted_text(x: Seq<char>) -> Seq<char> {
    seq!['"'] + escape_text(x) + seq!['"']
}

/// The elements of a wire array of strings, comma-separated.
pub open spec fn quoted_list_items(l: Seq<Seq<char>>) -> Seq<char>
    decreases l.len(),
{
    if l.len() == 0 {
        Seq::empty()
    } else if l.len() == 1 {
        quoted_text(l[0])
    } else {
        quoted_list_items(l.drop_last()) + seq![','] + quoted_text(l.last())
    }
}

/// The wire form of outbound content: a string, or an array of strings.
pub open spec fn spec_content_text(c: SendMessageContentModel) -> Seq<char> {
    match c {
        SendMessageContentModel::Text(t) => quoted_text(t),
        SendMessageContentModel::Stickers(l) => seq!['['] + quoted_list_items(l) + seq![']'],
    }
}

/// The whole outbound message payload: `{"tts":<b>,"content":<c>}`.
pub open spec fn spec_send_message_payload(tts: bool, c: SendMessageContentModel) -> Seq<char> {
    seq!['{', '"', 't', 't', 's', '"', ':'] + (if tts {
        seq!['t', 'r', 'u', 'e']
    } else {
        seq!['f', 'a', 'l', 's', 'e']
    }) + seq![',', '"', 'c', 'o', 'n', 't', 'e', 'n', 't', '"', ':'] + spec_content_text(c) + seq![
        '}',
    ]
}

pub fn push_quoted(out: &mut Vec<char>, x: &String)
    ensures
        final(out)@ == old(out)@ + quoted_text(x@),
{
    out.push('"');
    push_escaped(out, x.as_str());
    out.push('"');
    proof {
        assert(final(out)@ =~= old(out)@ + quoted_text(x@));
    }
}

/// A message to be sent, assembled before it is rendered to wire text.
pub struct SendMessageBuilder {
    tts: bool,
    content: SendMessageContent,
}

impl SendMessageBuilder {
    pub closed spec fn spec_tts(&self) -> bool {
        self.tts
    }

    pub closed spec fn spec_content(&self) -> SendMessageContentModel {
        self.content@
    }

    /// A builder for the given content, with text-to-speech off.
    pub fn new(content: SendMessageContent) -> (r: Self)
        ensures
            r.spec_content() == content@,
            !r.spec_tts(),
    {
        SendMessageBuilder { content, tts: false }
    }

    /// Choose whether the message is read aloud.
    pub fn tts(self, tts: bool) -> (r: Self)
        ensures
            r.spec_content() == self.spec_content(),
            r.spec_tts() == tts,
    {
        SendMessageBuilder { tts, ..self }
    }

    /// The request body this message posts: the fixed two-field object
    /// holding the text-to-speech choice and the content.
    pub fn payload_chars(&self) -> (r: Vec<char>)
        ensures
            r@ == spec_send_message_payload(self.spec_tts(), self.spec_content()),
    {
        let mut out: Vec<char> = vec!['{', '"', 't', 't', 's', '"', ':'];
        proof {
            assert(out@ =~= seq!['{', '"', 't', 't', 's', '"', ':']);
        }
        if self.tts {
            out.push('t');
            out.push('r');
            out.push('u');
            out.push('e');
        } else {
            out.push('f');
            out.push('a');
            out.push('l');
            out.push('s');
            out.push('e');
        }
        out.push(',');
        out.push('"');
        out.push('c');
        out.push('o');
        out.push('n');
        out.push('t');
        out.push('e');
        out.push('n');
        out.push('t');
        out.push('"');
        out.push(':');
        let ghost head = out@;
        proof {
            assert(head =~= seq!['{', '"', 't', 't', 's', '"', ':'] + (if self.tts {
                seq!['t', 'r', 'u', 'e']
            } else {
                seq!['f', 'a', 'l', 's', 'e']
            }) + seq![',', '"', 'c', 'o', 'n', 't', 'e', 'n', 't', '"', ':']);
        }
        match &self.content {
            SendMessageContent::TextMessage(t) => {
                push_quoted(&mut out, t);
            },
            SendMessageContent::StickersMessage(l) => {
                out.push('[');
                let mut k: usize = 0;
                while k < l.len()
                    invariant
                        k <= l@.len(),
                        out@ == head + seq!['['] + quoted_list_items(
                            crate::guild::strings_seq_view(l@.subrange(0, k as int)),
                        ),
                    decreases l@.len() - k,
                {
                    if k > 0 {
                        out.push(',');
                    }
                    push_quoted(&mut out, &l[k]);
                    proof {
                        let pre = crate::guild::strings_seq_view(l@.subrange(0, k as int));
                        let cur = crate::guild::strings_seq_view(l@.subrange(0, k + 1 as int));
                        assert(cur.drop_last() =~= pre);
                        assert(cur.last() == l@[k as int]@);
                        if k == 0 {
                            assert(pre.len() == 0);
                            assert(quoted_list_items(cur) == quoted_text(cur.last()));
                        } else {
                            assert(cur.len() >= 2);
                        }
                        assert(out@ =~= head + seq!['['] + quoted_list_items(cur));
                    }
                    k = k + 1;
                }
                out.push(']');
                proof {
                    assert(l@.subrange(0, l@.len() as int) =~= l@);
                }
            },
        }
        out.push('}');
        proof {
            assert(out@ =~= spec_send_message_payload(self.spec_tts(), self.spec_content()));
        }
        out
    }
}

} // verus!
