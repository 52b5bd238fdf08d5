//! Interactions: slash commands and their options.

use vstd::prelude::*;

use std::collections::HashMap;

use crate::channel::Channel;
use crate::guild::{view_opt_str, GuildMember, GuildMemberModel, Role, spec_guild_member};
use crate::json::{
    arr_spans_exec, arr_spans_wf, copy_range, doc_fields_exec, fields_view, find_field, fs_opt_bool,
    fs_opt_str, fs_raw, fs_req_i64, fs_req_str, lookup, span_is_null, spans_view, spans_wf,
    spec_arr_spans, spec_doc_fields, spec_fs_opt_bool, spec_fs_opt_str, spec_fs_raw,
    spec_fs_req_i64, spec_fs_req_str, is_null_text, RawField,
};
use crate::message::{Message, MessageModel, spec_message};
use crate::misc::{fs_opt_snowflake, fs_snowflake, spec_fs_opt_snowflake, spec_fs_snowflake,
    Snowflake};
use crate::outside::chars_to_string;
use crate::user::{User, UserModel};

verus! {

broadcast use vstd::std_specs::vec::group_vec_axioms, vstd::seq::group_seq_axioms;

/// What kind of application command a command is.
#[derive(Clone, Copy, Debug, PartialEq, Eq, Structural)]
pub enum ApplicationCommandType {
    ChatInput,
    User,
    Message,
}

/// The wire coding of the command kind.
pub open spec fn spec_application_command_type(n: int) -> Option<ApplicationCommandType> {
    if n == 1 {
        Some(ApplicationCommandType::ChatInput)
    } else if n == 2 {
        Some(ApplicationCommandType::User)
    } else if n == 3 {
        Some(ApplicationCommandType::Message)
    } else {
        None
    }
}

impl ApplicationCommandType {
    pub fn from_i64(n: i64) -> (r: Option<ApplicationCommandType>)
        ensures
            r == spec_application_command_type(n as int),
    {
        if n == 1 {
            Some(ApplicationCommandType::ChatInput)
        } else if n == 2 {
            Some(ApplicationCommandType::User)
        } else if n == 3 {
            Some(ApplicationCommandType::Message)
        } else {
            None
        }
    }

    pub fn as_i64(&self) -> (r: i64)
        ensures
            spec_application_command_type(r as int) == Some(*self),
    {
        match self {
            ApplicationCommandType::ChatInput => 1,
            ApplicationCommandType::User => 2,
            ApplicationCommandType::Message => 3,
        }
    }
}

/// What kind of value a command option carries.
#[derive(Clone, Copy, Debug, PartialEq, Eq, Structural)]
pub enum ApplicationCommandOptionType {
    SubCommand,
    SubCommandGroup,
    Text,
    Integer,
    Boolean,
    User,
    Channel,
    Role,
    Mentionable,
    Number,
}

/// The wire coding of the option kind.
pub open spec fn spec_option_type(n: int) -> Option<ApplicationCommandOptionType> {
    if n == 1 {
        Some(ApplicationCommandOptionType::SubCommand)
    } else if n == 2 {
        Some(ApplicationCommandOptionType::SubCommandGroup)
    } else if n == 3 {
        Some(ApplicationCommandOptionType::Text)
    } else if n == 4 {
        Some(ApplicationCommandOptionType::Integer)
    } else if n == 5 {
        Some(ApplicationCommandOptionType::Boolean)
    } else if n == 6 {
        Some(ApplicationCommandOptionType::User)
    } else if n == 7 {
        Some(ApplicationCommandOptionType::Channel)
    } else if n == 8 {
        Some(ApplicationCommandOptionType::Role)
    } else if n == 9 {
        Some(ApplicationCommandOptionType::Mentionable)
    } else if n == 10 {
        Some(ApplicationCommandOptionType::Number)
    } else {
        None
    }
}

impl ApplicationCommandOptionType {
    pub fn from_i64(n: i64) -> (r: Option<ApplicationCommandOptionType>)
        ensures
            r == spec_option_type(n as int),
    {
        if n == 1 {
            Some(ApplicationCommandOptionType::SubCommand)
        } else if n == 2 {
            Some(ApplicationCommandOptionType::SubCommandGroup)
        } else if n == 3 {
            Some(ApplicationCommandOptionType::Text)
        } else if n == 4 {
            Some(ApplicationCommandOptionType::Integer)
        } else if n == 5 {
            Some(ApplicationCommandOptionType::Boolean)
        } else if n == 6 {
            Some(ApplicationCommandOptionType::User)
        } else if n == 7 {
            Some(ApplicationCommandOptionType::Channel)
        } else if n == 8 {
            Some(ApplicationCommandOptionType::Role)
        } else if n == 9 {
            Some(ApplicationCommandOptionType::Mentionable)
        } else if n == 10 {
            Some(ApplicationCommandOptionType::Number)
        } else {
            None
        }
    }

    pub fn as_i64(&self) -> (r: i64)
        ensures
            spec_option_type(r as int) == Some(*self),
    {
        match self {
            ApplicationCommandOptionType::SubCommand => 1,
            ApplicationCommandOptionType::SubCommandGroup => 2,
            ApplicationCommandOptionType::Text => 3,
            ApplicationCommandOptionType::Integer => 4,
            ApplicationCommandOptionType::Boolean => 5,
            ApplicationCommandOptionType::User => 6,
            ApplicationCommandOptionType::Channel => 7,
            ApplicationCommandOptionType::Role => 8,
            ApplicationCommandOptionType::Mentionable => 9,
            ApplicationCommandOptionType::Number => 10,
        }
    }
}

/// How an interaction arrived.
#[derive(Clone, Copy, Debug, PartialEq, Eq, Structural)]
pub enum InteractionType {
    Ping,
    ApplicationCommand,
    MessageComponent,
    ApplicationCommandAutocomplete,
}

/// The wire coding of the interaction kind.
pub open spec fn spec_interaction_type(n: int) -> Option<InteractionType> {
    if n == 1 {
        Some(InteractionType::Ping)
    } else if n == 2 {
        Some(InteractionType::ApplicationCommand)
    } else if n == 3 {
        Some(InteractionType::MessageComponent)
    } else if n == 4 {
        Some(InteractionType::ApplicationCommandAutocomplete)
    } else {
        None
    }
}

impl InteractionType {
    pub fn from_i64(n: i64) -> (r: Option<InteractionType>)
        ensures
            r == spec_interaction_type(n as int),
    {
        if n == 1 {
            Some(InteractionType::Ping)
        } else if n == 2 {
            Some(InteractionType::ApplicationCommand)
        } else if n == 3 {
            Some(InteractionType::MessageComponent)
        } else if n == 4 {
            Some(InteractionType::ApplicationCommandAutocomplete)
        } else {
            None
        }
    }

    pub fn as_i64(&self) -> (r: i64)
        ensures
            spec_interaction_type(r as int) == Some(*self),
    {
        match self {
            InteractionType::Ping => 1,
            InteractionType::ApplicationCommand => 2,
            InteractionType::MessageComponent => 3,
            InteractionType::ApplicationCommandAutocomplete => 4,
        }
    }
}

/// The objects a command's arguments name, keyed by their identifiers.
pub struct ResolvedCommandData {
    pub users: Option<HashMap<Snowflake, User>>,
    pub members: Option<HashMap<Snowflake, GuildMember>>,
    pub roles: Option<HashMap<Snowflake, Role>>,
    pub channels: Option<HashMap<Snowflake, Channel>>,
    pub messages: Option<HashMap<Snowflake, Message>>,
}

/// One option of a command invocation. Options nest: a sub-command carries
/// its own options.
pub struct InteractionOption {
    pub name: String,
    pub value: Option<String>,
    pub option_type: ApplicationCommandOptionType,
    pub focused: Option<bool>,
    pub options: Option<Vec<InteractionOption>>,
}

/// What the ghost model of a command option holds.
pub struct InteractionOptionModel {
    pub name: Seq<char>,
    pub value: Option<Seq<char>>,
    pub option_type: ApplicationCommandOptionType,
    pub focused: Option<bool>,
    pub options: Option<Seq<InteractionOptionModel>>,
}

pub open spec fn interaction_option_view(o: InteractionOption) -> InteractionOptionModel
    decreases o,
{
    InteractionOptionModel {
        name: o.name@,
        value: view_opt_str(o.value),
        option_type: o.option_type,
        focused: o.focused,
        options: match o.options {
            None => None,
            Some(v) => Some(interaction_options_view(v@)),
        },
    }
}

pub open spec fn interaction_options_view(v: Seq<InteractionOption>) -> Seq<InteractionOptionModel>
    decreases v,
{
    if v.len() == 0 {
        Seq::empty()
    } else {
        seq![interaction_option_view(v[0])] + interaction_options_view(v.drop_first())
    }
}

pub proof fn lemma_interaction_options_view_push(v: Seq<InteractionOption>, x: InteractionOption)
    ensures
        interaction_options_view(v.push(x)) == interaction_options_view(v).push(
            interaction_option_view(x),
        ),
    decreases v.len(),
{
    let w = v.push(x);
    if v.len() == 0 {
        assert(w.drop_first() =~= v);
        assert(w[0] == x);
        assert(interaction_options_view(v) =~= Seq::<InteractionOptionModel>::empty());
        assert(interaction_options_view(w) == seq![interaction_option_view(x)]
            + interaction_options_view(v));
        assert(interaction_options_view(w) =~= interaction_options_view(v).push(
            interaction_option_view(x),
        ));
    } else {
        assert(w[0] == v[0]);
        assert(w.drop_first() =~= v.drop_first().push(x));
        lemma_interaction_options_view_push(v.drop_first(), x);
        assert(interaction_options_view(w) == seq![interaction_option_view(v[0])]
            + interaction_options_view(v.drop_first()).push(interaction_option_view(x)));
        assert(interaction_options_view(v) == seq![interaction_option_view(v[0])]
            + interaction_options_view(v.drop_first()));
        assert(interaction_options_view(w) =~= interaction_options_view(v).push(
            interaction_option_view(x),
        ));
    }
}

/// The wire shape of one command option; nested options stand under the
/// key `options`, and nest strictly inside their carrier's text.
pub open spec fn spec_interaction_option(p: Seq<char>) -> Option<InteractionOptionModel>
    decreases p.len(), 0int,
{
    match spec_doc_fields(p) {
        None => None,
        Some(fs) => match (
            spec_fs_req_str(p, fs, "name"@),
            spec_fs_opt_str(p, fs, "value"@),
            spec_fs_req_i64(p, fs, "type"@),
            spec_fs_opt_bool(p, fs, "focused"@),
        ) {
            (Some(name), Some(value), Some(ty), Some(focused)) => match spec_option_type(
                ty as int,
            ) {
                None => None,
                Some(option_type) => match lookup(fs, "options"@) {
                    None => Some(
                        InteractionOptionModel { name, value, option_type, focused, options: None },
                    ),
                    Some(sp) => {
                        let raw = p.subrange(sp.0, sp.1);
                        if is_null_text(raw) {
                            Some(
                                InteractionOptionModel {
                                    name,
                                    value,
                                    option_type,
                                    focused,
                                    options: None,
                                },
                            )
                        } else if raw.len() < p.len() {
                            match spec_arr_spans(raw) {
                                None => None,
                                Some(spans) => match spec_options_from(raw, spans, 0) {
                                    None => None,
                                    Some(options) => Some(
                                        InteractionOptionModel {
                                            name,
                                            value,
                                            option_type,
                                            focused,
                                            options: Some(options),
                                        },
                                    ),
                                },
                            }
                        } else {
                            None
                        }
                    },
                },
            },
            _ => None,
        },
    }
}

/// The options written in an array's element spans, from the `k`-th on.
pub open spec fn spec_options_from(s: Seq<char>, sp: Seq<(int, int)>, k: int) -> Option<
    Seq<InteractionOptionModel>,
>
    decreases s.len(), sp.len() - k + 1,
{
    if !(0 <= k <= sp.len()) {
        None
    } else if k == sp.len() {
        Some(Seq::empty())
    } else {
        let sub = s.subrange(sp[k].0, sp[k].1);
        if sub.len() < s.len() {
            match spec_interaction_option(sub) {
                None => None,
                Some(o) => match spec_options_from(s, sp, k + 1) {
                    None => None,
                    Some(rest) => Some(seq![o] + rest),
                },
            }
        } else {
            None
        }
    }
}

impl InteractionOption {
    pub fn from_json(p: &Vec<char>) -> (r: Option<InteractionOption>)
        ensures
            match r {
                Some(o) => spec_interaction_option(p@) == Some(interaction_option_view(o)),
                None => spec_interaction_option(p@) is None,
            },
        decreases p@.len(), 0int,
    {
        let fields = match doc_fields_exec(p) {
            Some(f) => f,
            None => {
                return None;
            },
        };
        let name = match fs_req_str(p, &fields, "name") {
            Some(v) => chars_to_string(&v),
            None => {
                return None;
            },
        };
        let value = match fs_opt_str(p, &fields, "value") {
            Some(Some(v)) => Some(chars_to_string(&v)),
            Some(None) => None,
            None => {
                return None;
            },
        };
        let ty = match fs_req_i64(p, &fields, "type") {
            Some(v) => v,
            None => {
                return None;
            },
        };
        let option_type = match ApplicationCommandOptionType::from_i64(ty) {
            Some(v) => v,
            None => {
                return None;
            },
        };
        let focused = match fs_opt_bool(p, &fields, "focused") {
            Some(v) => v,
            None => {
                return None;
            },
        };
        let options: Option<Vec<InteractionOption>> = match find_field(p, &fields, "options") {
            None => None,
            Some((a, b)) => {
                if span_is_null(p, a, b) {
                    None
                } else {
                    let raw = copy_range(p, a, b);
                    if raw.len() < p.len() {
                        match Self::list_from_json(&raw) {
                            Some(v) => Some(v),
                            None => {
                                return None;
                            },
                        }
                    } else {
                        return None;
                    }
                }
            },
        };
        Some(InteractionOption { name, value, option_type, focused, options })
    }

    /// Read a whole array of options.
    pub fn list_from_json(s: &Vec<char>) -> (r: Option<Vec<InteractionOption>>)
        ensures
            match r {
                Some(v) => match spec_arr_spans(s@) {
                    Some(spans) => spec_options_from(s@, spans, 0) == Some(
                        interaction_options_view(v@),
                    ),
                    None => false,
                },
                None => match spec_arr_spans(s@) {
                    Some(spans) => spec_options_from(s@, spans, 0) is None,
                    None => true,
                },
            },
        decreases s@.len(), 1int,
    {
        let spans = match arr_spans_exec(s) {
            Some(sp) => sp,
            None => {
                return None;
            },
        };
        let ghost spv = spans_view(spans@);
        let mut acc: Vec<InteractionOption> = Vec::new();
        let mut k: usize = 0;
        while k < spans.len()
            invariant
                k <= spans@.len(),
                spv == spans_view(spans@),
                spec_arr_spans(s@) == Some(spv),
                arr_spans_wf(s@, spv),
                match spec_options_from(s@, spv, k as int) {
                    Some(rest) => spec_options_from(s@, spv, 0) == Some(
                        interaction_options_view(acc@) + rest,
                    ),
                    None => spec_options_from(s@, spv, 0) is None,
                },
            decreases spans@.len() - k,
        {
            let (a, b) = spans[k];
            proof {
                assert(spv[k as int] == (a as int, b as int));
            }
            let one = copy_range(s, a, b);
            if one.len() >= s.len() {
                proof {
                    assert(spec_options_from(s@, spv, k as int) is None);
                }
                return None;
            }
            let opt = match Self::from_json(&one) {
                Some(o) => o,
                None => {
                    proof {
                        assert(spec_options_from(s@, spv, k as int) is None);
                    }
                    return None;
                },
            };
            proof {
                lemma_interaction_options_view_push(acc@, opt);
                if let Some(rest) = spec_options_from(s@, spv, k + 1) {
                    assert(interaction_options_view(acc@).push(interaction_option_view(opt)) + rest
                        =~= interaction_options_view(acc@) + (seq![interaction_option_view(opt)]
                        + rest));
                }
            }
            acc.push(opt);
            k = k + 1;
        }
        proof {
            assert(interaction_options_view(acc@) + Seq::<InteractionOptionModel>::empty()
                =~= interaction_options_view(acc@));
        }
        Some(acc)
    }
}

/// What the ghost model of the command data holds.
pub struct InteractionDataModel {
    pub id: u64,
    pub name: Seq<char>,
    pub options: Option<Seq<InteractionOptionModel>>,
}

/// Which command an interaction invokes, and with what options.
pub struct InteractionData {
    pub id: Snowflake,
    pub name: String,
    pub options: Option<Vec<InteractionOption>>,
}

impl View for InteractionData {
    type V = InteractionDataModel;

    open spec fn view(&self) -> InteractionDataModel {
        InteractionDataModel {
            id: self.id@,
            name: self.name@,
            options: match self.options {
                None => None,
                Some(v) => Some(interaction_options_view(v@)),
            },
        }
    }
}

/// The command data's wire shape.
pub open spec fn spec_interaction_data(p: Seq<char>) -> Option<InteractionDataModel> {
    match spec_doc_fields(p) {
        None => None,
        Some(fs) => match (spec_fs_snowflake(p, fs, "id"@), spec_fs_req_str(p, fs, "name"@)) {
            (Some(id), Some(name)) => match lookup(fs, "options"@) {
                None => Some(InteractionDataModel { id, name, options: None }),
                Some(sp) => {
                    let raw = p.subrange(sp.0, sp.1);
                    if is_null_text(raw) {
                        Some(InteractionDataModel { id, name, options: None })
                    } else {
                        match spec_arr_spans(raw) {
                            None => None,
                            Some(spans) => match spec_options_from(raw, spans, 0) {
                                None => None,
                                Some(options) => Some(
                                    InteractionDataModel { id, name, options: Some(options) },
                                ),
                            },
                        }
                    }
                },
            },
            _ => None,
        },
    }
}

impl InteractionData {
    pub fn from_json(p: &Vec<char>) -> (r: Option<InteractionData>)
        ensures
            match r {
                Some(d) => spec_interaction_data(p@) == Some(d@),
                None => spec_interaction_data(p@) is None,
            },
    {
        let fields = match doc_fields_exec(p) {
            Some(f) => f,
            None => {
                return None;
            },
        };
        let id = match fs_snowflake(p, &fields, "id") {
            Some(v) => v,
            None => {
                return None;
            },
        };
        let name = match fs_req_str(p, &fields, "name") {
            Some(v) => chars_to_string(&v),
            None => {
                return None;
            },
        };
        let options: Option<Vec<InteractionOption>> = match find_field(p, &fields, "options") {
            None => None,
            Some((a, b)) => {
                if span_is_null(p, a, b) {
                    None
                } else {
                    let raw = copy_range(p, a, b);
                    match InteractionOption::list_from_json(&raw) {
                        Some(v) => Some(v),
                        None => {
                            return None;
                        },
                    }
                }
            },
        };
        Some(InteractionData { id, name, options })
    }
}

/// What the ghost model of an interaction holds.
pub struct InteractionModel {
    pub id: u64,
    pub application_id: Seq<char>,
    pub guild_id: Option<u64>,
    pub channel_id: Option<u64>,
    pub member: Option<GuildMemberModel>,
    pub user: Option<UserModel>,
    pub token: Seq<char>,
    pub version: i64,
    pub message: Option<MessageModel>,
    pub data: InteractionDataModel,
    pub interaction_type: InteractionType,
}

/// One interaction, as an interaction-create event carries it.
pub struct Interaction {
    pub id: Snowflake,
    pub application_id: String,
    pub guild_id: Option<Snowflake>,
    pub channel_id: Option<Snowflake>,
    pub member: Option<GuildMember>,
    pub user: Option<User>,
    pub token: String,
    pub version: i64,
    pub message: Option<Message>,
    pub data: InteractionData,
    pub interaction_type: InteractionType,
}

impl View for Interaction {
    type V = InteractionModel;

    open spec fn view(&self) -> InteractionModel {
        InteractionModel {
            id: self.id@,
            application_id: self.application_id@,
            guild_id: match self.guild_id {
                None => None,
                Some(g) => Some(g@),
            },
            channel_id: match self.channel_id {
                None => None,
                Some(c) => Some(c@),
            },
            member: match self.member {
                None => None,
                Some(m) => Some(m@),
            },
            user: match self.user {
                None => None,
                Some(u) => Some(u@),
            },
            token: self.token@,
            version: self.version,
            message: match self.message {
                None => None,
                Some(m) => Some(m@),
            },
            data: self.data@,
            interaction_type: self.interaction_type,
        }
    }
}

/// An optional nested guild member.
pub open spec fn spec_fs_opt_member(
    s: Seq<char>,
    fs: Seq<(Seq<char>, (int, int))>,
    key: Seq<char>,
) -> Option<Option<GuildMemberModel>> {
    match lookup(fs, key) {
        None => Some(None),
        Some(sp) => if is_null_text(s.subrange(sp.0, sp.1)) {
            Some(None)
        } else {
            match spec_guild_member(s.subrange(sp.0, sp.1)) {
                None => None,
                Some(m) => Some(Some(m)),
            }
        },
    }
}

fn fs_opt_member(s: &Vec<char>, fields: &Vec<RawField>, key: &str) -> (r: Option<
    Option<GuildMember>,
>)
    requires
        spans_wf(s@, fields_view(fields@)),
    ensures
        match r {
            Some(Some(m)) => spec_fs_opt_member(s@, fields_view(fields@), key@) == Some(Some(m@)),
            Some(None) => spec_fs_opt_member(s@, fields_view(fields@), key@) == Some(
                None::<GuildMemberModel>,
            ),
            None => spec_fs_opt_member(s@, fields_view(fields@), key@) is None,
        },
{
    match find_field(s, fields, key) {
        None => Some(None),
        Some((a, b)) => {
            if span_is_null(s, a, b) {
                Some(None)
            } else {
                let one = copy_range(s, a, b);
                match GuildMember::from_json(&one) {
                    Some(m) => Some(Some(m)),
                    None => None,
                }
            }
        },
    }
}

/// An optional nested message.
pub open spec fn spec_fs_opt_message(
    s: Seq<char>,
    fs: Seq<(Seq<char>, (int, int))>,
    key: Seq<char>,
) -> Option<Option<MessageModel>> {
    match lookup(fs, key) {
        None => Some(None),
        Some(sp) => if is_null_text(s.subrange(sp.0, sp.1)) {
            Some(None)
        } else {
            match spec_message(s.subrange(sp.0, sp.1)) {
                None => None,
                Some(m) => Some(Some(m)),
            }
        },
    }
}

fn fs_opt_message(s: &Vec<char>, fields: &Vec<RawField>, key: &str) -> (r: Option<Option<Message>>)
    requires
        spans_wf(s@, fields_view(fields@)),
    ensures
        match r {
            Some(Some(m)) => spec_fs_opt_message(s@, fields_view(fields@), key@) == Some(Some(m@)),
            Some(None) => spec_fs_opt_message(s@, fields_view(fields@), key@) == Some(
                None::<MessageModel>,
            ),
            None => spec_fs_opt_message(s@, fields_view(fields@), key@) is None,
        },
{
    match find_field(s, fields, key) {
        None => Some(None),
        Some((a, b)) => {
            if span_is_null(s, a, b) {
                Some(None)
            } else {
                let one = copy_range(s, a, b);
                match Message::from_json(&one) {
                    Some(m) => Some(Some(m)),
                    None => None,
                }
            }
        },
    }
}

/// The interaction object's wire shape; its kind stands under the key
/// `type`, its command under `data`.
pub open spec fn spec_interaction(p: Seq<char>) -> Option<InteractionModel> {
    match spec_doc_fields(p) {
        None => None,
        Some(fs) => match (
            spec_fs_snowflake(p, fs, "id"@),
            spec_fs_req_str(p, fs, "application_id"@),
            spec_fs_req_str(p, fs, "token"@),
            spec_fs_req_i64(p, fs, "version"@),
            spec_fs_req_i64(p, fs, "type"@),
        ) {
            (Some(id), Some(application_id), Some(token), Some(version), Some(ty)) => match spec_interaction_type(
                ty as int,
            ) {
                None => None,
                Some(interaction_type) => match (
                    spec_fs_opt_snowflake(p, fs, "guild_id"@),
                    spec_fs_opt_snowflake(p, fs, "channel_id"@),
                    spec_fs_opt_member(p, fs, "member"@),
                    crate::guild::spec_fs_opt_user(p, fs, "user"@),
                    spec_fs_opt_message(p, fs, "message"@),
                ) {
                    (Some(guild_id), Some(channel_id), Some(member), Some(user), Some(message)) => match spec_fs_raw(
                        p,
                        fs,
                        "data"@,
                    ) {
                        None => None,
                        Some(draw) => match spec_interaction_data(draw) {
                            None => None,
                            Some(data) => Some(
                                InteractionModel {
                                    id,
                                    application_id,
                                    guild_id,
                                    channel_id,
                                    member,
                                    user,
                                    token,
                                    version,
                                    message,
                                    data,
                                    interaction_type,
                                },
                            ),
                        },
                    },
                    _ => None,
                },
            },
            _ => None,
        },
    }
}

impl Interaction {
    pub fn from_json(p: &Vec<char>) -> (r: Option<Interaction>)
        ensures
            match r {
                Some(i) => spec_interaction(p@) == Some(i@),
                None => spec_interaction(p@) is None,
            },
    {
        let fields = match doc_fields_exec(p) {
            Some(f) => f,
            None => {
                return None;
            },
        };
        let id = match fs_snowflake(p, &fields, "id") {
            Some(v) => v,
            None => {
                return None;
            },
        };
        let application_id = match fs_req_str(p, &fields, "application_id") {
            Some(v) => chars_to_string(&v),
            None => {
                return None;
            },
        };
        let token = match fs_req_str(p, &fields, "token") {
            Some(v) => chars_to_string(&v),
            None => {
                return None;
            },
        };
        let version = match fs_req_i64(p, &fields, "version") {
            Some(v) => v,
            None => {
                return None;
            },
        };
        let ty = match fs_req_i64(p, &fields, "type") {
            Some(v) => v,
            None => {
                return None;
            },
        };
        let interaction_type = match InteractionType::from_i64(ty) {
            Some(v) => v,
            None => {
                return None;
            },
        };
        let guild_id = match fs_opt_snowflake(p, &fields, "guild_id") {
            Some(v) => v,
            None => {
                return None;
            },
        };
        let channel_id = match fs_opt_snowflake(p, &fields, "channel_id") {
            Some(v) => v,
            None => {
                return None;
            },
        };
        let member = match fs_opt_member(p, &fields, "member") {
            Some(v) => v,
            None => {
                return None;
            },
        };
        let user = match crate::guild::fs_opt_user(p, &fields, "user") {
            Some(v) => v,
            None => {
                return None;
            },
        };
        let message = match fs_opt_message(p, &fields, "message") {
            Some(v) => v,
            None => {
                return None;
            },
        };
        let draw = match fs_raw(p, &fields, "data") {
            Some(v) => v,
            None => {
                return None;
            },
        };
        let data = match InteractionData::from_json(&draw) {
            Some(v) => v,
            None => {
                return None;
            },
        };
        Some(
            Interaction {
                id,
                application_id,
                guild_id,
                channel_id,
                member,
                user,
                token,
                version,
                message,
                data,
                interaction_type,
            },
        )
    }
}

/// The description of one application command.
pub struct ApplicationCommandData {
    pub id: Snowflake,
    pub name: String,
    pub resolved: Option<ResolvedCommandData>,
    pub command_type: ApplicationCommandType,
}

} // verus!
