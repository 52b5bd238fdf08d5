//! Guilds, their roles, and guild members.

use vstd::prelude::*;

use crate::json::{
    arr_spans_exec, arr_spans_wf, copy_range, doc_fields_exec, fields_view, find_field, fs_opt_bool,
    fs_opt_str, fs_raw, fs_req_bool, fs_req_i64, fs_req_str, lookup, parse_str_list, span_is_null,
    spans_wf, spans_view, spec_arr_spans, spec_doc_fields, spec_fs_opt_bool, spec_fs_opt_str,
    spec_fs_raw, spec_fs_req_bool, spec_fs_req_i64, spec_fs_req_str, spec_str_list, is_null_text,
};
use crate::outside::chars_to_string;
use crate::user::{spec_user, User, UserModel};

verus! {

/// A guild the session knows only by its identifier.
pub struct UnavailableGuild {
    pub id: String,
}

impl View for UnavailableGuild {
    type V = Seq<char>;

    open spec fn view(&self) -> Seq<char> {
        self.id@
    }
}

/// The unavailable-guild object's wire shape: an object with a string `id`.
pub open spec fn spec_unavailable_guild(p: Seq<char>) -> Option<Seq<char>> {
    match spec_doc_fields(p) {
        None => None,
        Some(fs) => spec_fs_req_str(p, fs, "id"@),
    }
}

impl UnavailableGuild {
    pub fn from_json(p: &Vec<char>) -> (r: Option<UnavailableGuild>)
        ensures
            match r {
                Some(g) => spec_unavailable_guild(p@) == Some(g@),
                None => spec_unavailable_guild(p@) is None,
            },
    {
        let fields = match doc_fields_exec(p) {
            Some(f) => f,
            None => {
                return None;
            },
        };
        match fs_req_str(p, &fields, "id") {
            Some(v) => Some(UnavailableGuild { id: chars_to_string(&v) }),
            None => None,
        }
    }
}

pub open spec fn unavailable_guilds_view(v: Seq<UnavailableGuild>) -> Seq<Seq<char>> {
    v.map_values(|g: UnavailableGuild| g@)
}

/// The elements of an array of unavailable-guild objects, from the `k`-th
/// span on.
pub open spec fn unavailable_guilds_from(s: Seq<char>, sp: Seq<(int, int)>, k: int) -> Option<
    Seq<Seq<char>>,
>
    decreases sp.len() - k,
{
    if !(0 <= k <= sp.len()) {
        None
    } else if k == sp.len() {
        Some(Seq::empty())
    } else {
        match spec_unavailable_guild(s.subrange(sp[k].0, sp[k].1)) {
            None => None,
            Some(g) => match unavailable_guilds_from(s, sp, k + 1) {
                None => None,
                Some(rest) => Some(seq![g] + rest),
            },
        }
    }
}

/// A whole piece of text holding an array of unavailable-guild objects.
pub open spec fn spec_unavailable_guild_list(s: Seq<char>) -> Option<Seq<Seq<char>>> {
    match spec_arr_spans(s) {
        None => None,
        Some(sp) => unavailable_guilds_from(s, sp, 0),
    }
}

pub fn unavailable_guild_list_from_json(s: &Vec<char>) -> (r: Option<Vec<UnavailableGuild>>)
    ensures
        match r {
            Some(v) => spec_unavailable_guild_list(s@) == Some(unavailable_guilds_view(v@)),
            None => spec_unavailable_guild_list(s@) is None,
        },
{
    let spans = match arr_spans_exec(s) {
        Some(sp) => sp,
        None => {
            return None;
        },
    };
    let ghost spv = spans_view(spans@);
    let mut acc: Vec<UnavailableGuild> = Vec::new();
    let mut k: usize = 0;
    while k < spans.len()
        invariant
            k <= spans@.len(),
            spv == spans_view(spans@),
            spec_arr_spans(s@) == Some(spv),
            arr_spans_wf(s@, spv),
            match unavailable_guilds_from(s@, spv, k as int) {
                Some(rest) => unavailable_guilds_from(s@, spv, 0) == Some(
                    unavailable_guilds_view(acc@) + rest,
                ),
                None => unavailable_guilds_from(s@, spv, 0) is None,
            },
        decreases spans@.len() - k,
    {
        let (a, b) = spans[k];
        proof {
            assert(spv[k as int] == (a as int, b as int));
        }
        let one = copy_range(s, a, b);
        let g = match UnavailableGuild::from_json(&one) {
            Some(g) => g,
            None => {
                proof {
                    assert(unavailable_guilds_from(s@, spv, k as int) is None);
                }
                return None;
            },
        };
        proof {
            assert(unavailable_guilds_view(acc@.push(g)) =~= unavailable_guilds_view(acc@).push(
                g@,
            ));
            if let Some(rest) = unavailable_guilds_from(s@, spv, k + 1) {
                assert(unavailable_guilds_view(acc@).push(g@) + rest =~= unavailable_guilds_view(
                    acc@,
                ) + (seq![g@] + rest));
            }
        }
        acc.push(g);
        k = k + 1;
    }
    proof {
        assert(unavailable_guilds_view(acc@) + Seq::<Seq<char>>::empty() =~= unavailable_guilds_view(
            acc@,
        ));
    }
    Some(acc)
}

/// What the ghost model of a role holds.
pub struct RoleModel {
    pub id: Seq<char>,
    pub name: Seq<char>,
    pub color: i64,
    pub hoist: bool,
    pub position: i64,
    pub permissions: i64,
    pub permissions_new: Seq<char>,
    pub managed: bool,
    pub mentionable: bool,
}

/// A permission role of a guild.
pub struct Role {
    pub id: String,
    pub name: String,
    pub color: i64,
    pub hoist: bool,
    pub position: i64,
    pub permissions: i64,
    pub permissions_new: String,
    pub managed: bool,
    pub mentionable: bool,
}

impl View for Role {
    type V = RoleModel;

    open spec fn view(&self) -> RoleModel {
        RoleModel {
            id: self.id@,
            name: self.name@,
            color: self.color,
            hoist: self.hoist,
            position: self.position,
            permissions: self.permissions,
            permissions_new: self.permissions_new@,
            managed: self.managed,
            mentionable: self.mentionable,
        }
    }
}

/// The role object's wire shape.
pub open spec fn spec_role(p: Seq<char>) -> Option<RoleModel> {
    match spec_doc_fields(p) {
        None => None,
        Some(fs) => match (
            spec_fs_req_str(p, fs, "id"@),
            spec_fs_req_str(p, fs, "name"@),
            spec_fs_req_str(p, fs, "permissions_new"@),
        ) {
            (Some(id), Some(name), Some(permissions_new)) => match (
                spec_fs_req_i64(p, fs, "color"@),
                spec_fs_req_i64(p, fs, "position"@),
                spec_fs_req_i64(p, fs, "permissions"@),
            ) {
                (Some(color), Some(position), Some(permissions)) => match (
                    spec_fs_req_bool(p, fs, "hoist"@),
                    spec_fs_req_bool(p, fs, "managed"@),
                    spec_fs_req_bool(p, fs, "mentionable"@),
                ) {
                    (Some(hoist), Some(managed), Some(mentionable)) => Some(
                        RoleModel {
                            id,
                            name,
                            color,
                            hoist,
                            position,
                            permissions,
                            permissions_new,
                            managed,
                            mentionable,
                        },
                    ),
                    _ => None,
                },
                _ => None,
            },
            _ => None,
        },
    }
}

impl Role {
    pub fn from_json(p: &Vec<char>) -> (r: Option<Role>)
        ensures
            match r {
                Some(v) => spec_role(p@) == Some(v@),
                None => spec_role(p@) is None,
            },
    {
        let fields = match doc_fields_exec(p) {
            Some(f) => f,
            None => {
                return None;
            },
        };
        let id = match fs_req_str(p, &fields, "id") {
            Some(v) => chars_to_string(&v),
            None => {
                return None;
            },
        };
        let name = match fs_req_str(p, &fields, "name") {
            Some(v) => chars_to_string(&v),
            None => {
                return None;
            },
        };
        let permissions_new = match fs_req_str(p, &fields, "permissions_new") {
            Some(v) => chars_to_string(&v),
            None => {
                return None;
            },
        };
        let color = match fs_req_i64(p, &fields, "color") {
            Some(v) => v,
            None => {
                return None;
            },
        };
        let position = match fs_req_i64(p, &fields, "position") {
            Some(v) => v,
            None => {
                return None;
            },
        };
        let permissions = match fs_req_i64(p, &fields, "permissions") {
            Some(v) => v,
            None => {
                return None;
            },
        };
        let hoist = match fs_req_bool(p, &fields, "hoist") {
            Some(v) => v,
            None => {
                return None;
            },
        };
        let managed = match fs_req_bool(p, &fields, "managed") {
            Some(v) => v,
            None => {
                return None;
            },
        };
        let mentionable = match fs_req_bool(p, &fields, "mentionable") {
            Some(v) => v,
            None => {
                return None;
            },
        };
        Some(
            Role {
                id,
                name,
                color,
                hoist,
                position,
                permissions,
                permissions_new,
                managed,
                mentionable,
            },
        )
    }
}

pub open spec fn roles_view(v: Seq<Role>) -> Seq<RoleModel> {
    v.map_values(|r: Role| r@)
}

/// The elements of an array of role objects, from the `k`-th span on.
pub open spec fn roles_from(s: Seq<char>, sp: Seq<(int, int)>, k: int) -> Option<Seq<RoleModel>>
    decreases sp.len() - k,
{
    if !(0 <= k <= sp.len()) {
        None
    } else if k == sp.len() {
        Some(Seq::empty())
    } else {
        match spec_role(s.subrange(sp[k].0, sp[k].1)) {
            None => None,
            Some(r) => match roles_from(s, sp, k + 1) {
                None => None,
                Some(rest) => Some(seq![r] + rest),
            },
        }
    }
}

/// A whole piece of text holding an array of role objects.
pub open spec fn spec_role_list(s: Seq<char>) -> Option<Seq<RoleModel>> {
    match spec_arr_spans(s) {
        None => None,
        Some(sp) => roles_from(s, sp, 0),
    }
}

pub fn role_list_from_json(s: &Vec<char>) -> (r: Option<Vec<Role>>)
    ensures
        match r {
            Some(v) => spec_role_list(s@) == Some(roles_view(v@)),
            None => spec_role_list(s@) is None,
        },
{
    let spans = match arr_spans_exec(s) {
        Some(sp) => sp,
        None => {
            return None;
        },
    };
    let ghost spv = spans_view(spans@);
    let mut acc: Vec<Role> = Vec::new();
    let mut k: usize = 0;
    while k < spans.len()
        invariant
            k <= spans@.len(),
            spv == spans_view(spans@),
            spec_arr_spans(s@) == Some(spv),
            arr_spans_wf(s@, spv),
            match roles_from(s@, spv, k as int) {
                Some(rest) => roles_from(s@, spv, 0) == Some(roles_view(acc@) + rest),
                None => roles_from(s@, spv, 0) is None,
            },
        decreases spans@.len() - k,
    {
        let (a, b) = spans[k];
        proof {
            assert(spv[k as int] == (a as int, b as int));
        }
        let one = copy_range(s, a, b);
        let role = match Role::from_json(&one) {
            Some(r) => r,
            None => {
                proof {
                    assert(roles_from(s@, spv, k as int) is None);
                }
                return None;
            },
        };
        proof {
            assert(roles_view(acc@.push(role)) =~= roles_view(acc@).push(role@));
            if let Some(rest) = roles_from(s@, spv, k + 1) {
                assert(roles_view(acc@).push(role@) + rest =~= roles_view(acc@) + (seq![role@]
                    + rest));
            }
        }
        acc.push(role);
        k = k + 1;
    }
    proof {
        assert(roles_view(acc@) + Seq::<RoleModel>::empty() =~= roles_view(acc@));
    }
    Some(acc)
}

/// What the ghost model of a guild holds.
pub struct GuildModel {
    pub id: Seq<char>,
    pub name: Seq<char>,
    pub permissions: Option<Seq<char>>,
    pub icon: Option<Seq<char>>,
    pub icon_hash: Option<Seq<char>>,
    pub splash: Option<Seq<char>>,
    pub roles: Seq<RoleModel>,
    pub afk_timeout: i64,
    pub verification_level: i64,
    pub mfa_level: i64,
}

/// A guild, as a guild-create event carries it.
pub struct Guild {
    pub id: String,
    pub name: String,
    pub permissions: Option<String>,
    pub icon: Option<String>,
    pub icon_hash: Option<String>,
    pub splash: Option<String>,
    pub roles: Vec<Role>,
    pub afk_timeout: i64,
    pub verification_level: i64,
    pub mfa_level: i64,
}

pub open spec fn view_opt_str(v: Option<String>) -> Option<Seq<char>> {
    match v {
        None => None,
        Some(x) => Some(x@),
    }
}

impl View for Guild {
    type V = GuildModel;

    open spec fn view(&self) -> GuildModel {
        GuildModel {
            id: self.id@,
            name: self.name@,
            permissions: view_opt_str(self.permissions),
            icon: view_opt_str(self.icon),
            icon_hash: view_opt_str(self.icon_hash),
            splash: view_opt_str(self.splash),
            roles: roles_view(self.roles@),
            afk_timeout: self.afk_timeout,
            verification_level: self.verification_level,
            mfa_level: self.mfa_level,
        }
    }
}

/// The guild object's wire shape.
pub open spec fn spec_guild(p: Seq<char>) -> Option<GuildModel> {
    match spec_doc_fields(p) {
        None => None,
        Some(fs) => match (spec_fs_req_str(p, fs, "id"@), spec_fs_req_str(p, fs, "name"@)) {
            (Some(id), Some(name)) => match (
                spec_fs_opt_str(p, fs, "permissions"@),
                spec_fs_opt_str(p, fs, "icon"@),
                spec_fs_opt_str(p, fs, "icon_hash"@),
                spec_fs_opt_str(p, fs, "splash"@),
            ) {
                (Some(permissions), Some(icon), Some(icon_hash), Some(splash)) => match (
                    spec_fs_req_i64(p, fs, "afk_timeout"@),
                    spec_fs_req_i64(p, fs, "verification_level"@),
                    spec_fs_req_i64(p, fs, "mfa_level"@),
                ) {
                    (Some(afk_timeout), Some(verification_level), Some(mfa_level)) => match spec_fs_raw(
                        p,
                        fs,
                        "roles"@,
                    ) {
                        None => None,
                        Some(raw) => match spec_role_list(raw) {
                            None => None,
                            Some(roles) => Some(
                                GuildModel {
                                    id,
                                    name,
                                    permissions,
                                    icon,
                                    icon_hash,
                                    splash,
                                    roles,
                                    afk_timeout,
                                    verification_level,
                                    mfa_level,
                                },
                            ),
                        },
                    },
                    _ => None,
                },
                _ => None,
            },
            _ => None,
        },
    }
}

impl Guild {
    pub fn from_json(p: &Vec<char>) -> (r: Option<Guild>)
        ensures
            match r {
                Some(g) => spec_guild(p@) == Some(g@),
                None => spec_guild(p@) is None,
            },
    {
        let fields = match doc_fields_exec(p) {
            Some(f) => f,
            None => {
                return None;
            },
        };
        let id = match fs_req_str(p, &fields, "id") {
            Some(v) => chars_to_string(&v),
            None => {
                return None;
            },
        };
        let name = match fs_req_str(p, &fields, "name") {
            Some(v) => chars_to_string(&v),
            None => {
                return None;
            },
        };
        let permissions = match fs_opt_str(p, &fields, "permissions") {
            Some(Some(v)) => Some(chars_to_string(&v)),
            Some(None) => None,
            None => {
                return None;
            },
        };
        let icon = match fs_opt_str(p, &fields, "icon") {
            Some(Some(v)) => Some(chars_to_string(&v)),
            Some(None) => None,
            None => {
                return None;
            },
        };
        let icon_hash = match fs_opt_str(p, &fields, "icon_hash") {
            Some(Some(v)) => Some(chars_to_string(&v)),
            Some(None) => None,
            None => {
                return None;
            },
        };
        let splash = match fs_opt_str(p, &fields, "splash") {
            Some(Some(v)) => Some(chars_to_string(&v)),
            Some(None) => None,
            None => {
                return None;
            },
        };
        let afk_timeout = match fs_req_i64(p, &fields, "afk_timeout") {
            Some(v) => v,
            None => {
                return None;
            },
        };
        let verification_level = match fs_req_i64(p, &fields, "verification_level") {
            Some(v) => v,
            None => {
                return None;
            },
        };
        let mfa_level = match fs_req_i64(p, &fields, "mfa_level") {
            Some(v) => v,
            None => {
                return None;
            },
        };
        let roles_raw = match fs_raw(p, &fields, "roles") {
            Some(v) => v,
            None => {
                return None;
            },
        };
        let roles = match role_list_from_json(&roles_raw) {
            Some(v) => v,
            None => {
                return None;
            },
        };
        Some(
            Guild {
                id,
                name,
                permissions,
                icon,
                icon_hash,
                splash,
                roles,
                afk_timeout,
                verification_level,
                mfa_level,
            },
        )
    }
}

/// What the ghost model of a guild member holds.
pub struct GuildMemberModel {
    pub user: Option<UserModel>,
    pub nick: Option<Seq<char>>,
    pub avatar: Option<Seq<char>>,
    pub role_ids: Seq<Seq<char>>,
    pub joined_at: Seq<char>,
    pub premium_since: Option<Seq<char>>,
    pub deaf: bool,
    pub mute: bool,
    pub pending: Option<bool>,
    pub permissions: Option<Seq<char>>,
}

/// One account's membership of one guild.
pub struct GuildMember {
    pub user: Option<User>,
    pub nick: Option<String>,
    pub avatar: Option<String>,
    pub role_ids: Vec<String>,
    pub joined_at: String,
    pub premium_since: Option<String>,
    pub deaf: bool,
    pub mute: bool,
    pub pending: Option<bool>,
    pub permissions: Option<String>,
}

pub open spec fn strings_seq_view(v: Seq<String>) -> Seq<Seq<char>> {
    v.map_values(|x: String| x@)
}

impl View for GuildMember {
    type V = GuildMemberModel;

    open spec fn view(&self) -> GuildMemberModel {
        GuildMemberModel {
            user: match self.user {
                None => None,
                Some(u) => Some(u@),
            },
            nick: view_opt_str(self.nick),
            avatar: view_opt_str(self.avatar),
            role_ids: strings_seq_view(self.role_ids@),
            joined_at: self.joined_at@,
            premium_since: view_opt_str(self.premium_since),
            deaf: self.deaf,
            mute: self.mute,
            pending: self.pending,
            permissions: view_opt_str(self.permissions),
        }
    }
}

/// An optional nested user: absent or `null` is the inner `None`, a value
/// of another shape is malformed.
pub open spec fn spec_fs_opt_user(
    s: Seq<char>,
    fs: Seq<(Seq<char>, (int, int))>,
    key: Seq<char>,
) -> Option<Option<UserModel>> {
    match lookup(fs, key) {
        None => Some(None),
        Some(sp) => if is_null_text(s.subrange(sp.0, sp.1)) {
            Some(None)
        } else {
            match spec_user(s.subrange(sp.0, sp.1)) {
                None => None,
                Some(u) => Some(Some(u)),
            }
        },
    }
}

pub fn fs_opt_user(s: &Vec<char>, fields: &Vec<crate::json::RawField>, key: &str) -> (r: Option<
    Option<User>,
>)
    requires
        spans_wf(s@, fields_view(fields@)),
    ensures
        match r {
            Some(Some(u)) => spec_fs_opt_user(s@, fields_view(fields@), key@) == Some(Some(u@)),
            Some(None) => spec_fs_opt_user(s@, fields_view(fields@), key@) == Some(
                None::<UserModel>,
            ),
            None => spec_fs_opt_user(s@, fields_view(fields@), key@) is None,
        },
{
    match find_field(s, fields, key) {
        None => Some(None),
        Some((a, b)) => {
            if span_is_null(s, a, b) {
                Some(None)
            } else {
                let one = copy_range(s, a, b);
                match User::from_json(&one) {
                    Some(u) => Some(Some(u)),
                    None => None,
                }
            }
        },
    }
}

/// The guild-member object's wire shape. The member's role identifiers
/// stand under the key `roles` on the wire.
pub open spec fn spec_guild_member(p: Seq<char>) -> Option<GuildMemberModel> {
    match spec_doc_fields(p) {
        None => None,
        Some(fs) => match (
            spec_fs_opt_user(p, fs, "user"@),
            spec_fs_opt_str(p, fs, "nick"@),
            spec_fs_opt_str(p, fs, "avatar"@),
            spec_fs_req_str(p, fs, "joined_at"@),
        ) {
            (Some(user), Some(nick), Some(avatar), Some(joined_at)) => match (
                spec_fs_opt_str(p, fs, "premium_since"@),
                spec_fs_req_bool(p, fs, "deaf"@),
                spec_fs_req_bool(p, fs, "mute"@),
                spec_fs_opt_bool(p, fs, "pending"@),
                spec_fs_opt_str(p, fs, "permissions"@),
            ) {
                (Some(premium_since), Some(deaf), Some(mute), Some(pending), Some(permissions)) => match spec_fs_raw(
                    p,
                    fs,
                    "roles"@,
                ) {
                    None => None,
                    Some(raw) => match spec_str_list(raw) {
                        None => None,
                        Some(role_ids) => Some(
                            GuildMemberModel {
                                user,
                                nick,
                                avatar,
                                role_ids,
                                joined_at,
                                premium_since,
                                deaf,
                                mute,
                                pending,
                                permissions,
                            },
                        ),
                    },
                },
                _ => None,
            },
            _ => None,
        },
    }
}

impl GuildMember {
    pub fn from_json(p: &Vec<char>) -> (r: Option<GuildMember>)
        ensures
            match r {
                Some(m) => spec_guild_member(p@) == Some(m@),
                None => spec_guild_member(p@) is None,
            },
    {
        let fields = match doc_fields_exec(p) {
            Some(f) => f,
            None => {
                return None;
            },
        };
        let user = match fs_opt_user(p, &fields, "user") {
            Some(v) => v,
            None => {
                return None;
            },
        };
        let nick = match fs_opt_str(p, &fields, "nick") {
            Some(Some(v)) => Some(chars_to_string(&v)),
            Some(None) => None,
            None => {
                return None;
            },
        };
        let avatar = match fs_opt_str(p, &fields, "avatar") {
            Some(Some(v)) => Some(chars_to_string(&v)),
            Some(None) => None,
            None => {
                return None;
            },
        };
        let joined_at = match fs_req_str(p, &fields, "joined_at") {
            Some(v) => chars_to_string(&v),
            None => {
                return None;
            },
        };
        let premium_since = match fs_opt_str(p, &fields, "premium_since") {
            Some(Some(v)) => Some(chars_to_string(&v)),
            Some(None) => None,
            None => {
                return None;
            },
        };
        let deaf = match fs_req_bool(p, &fields, "deaf") {
            Some(v) => v,
            None => {
                return None;
            },
        };
        let mute = match fs_req_bool(p, &fields, "mute") {
            Some(v) => v,
            None => {
                return None;
            },
        };
        let pending = match fs_opt_bool(p, &fields, "pending") {
            Some(v) => v,
            None => {
                return None;
            },
        };
        let permissions = match fs_opt_str(p, &fields, "permissions") {
            Some(Some(v)) => Some(chars_to_string(&v)),
            Some(None) => None,
            None => {
                return None;
            },
        };
        let roles_raw = match fs_raw(p, &fields, "roles") {
            Some(v) => v,
            None => {
                return None;
            },
        };
        let role_ids = match parse_str_list(&roles_raw) {
            Some(v) => v,
            None => {
                return None;
            },
        };
        Some(
            GuildMember {
                user,
                nick,
                avatar,
                role_ids,
                joined_at,
                premium_since,
                deaf,
                mute,
                pending,
                permissions,
            },
        )
    }
}

/// What the ghost model of a member update holds.
pub struct GuildMemberUpdateModel {
    pub guild_id: Seq<char>,
    pub user: UserModel,
    pub nick: Option<Seq<char>>,
    pub role_ids: Seq<Seq<char>>,
}

/// A guild-member-update event: which member of which guild changed, and
/// the member's new nick and roles.
pub struct GuildMemberUpdate {
    pub guild_id: String,
    pub user: User,
    pub nick: Option<String>,
    pub role_ids: Vec<String>,
}

impl View for GuildMemberUpdate {
    type V = GuildMemberUpdateModel;

    open spec fn view(&self) -> GuildMemberUpdateModel {
        GuildMemberUpdateModel {
            guild_id: self.guild_id@,
            user: self.user@,
            nick: view_opt_str(self.nick),
            role_ids: strings_seq_view(self.role_ids@),
        }
    }
}

/// The member-update payload's wire shape: the guild, the member's user
/// object, and the member's new nick and role identifiers.
pub open spec fn spec_guild_member_update(p: Seq<char>) -> Option<GuildMemberUpdateModel> {
    match spec_doc_fields(p) {
        None => None,
        Some(fs) => match (spec_fs_req_str(p, fs, "guild_id"@), spec_fs_opt_str(p, fs, "nick"@)) {
            (Some(guild_id), Some(nick)) => match spec_fs_raw(p, fs, "user"@) {
                None => None,
                Some(uraw) => match spec_user(uraw) {
                    None => None,
                    Some(user) => match spec_fs_raw(p, fs, "roles"@) {
                        None => None,
                        Some(rraw) => match spec_str_list(rraw) {
                            None => None,
                            Some(role_ids) => Some(
                                GuildMemberUpdateModel { guild_id, user, nick, role_ids },
                            ),
                        },
                    },
                },
            },
            _ => None,
        },
    }
}

impl GuildMemberUpdate {
    pub fn from_json(p: &Vec<char>) -> (r: Option<GuildMemberUpdate>)
        ensures
            match r {
                Some(m) => spec_guild_member_update(p@) == Some(m@),
                None => spec_guild_member_update(p@) is None,
            },
    {
        let fields = match doc_fields_exec(p) {
            Some(f) => f,
            None => {
                return None;
            },
        };
        let guild_id = match fs_req_str(p, &fields, "guild_id") {
            Some(v) => chars_to_string(&v),
            None => {
                return None;
            },
        };
        let nick = match fs_opt_str(p, &fields, "nick") {
            Some(Some(v)) => Some(chars_to_string(&v)),
            Some(None) => None,
            None => {
                return None;
            },
        };
        let uraw = match fs_raw(p, &fields, "user") {
            Some(v) => v,
            None => {
                return None;
            },
        };
        let user = match User::from_json(&uraw) {
            Some(u) => u,
            None => {
                return None;
            },
        };
        let rraw = match fs_raw(p, &fields, "roles") {
            Some(v) => v,
            None => {
                return None;
            },
        };
        let role_ids = match parse_str_list(&rraw) {
            Some(v) => v,
            None => {
                return None;
            },
        };
        Some(GuildMemberUpdate { guild_id, user, nick, role_ids })
    }
}

} // verus!
