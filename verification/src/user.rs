//! Users, their premium tier and their account flags.

use vstd::prelude::*;

use crate::json::{
    doc_fields_exec, fs_opt_bool, fs_opt_i64, fs_opt_str, fs_opt_u32, fs_req_str, spec_doc_fields,
    spec_fs_opt_bool, spec_fs_opt_i64, spec_fs_opt_str, spec_fs_opt_u32, spec_fs_req_str,
};
use crate::outside::chars_to_string;

verus! {

/// One account flag, a single bit of the `flags` bitmask.
#[derive(Clone, Copy, Debug, PartialEq, Eq, Structural)]
pub enum Flag {
    NoFlag,
    Staff,
    Partner,
    HypeSquadEventsCoordinator,
    BugHunterLevel1,
    HypeSquadBraveryMember,
    HypeSquadBrillianceMember,
    HypeSquadBalanceMember,
    PremiumEarlySupporter,
    TeamPseudoUser,
    BugHunterLevel2,
    VerifiedBot,
    VerifiedDeveloper,
    CertifiedModerator,
    BotHttpInteractions,
}

impl Flag {
    /// The bit this flag occupies in the mask.
    pub open spec fn spec_bit(&self) -> u32 {
        match self {
            Flag::NoFlag => 0,
            Flag::Staff => 0x1,
            Flag::Partner => 0x2,
            Flag::HypeSquadEventsCoordinator => 0x4,
            Flag::BugHunterLevel1 => 0x8,
            Flag::HypeSquadBraveryMember => 0x40,
            Flag::HypeSquadBrillianceMember => 0x80,
            Flag::HypeSquadBalanceMember => 0x100,
            Flag::PremiumEarlySupporter => 0x200,
            Flag::TeamPseudoUser => 0x400,
            Flag::BugHunterLevel2 => 0x4000,
            Flag::VerifiedBot => 0x10000,
            Flag::VerifiedDeveloper => 0x20000,
            Flag::CertifiedModerator => 0x40000,
            Flag::BotHttpInteractions => 0x80000,
        }
    }

    pub fn bit(&self) -> (r: u32)
        ensures
            r == self.spec_bit(),
    {
        match self {
            Flag::NoFlag => 0,
            Flag::Staff => 0x1,
            Flag::Partner => 0x2,
            Flag::HypeSquadEventsCoordinator => 0x4,
            Flag::BugHunterLevel1 => 0x8,
            Flag::HypeSquadBraveryMember => 0x40,
            Flag::HypeSquadBrillianceMember => 0x80,
            Flag::HypeSquadBalanceMember => 0x100,
            Flag::PremiumEarlySupporter => 0x200,
            Flag::TeamPseudoUser => 0x400,
            Flag::BugHunterLevel2 => 0x4000,
            Flag::VerifiedBot => 0x10000,
            Flag::VerifiedDeveloper => 0x20000,
            Flag::CertifiedModerator => 0x40000,
            Flag::BotHttpInteractions => 0x80000,
        }
    }
}

/// The account's paid tier.
#[derive(Clone, Copy, Debug, PartialEq, Eq, Structural)]
pub enum PremiumType {
    NoPremium,
    NitroClassic,
    Nitro,
}

/// The wire coding of the premium tier.
pub open spec fn spec_premium_type(n: int) -> Option<PremiumType> {
    if n == 0 {
        Some(PremiumType::NoPremium)
    } else if n == 1 {
        Some(PremiumType::NitroClassic)
    } else if n == 2 {
        Some(PremiumType::Nitro)
    } else {
        None
    }
}

impl PremiumType {
    pub fn from_i64(n: i64) -> (r: Option<PremiumType>)
        ensures
            r == spec_premium_type(n as int),
    {
        if n == 0 {
            Some(PremiumType::NoPremium)
        } else if n == 1 {
            Some(PremiumType::NitroClassic)
        } else if n == 2 {
            Some(PremiumType::Nitro)
        } else {
            None
        }
    }

    pub fn as_i64(&self) -> (r: i64)
        ensures
            spec_premium_type(r as int) == Some(*self),
    {
        match self {
            PremiumType::NoPremium => 0,
            PremiumType::NitroClassic => 1,
            PremiumType::Nitro => 2,
        }
    }
}

/// What the ghost model of a user holds.
pub struct UserModel {
    pub id: Seq<char>,
    pub username: Seq<char>,
    pub discriminator: Seq<char>,
    pub bot: Option<bool>,
    pub system: Option<bool>,
    pub mfa_enabled: Option<bool>,
    pub verified: Option<bool>,
    pub locale: Option<Seq<char>>,
    pub premium_type: Option<PremiumType>,
    pub public_flags: Option<u32>,
    pub flags: Option<u32>,
}

/// An account on the service.
pub struct User {
    pub id: String,
    pub username: String,
    pub discriminator: String,
    pub bot: Option<bool>,
    pub system: Option<bool>,
    pub mfa_enabled: Option<bool>,
    pub verified: Option<bool>,
    pub locale: Option<String>,
    pub premium_type: Option<PremiumType>,
    public_flags: Option<u32>,
    flags: Option<u32>,
}

impl View for User {
    type V = UserModel;

    closed spec fn view(&self) -> UserModel {
        UserModel {
            id: self.id@,
            username: self.username@,
            discriminator: self.discriminator@,
            bot: self.bot,
            system: self.system,
            mfa_enabled: self.mfa_enabled,
            verified: self.verified,
            locale: match self.locale {
                None => None,
                Some(l) => Some(l@),
            },
            premium_type: self.premium_type,
            public_flags: self.public_flags,
            flags: self.flags,
        }
    }
}

/// The user object's wire shape.
pub open spec fn spec_user(p: Seq<char>) -> Option<UserModel> {
    match spec_doc_fields(p) {
        None => None,
        Some(fs) => match (
            spec_fs_req_str(p, fs, "id"@),
            spec_fs_req_str(p, fs, "username"@),
            spec_fs_req_str(p, fs, "discriminator"@),
        ) {
            (Some(id), Some(username), Some(discriminator)) => match (
                spec_fs_opt_bool(p, fs, "bot"@),
                spec_fs_opt_bool(p, fs, "system"@),
                spec_fs_opt_bool(p, fs, "mfa_enabled"@),
                spec_fs_opt_bool(p, fs, "verified"@),
            ) {
                (Some(bot), Some(system), Some(mfa_enabled), Some(verified)) => match (
                    spec_fs_opt_str(p, fs, "locale"@),
                    spec_fs_opt_i64(p, fs, "premium_type"@),
                    spec_fs_opt_u32(p, fs, "public_flags"@),
                    spec_fs_opt_u32(p, fs, "flags"@),
                ) {
                    (Some(locale), Some(premium_raw), Some(public_flags), Some(flags)) => {
                        let premium_type = match premium_raw {
                            None => Some(None),
                            Some(n) => match spec_premium_type(n as int) {
                                None => None,
                                Some(t) => Some(Some(t)),
                            },
                        };
                        match premium_type {
                            None => None,
                            Some(premium_type) => Some(
                                UserModel {
                                    id,
                                    username,
                                    discriminator,
                                    bot,
                                    system,
                                    mfa_enabled,
                                    verified,
                                    locale,
                                    premium_type,
                                    public_flags,
                                    flags,
                                },
                            ),
                        }
                    },
                    _ => None,
                },
                _ => None,
            },
            _ => None,
        },
    }
}

impl User {
    pub fn from_json(p: &Vec<char>) -> (r: Option<User>)
        ensures
            match r {
                Some(u) => spec_user(p@) == Some(u@),
                None => spec_user(p@) is None,
            },
    {
        let fields = match doc_fields_exec(p) {
            Some(f) => f,
            None => {
                return None;
            },
        };
        let id = match fs_req_str(p, &fields, "id") {
            Some(v) => chars_to_string(&v),
            None => {
                return None;
            },
        };
        let username = match fs_req_str(p, &fields, "username") {
            Some(v) => chars_to_string(&v),
            None => {
                return None;
            },
        };
        let discriminator = match fs_req_str(p, &fields, "discriminator") {
            Some(v) => chars_to_string(&v),
            None => {
                return None;
            },
        };
        let bot = match fs_opt_bool(p, &fields, "bot") {
            Some(v) => v,
            None => {
                return None;
            },
        };
        let system = match fs_opt_bool(p, &fields, "system") {
            Some(v) => v,
            None => {
                return None;
            },
        };
        let mfa_enabled = match fs_opt_bool(p, &fields, "mfa_enabled") {
            Some(v) => v,
            None => {
                return None;
            },
        };
        let verified = match fs_opt_bool(p, &fields, "verified") {
            Some(v) => v,
            None => {
                return None;
            },
        };
        let locale = match fs_opt_str(p, &fields, "locale") {
            Some(Some(v)) => Some(chars_to_string(&v)),
            Some(None) => None,
            None => {
                return None;
            },
        };
        let premium_type = match fs_opt_i64(p, &fields, "premium_type") {
            Some(None) => None,
            Some(Some(n)) => match PremiumType::from_i64(n) {
                Some(t) => Some(t),
                None => {
                    return None;
                },
            },
            None => {
                return None;
            },
        };
        let public_flags = match fs_opt_u32(p, &fields, "public_flags") {
            Some(v) => v,
            None => {
                return None;
            },
        };
        let flags = match fs_opt_u32(p, &fields, "flags") {
            Some(v) => v,
            None => {
                return None;
            },
        };
        Some(
            User {
                id,
                username,
                discriminator,
                bot,
                system,
                mfa_enabled,
                verified,
                locale,
                premium_type,
                public_flags,
                flags,
            },
        )
    }

    /// Whether the account's flag mask carries the given flag, or `None`
    /// when the mask was not supplied.
    pub fn has_flag(&self, flag: Flag) -> (r: Option<bool>)
        ensures
            match self@.flags {
                Some(f) => r == Some((flag.spec_bit() & f) == flag.spec_bit()),
                None => r is None,
            },
    {
        let flag_discrim = flag.bit();
        if let Some(user_flags) = self.flags {
            Some((flag_discrim & user_flags) == flag_discrim)
        } else {
            None
        }
    }

    /// Like `has_flag`, over the publicly visible mask.
    pub fn has_public_flag(&self, flag: Flag) -> (r: Option<bool>)
        ensures
            match self@.public_flags {
                Some(f) => r == Some((flag.spec_bit() & f) == flag.spec_bit()),
                None => r is None,
            },
    {
        let flag_discrim = flag.bit();
        if let Some(public_user_flags) = self.public_flags {
            Some((flag_discrim & public_user_flags) == flag_discrim)
        } else {
            None
        }
    }
}

} // verus!
