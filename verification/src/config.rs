//! The connecting process's credentials and intents.

use vstd::prelude::*;

use crate::json::{
    doc_fields_exec, fs_req_str, fs_req_u64, spec_doc_fields, spec_fs_req_str, spec_fs_req_u64,
};
use crate::outside::chars_to_string;

verus! {

/// What the ghost model of the configuration holds.
pub struct BotConfigModel {
    pub token: Seq<char>,
    pub application_id: Seq<char>,
    pub intents: u32,
}

/// The caller-supplied credentials: the token, the application, and the
/// intents bitmask announced when identifying.
pub struct BotConfig {
    pub token: String,
    pub application_id: String,
    pub intents: u32,
}

impl View for BotConfig {
    type V = BotConfigModel;

    open spec fn view(&self) -> BotConfigModel {
        BotConfigModel {
            token: self.token@,
            application_id: self.application_id@,
            intents: self.intents,
        }
    }
}

/// The configuration file's wire shape: two strings and a 32-bit unsigned
/// bitmask.
pub open spec fn spec_bot_config(p: Seq<char>) -> Option<BotConfigModel> {
    match spec_doc_fields(p) {
        None => None,
        Some(fs) => match (
            spec_fs_req_str(p, fs, "token"@),
            spec_fs_req_str(p, fs, "application_id"@),
            spec_fs_req_u64(p, fs, "intents"@),
        ) {
            (Some(token), Some(application_id), Some(intents)) => if intents <= u32::MAX {
                Some(BotConfigModel { token, application_id, intents: intents as u32 })
            } else {
                None
            },
            _ => None,
        },
    }
}

impl BotConfig {
    /// Read a configuration document, handed over as text by whatever
    /// loaded it.
    pub fn from_json(p: &Vec<char>) -> (r: Option<BotConfig>)
        ensures
            match r {
                Some(c) => spec_bot_config(p@) == Some(c@),
                None => spec_bot_config(p@) is None,
            },
    {
        let fields = match doc_fields_exec(p) {
            Some(f) => f,
            None => {
                return None;
            },
        };
        let token = match fs_req_str(p, &fields, "token") {
            Some(v) => chars_to_string(&v),
            None => {
                return None;
            },
        };
        let application_id = match fs_req_str(p, &fields, "application_id") {
            Some(v) => chars_to_string(&v),
            None => {
                return None;
            },
        };
        let intents = match fs_req_u64(p, &fields, "intents") {
            Some(v) => v,
            None => {
                return None;
            },
        };
        if intents > u32::MAX as u64 {
            return None;
        }
        Some(BotConfig { token, application_id, intents: intents as u32 })
    }
}

} // verus!
