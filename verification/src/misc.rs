//! Snowflake identifiers and the gateway bootstrap response.

use vstd::prelude::*;

use crate::json::{
    copy_range, find_field, lookup, spans_wf, fields_view, spec_doc_fields, spec_fs_req_str,
    spec_fs_req_u64, spec_parse_u64, spec_str_value, doc_fields_exec, fs_req_str, fs_req_u64,
    fs_raw, spec_fs_raw, parse_u64_range, str_value_range, str_chars, is_null_text, span_is_null,
};
use crate::outside::chars_to_string;

verus! {

/// A snowflake: the service's unique identifier format. Beside naming one
/// thing, it encodes the moment of its creation and the worker, process
/// and increment counters that produced it.
#[derive(Clone, Copy, Debug, PartialEq, Eq, Hash, Structural)]
pub struct Snowflake(u64);

impl View for Snowflake {
    type V = u64;

    closed spec fn view(&self) -> u64 {
        self.0
    }
}

/// The epoch the timestamp bits count from, in milliseconds.
pub const SNOWFLAKE_EPOCH_MS: u64 = 1420070400000;

impl Snowflake {
    pub fn new(v: u64) -> (s: Self)
        ensures
            s@ == v,
    {
        Snowflake(v)
    }

    pub fn value(&self) -> (r: u64)
        ensures
            r == self@,
    {
        self.0
    }

    /// Read a snowflake that an API handed over as a decimal string.
    pub fn from_string(v: String) -> (r: Option<Snowflake>)
        ensures
            match r {
                Some(s) => spec_parse_u64(v@) == Some(s@),
                None => spec_parse_u64(v@) is None,
            },
    {
        let chars = str_chars(v.as_str());
        proof {
            assert(chars@.subrange(0, chars@.len() as int) =~= v@);
        }
        match parse_u64_range(&chars, 0, chars.len()) {
            Some(n) => Some(Snowflake(n)),
            None => None,
        }
    }

    /// The creation time encoded in the identifier, in unix milliseconds.
    pub fn timestamp(&self) -> (r: u64)
        ensures
            r == (self@ >> 22) + SNOWFLAKE_EPOCH_MS,
    {
        proof {
            let v = self@;
            assert(v >> 22 <= 0x3ff_ffff_ffffu64) by (bit_vector);
        }
        (self.0 >> 22) + SNOWFLAKE_EPOCH_MS
    }

    /// The worker counter encoded in the identifier.
    pub fn internal_worker_id(&self) -> (r: i8)
        ensures
            r as u64 == (self@ & 0x3E0000) >> 17,
    {
        proof {
            let v = self@;
            assert((v & 0x3E0000) >> 17 < 32u64) by (bit_vector);
        }
        ((self.0 & 0x3E0000) >> 17) as i8
    }

    /// The process counter encoded in the identifier.
    pub fn internal_process_id(&self) -> (r: i8)
        ensures
            r as u64 == (self@ & 0x1F000) >> 12,
    {
        proof {
            let v = self@;
            assert((v & 0x1F000) >> 12 < 32u64) by (bit_vector);
        }
        ((self.0 & 0x1F000) >> 12) as i8
    }

    /// The increment counter encoded in the identifier.
    pub fn increment_id(&self) -> (r: i16)
        ensures
            r as u64 == self@ & 0xFFF,
    {
        proof {
            let v = self@;
            assert(v & 0xFFF < 4096u64) by (bit_vector);
        }
        (self.0 & 0xFFF) as i16
    }
}

/// A snowflake on the wire: either a bare number or a decimal string.
pub open spec fn spec_snowflake_text(t: Seq<char>) -> Option<u64> {
    match spec_str_value(t) {
        Some(c) => spec_parse_u64(c),
        None => spec_parse_u64(t),
    }
}

pub fn snowflake_from_text(t: &Vec<char>) -> (r: Option<Snowflake>)
    ensures
        match r {
            Some(s) => spec_snowflake_text(t@) == Some(s@),
            None => spec_snowflake_text(t@) is None,
        },
{
    match str_value_range(t, 0, t.len()) {
        Some(c) => {
            proof {
                assert(t@.subrange(0, t@.len() as int) =~= t@);
                assert(c@.subrange(0, c@.len() as int) =~= c@);
            }
            match parse_u64_range(&c, 0, c.len()) {
                Some(n) => Some(Snowflake(n)),
                None => None,
            }
        },
        None => {
            proof {
                assert(t@.subrange(0, t@.len() as int) =~= t@);
            }
            match parse_u64_range(t, 0, t.len()) {
                Some(n) => Some(Snowflake(n)),
                None => None,
            }
        },
    }
}

/// A required snowflake field of a scanned object.
pub open spec fn spec_fs_snowflake(
    s: Seq<char>,
    fs: Seq<(Seq<char>, (int, int))>,
    key: Seq<char>,
) -> Option<u64> {
    match lookup(fs, key) {
        None => None,
        Some(sp) => spec_snowflake_text(s.subrange(sp.0, sp.1)),
    }
}

/// An optional snowflake field: absent or `null` is the inner `None`.
pub open spec fn spec_fs_opt_snowflake(
    s: Seq<char>,
    fs: Seq<(Seq<char>, (int, int))>,
    key: Seq<char>,
) -> Option<Option<u64>> {
    match lookup(fs, key) {
        None => Some(None),
        Some(sp) => if is_null_text(s.subrange(sp.0, sp.1)) {
            Some(None)
        } else {
            match spec_snowflake_text(s.subrange(sp.0, sp.1)) {
                None => None,
                Some(v) => Some(Some(v)),
            }
        },
    }
}

pub fn fs_snowflake(s: &Vec<char>, fields: &Vec<crate::json::RawField>, key: &str) -> (r: Option<
    Snowflake,
>)
    requires
        spans_wf(s@, fields_view(fields@)),
    ensures
        match r {
            Some(v) => spec_fs_snowflake(s@, fields_view(fields@), key@) == Some(v@),
            None => spec_fs_snowflake(s@, fields_view(fields@), key@) is None,
        },
{
    match find_field(s, fields, key) {
        None => None,
        Some((a, b)) => {
            let t = copy_range(s, a, b);
            snowflake_from_text(&t)
        },
    }
}

pub fn fs_opt_snowflake(s: &Vec<char>, fields: &Vec<crate::json::RawField>, key: &str) -> (r:
    Option<Option<Snowflake>>)
    requires
        spans_wf(s@, fields_view(fields@)),
    ensures
        match r {
            Some(Some(v)) => spec_fs_opt_snowflake(s@, fields_view(fields@), key@) == Some(
                Some(v@),
            ),
            Some(None) => spec_fs_opt_snowflake(s@, fields_view(fields@), key@) == Some(
                None::<u64>,
            ),
            None => spec_fs_opt_snowflake(s@, fields_view(fields@), key@) is None,
        },
{
    match find_field(s, fields, key) {
        None => Some(None),
        Some((a, b)) => {
            if span_is_null(s, a, b) {
                Some(None)
            } else {
                let t = copy_range(s, a, b);
                match snowflake_from_text(&t) {
                    Some(v) => Some(Some(v)),
                    None => None,
                }
            }
        },
    }
}

/// Meta-information about the connecting application.
pub struct Application {
    /// The unique identifier of the application.
    pub id: Snowflake,
}

impl View for Application {
    type V = u64;

    open spec fn view(&self) -> u64 {
        self.id@
    }
}

/// The application object's wire shape: an object with a snowflake `id`.
pub open spec fn spec_application(p: Seq<char>) -> Option<u64> {
    match spec_doc_fields(p) {
        None => None,
        Some(fs) => spec_fs_snowflake(p, fs, "id"@),
    }
}

impl Application {
    pub fn from_json(p: &Vec<char>) -> (r: Option<Application>)
        ensures
            match r {
                Some(a) => spec_application(p@) == Some(a@),
                None => spec_application(p@) is None,
            },
    {
        let fields = match doc_fields_exec(p) {
            Some(f) => f,
            None => {
                return None;
            },
        };
        match fs_snowflake(p, &fields, "id") {
            Some(id) => Some(Application { id }),
            None => None,
        }
    }
}

/// How many session starts the service still allows.
pub struct SessionStartLimit {
    pub total: u32,
    pub remaining: u32,
    pub reset_after: u32,
    pub max_concurrency: u32,
}

/// The session-start-limit object's wire shape: four unsigned fields that
/// fit in 32 bits.
pub open spec fn spec_session_start_limit(p: Seq<char>) -> Option<SessionStartLimit> {
    match spec_doc_fields(p) {
        None => None,
        Some(fs) => match spec_fs_req_u64(p, fs, "total"@) {
            None => None,
            Some(total) => match spec_fs_req_u64(p, fs, "remaining"@) {
                None => None,
                Some(remaining) => match spec_fs_req_u64(p, fs, "reset_after"@) {
                    None => None,
                    Some(reset_after) => match spec_fs_req_u64(p, fs, "max_concurrency"@) {
                        None => None,
                        Some(max_concurrency) => if total <= u32::MAX && remaining <= u32::MAX
                            && reset_after <= u32::MAX && max_concurrency <= u32::MAX {
                            Some(
                                SessionStartLimit {
                                    total: total as u32,
                                    remaining: remaining as u32,
                                    reset_after: reset_after as u32,
                                    max_concurrency: max_concurrency as u32,
                                },
                            )
                        } else {
                            None
                        },
                    },
                },
            },
        },
    }
}

impl SessionStartLimit {
    pub fn from_json(p: &Vec<char>) -> (r: Option<SessionStartLimit>)
        ensures
            match r {
                Some(l) => spec_session_start_limit(p@) == Some(l),
                None => spec_session_start_limit(p@) is None,
            },
    {
        let fields = match doc_fields_exec(p) {
            Some(f) => f,
            None => {
                return None;
            },
        };
        let total = match fs_req_u64(p, &fields, "total") {
            Some(v) => v,
            None => {
                return None;
            },
        };
        let remaining = match fs_req_u64(p, &fields, "remaining") {
            Some(v) => v,
            None => {
                return None;
            },
        };
        let reset_after = match fs_req_u64(p, &fields, "reset_after") {
            Some(v) => v,
            None => {
                return None;
            },
        };
        let max_concurrency = match fs_req_u64(p, &fields, "max_concurrency") {
            Some(v) => v,
            None => {
                return None;
            },
        };
        if total <= u32::MAX as u64 && remaining <= u32::MAX as u64 && reset_after <= u32::MAX
            as u64 && max_concurrency <= u32::MAX as u64 {
            Some(
                SessionStartLimit {
                    total: total as u32,
                    remaining: remaining as u32,
                    reset_after: reset_after as u32,
                    max_concurrency: max_concurrency as u32,
                },
            )
        } else {
            None
        }
    }
}

/// What the ghost model of the bootstrap response holds.
pub struct BotGatewayModel {
    pub url: Seq<char>,
    pub shards: u32,
    pub session_start_limit: SessionStartLimit,
}

/// How the connecting process should reach the gateway: the answer of the
/// one-shot bootstrap request made before a connection is attempted.
pub struct BotGateway {
    /// The URL of the gateway the process should connect to.
    pub url: String,
    /// The recommended number of shards for the connection.
    pub shards: u32,
    /// Meta-information about session starts.
    pub session_start_limit: SessionStartLimit,
}

impl View for BotGateway {
    type V = BotGatewayModel;

    open spec fn view(&self) -> BotGatewayModel {
        BotGatewayModel {
            url: self.url@,
            shards: self.shards,
            session_start_limit: self.session_start_limit,
        }
    }
}

/// The bootstrap response's wire shape: a string `url`, a 32-bit unsigned
/// `shards`, and a nested `session_start_limit` object.
pub open spec fn spec_bot_gateway(p: Seq<char>) -> Option<BotGatewayModel> {
    match spec_doc_fields(p) {
        None => None,
        Some(fs) => match spec_fs_req_str(p, fs, "url"@) {
            None => None,
            Some(url) => match spec_fs_req_u64(p, fs, "shards"@) {
                None => None,
                Some(shards) => if shards <= u32::MAX {
                    match spec_fs_raw(p, fs, "session_start_limit"@) {
                        None => None,
                        Some(raw) => match spec_session_start_limit(raw) {
                            None => None,
                            Some(lim) => Some(
                                BotGatewayModel {
                                    url,
                                    shards: shards as u32,
                                    session_start_limit: lim,
                                },
                            ),
                        },
                    }
                } else {
                    None
                },
            },
        },
    }
}

impl BotGateway {
    pub fn from_json(p: &Vec<char>) -> (r: Option<BotGateway>)
        ensures
            match r {
                Some(g) => spec_bot_gateway(p@) == Some(g@),
                None => spec_bot_gateway(p@) is None,
            },
    {
        let fields = match doc_fields_exec(p) {
            Some(f) => f,
            None => {
                return None;
            },
        };
        let url = match fs_req_str(p, &fields, "url") {
            Some(v) => chars_to_string(&v),
            None => {
                return None;
            },
        };
        let shards = match fs_req_u64(p, &fields, "shards") {
            Some(v) => v,
            None => {
                return None;
            },
        };
        if shards > u32::MAX as u64 {
            return None;
        }
        let raw = match fs_raw(p, &fields, "session_start_limit") {
            Some(v) => v,
            None => {
                return None;
            },
        };
        match SessionStartLimit::from_json(&raw) {
            Some(lim) => Some(
                BotGateway { url, shards: shards as u32, session_start_limit: lim },
            ),
            None => None,
        }
    }
}

} // verus!
