//! The envelope codec. Every frame on the wire is a JSON object carrying
//! an opcode under `op`, an optional sequence number under `s`, an optional
//! event name under `t`, and a payload under `d` whose shape the codec does
//! not interpret. Decoding fails only on a structurally malformed frame —
//! an unrecognized event name is not the codec's concern. Encoding always
//! writes the fixed two-field shape `{op, d}`: outbound frames never carry
//! `s` or `t`.

use vstd::prelude::*;

use crate::error::GatewayError;
use crate::json::{
    fs_opt_i64, fs_opt_str, fs_raw, fs_req_i64, doc_fields_exec, is_scalar_start, lookup,
    lookup_from, obj_fields, plain_scalar, skip_ws, spec_doc_fields, spec_fs_opt_i64,
    spec_fs_opt_str, spec_fs_raw, spec_fs_req_i64, string_end, value_end,
};
use crate::json::{lemma_scalar_end_run};
use crate::outside::chars_to_string;
use crate::text::{i64_text, lemma_i64_text_plain, lemma_i64_text_read_back};

verus! {

/// The text of a `null` payload, which also stands for an absent `d`.
pub open spec fn null_text() -> Seq<char> {
    seq!['n', 'u', 'l', 'l']
}

/// What a decoded envelope holds.
pub struct EnvelopeModel {
    pub opcode: i64,
    pub sequence: Option<i64>,
    pub event_name: Option<Seq<char>>,
    pub payload: Seq<char>,
}

/// One decoded inbound frame. The payload is kept as the raw span of the
/// frame's text; the event-specific readers interpret it.
pub struct Envelope {
    pub opcode: i64,
    pub sequence: Option<i64>,
    pub event_name: Option<String>,
    pub payload: Vec<char>,
}

impl View for Envelope {
    type V = EnvelopeModel;

    open spec fn view(&self) -> EnvelopeModel {
        EnvelopeModel {
            opcode: self.opcode,
            sequence: self.sequence,
            event_name: match self.event_name {
                None => None,
                Some(n) => Some(n@),
            },
            payload: self.payload@,
        }
    }
}

/// The envelope grammar: a single object whose `op` field is a signed
/// integer, whose `s` field, if any, is an integer or `null`, whose `t`
/// field, if any, is a string or `null`, and whose `d` field, if absent,
/// counts as `null`. Any other field is ignored. A frame that does not fit
/// is structurally malformed.
pub open spec fn spec_decode(s: Seq<char>) -> Option<EnvelopeModel> {
    match spec_doc_fields(s) {
        None => None,
        Some(fs) => match spec_fs_req_i64(s, fs, "op"@) {
            None => None,
            Some(op) => match spec_fs_opt_i64(s, fs, "s"@) {
                None => None,
                Some(seqno) => match spec_fs_opt_str(s, fs, "t"@) {
                    None => None,
                    Some(name) => Some(
                        EnvelopeModel {
                            opcode: op,
                            sequence: seqno,
                            event_name: name,
                            payload: match spec_fs_raw(s, fs, "d"@) {
                                None => null_text(),
                                Some(p) => p,
                            },
                        },
                    ),
                },
            },
        },
    }
}

/// Decode one inbound frame, or report it structurally malformed.
pub fn decode(raw: &Vec<char>) -> (r: Result<Envelope, GatewayError>)
    ensures
        match r {
            Ok(env) => spec_decode(raw@) == Some(env@),
            Err(e) => spec_decode(raw@) is None && e == GatewayError::ProtocolViolation,
        },
{
    let fields = match doc_fields_exec(raw) {
        Some(f) => f,
        None => {
            return Err(GatewayError::ProtocolViolation);
        },
    };
    let opcode = match fs_req_i64(raw, &fields, "op") {
        Some(op) => op,
        None => {
            return Err(GatewayError::ProtocolViolation);
        },
    };
    let sequence = match fs_opt_i64(raw, &fields, "s") {
        Some(sq) => sq,
        None => {
            return Err(GatewayError::ProtocolViolation);
        },
    };
    let event_name: Option<String> = match fs_opt_str(raw, &fields, "t") {
        Some(Some(n)) => Some(chars_to_string(&n)),
        Some(None) => None,
        None => {
            return Err(GatewayError::ProtocolViolation);
        },
    };
    let payload = match fs_raw(raw, &fields, "d") {
        Some(p) => p,
        None => {
            let n: Vec<char> = vec!['n', 'u', 'l', 'l'];
            proof {
                assert(n@ =~= null_text());
            }
            n
        },
    };
    Ok(Envelope { opcode, sequence, event_name, payload })
}

/// The fixed outbound shape: `{"op":<op>,"d":<payload>}`.
pub open spec fn spec_encode(op: i64, payload: Seq<char>) -> Seq<char> {
    seq!['{', '"', 'o', 'p', '"', ':'] + i64_text(op as int) + seq![',', '"', 'd', '"', ':']
        + payload + seq!['}']
}

/// Encode one outbound frame around an already-rendered payload.
pub fn encode(op: i64, payload: &Vec<char>) -> (r: Vec<char>)
    ensures
        r@ == spec_encode(op, payload@),
{
    let mut out: Vec<char> = vec!['{', '"', 'o', 'p', '"', ':'];
    proof {
        assert(out@ =~= seq!['{', '"', 'o', 'p', '"', ':']);
    }
    crate::text::push_i64_text(&mut out, op);
    out.push(',');
    out.push('"');
    out.push('d');
    out.push('"');
    out.push(':');
    let mut k: usize = 0;
    while k < payload.len()
        invariant
            k <= payload@.len(),
            out@ == seq!['{', '"', 'o', 'p', '"', ':'] + i64_text(op as int) + seq![
                ',',
                '"',
                'd',
                '"',
                ':',
            ] + payload@.subrange(0, k as int),
        decreases payload@.len() - k,
    {
        out.push(payload[k]);
        proof {
            assert(payload@.subrange(0, k + 1 as int) =~= payload@.subrange(0, k as int).push(
                payload@[k as int],
            ));
            assert(out@ =~= seq!['{', '"', 'o', 'p', '"', ':'] + i64_text(op as int) + seq![
                ',',
                '"',
                'd',
                '"',
                ':',
            ] + payload@.subrange(0, k + 1 as int));
        }
        k = k + 1;
    }
    out.push('}');
    proof {
        assert(payload@.subrange(0, payload@.len() as int) =~= payload@);
        assert(out@ =~= spec_encode(op, payload@));
    }
    out
}

/// An outbound message: an opcode and a rendered payload, which the codec
/// wraps in the fixed two-field envelope.
pub trait SendableGatewayMessage {
    /// The opcode this message goes out under.
    spec fn spec_opcode(&self) -> i64;

    /// The payload text this message renders to.
    spec fn spec_payload(&self) -> Seq<char>;

    fn opcode(&self) -> (r: i64)
        ensures
            r == self.spec_opcode(),
    ;

    fn payload_chars(&self) -> (r: Vec<char>)
        ensures
            r@ == self.spec_payload(),
    ;

    /// The whole outbound frame.
    fn encode_frame(&self) -> (r: Vec<char>)
        ensures
            r@ == spec_encode(self.spec_opcode(), self.spec_payload()),
    {
        let p = self.payload_chars();
        encode(self.opcode(), &p)
    }
}

/// Law: an encoded frame whose payload is one plain scalar decodes back to
/// exactly what was encoded — the same opcode, the same payload text, no
/// sequence number and no event name.
pub proof fn lemma_encode_decode(op: i64, p: Seq<char>)
    requires
        plain_scalar(p),
    ensures
        spec_decode(spec_encode(op, p)) == Some(
            EnvelopeModel { opcode: op, sequence: None, event_name: None, payload: p },
        ),
{
    reveal_strlit("op");
    reveal_strlit("s");
    reveal_strlit("t");
    reveal_strlit("d");
    lemma_i64_text_plain(op as int);
    let t = i64_text(op as int);
    let s = spec_encode(op, p);
    let tl = t.len() as int;
    let pl = p.len() as int;
    assert(s.len() == 12 + tl + pl);
    assert(s[0] == '{' && s[1] == '"' && s[2] == 'o' && s[3] == 'p' && s[4] == '"' && s[5] == ':');
    assert(forall|j: int| 0 <= j < tl ==> s[6 + j] == t[j]);
    assert(s[6 + tl] == ',' && s[7 + tl] == '"' && s[8 + tl] == 'd' && s[9 + tl] == '"' && s[10
        + tl] == ':');
    assert(forall|j: int| 0 <= j < pl ==> s[11 + tl + j] == p[j]);
    assert(s[11 + tl + pl] == '}');
    // the frame of the whole document
    assert(skip_ws(s, 0) == 0);
    // first field: the opcode
    assert(skip_ws(s, 1) == 1);
    assert(string_end(s, 4) == Some(5int));
    assert(string_end(s, 3) == Some(5int));
    assert(string_end(s, 2) == Some(5int));
    assert(s.subrange(2, 4) =~= "op"@);
    assert(skip_ws(s, 5) == 5);
    assert(s[6] == t[0] && is_scalar_start(s[6]));
    assert(skip_ws(s, 6) == 6);
    lemma_scalar_end_run(s, 6, 6 + tl);
    assert(value_end(s, 6) == Some(6 + tl));
    assert(skip_ws(s, 6 + tl) == 6 + tl);
    // second field: the payload
    assert(skip_ws(s, 7 + tl) == 7 + tl);
    assert(string_end(s, 9 + tl) == Some(10 + tl));
    assert(string_end(s, 8 + tl) == Some(10 + tl));
    assert(s.subrange(8 + tl, 9 + tl) =~= "d"@);
    assert(skip_ws(s, 10 + tl) == 10 + tl);
    assert(s[11 + tl] == p[0] && is_scalar_start(s[11 + tl]));
    assert(skip_ws(s, 11 + tl) == 11 + tl);
    lemma_scalar_end_run(s, 11 + tl, 11 + tl + pl);
    assert(value_end(s, 11 + tl) == Some(11 + tl + pl));
    assert(skip_ws(s, 11 + tl + pl) == 11 + tl + pl);
    assert(obj_fields(s, 7 + tl) == Some((seq![("d"@, (11 + tl, 11 + tl + pl))], 12 + tl + pl)));
    let fs = seq![("op"@, (6int, 6 + tl)), ("d"@, (11 + tl, 11 + tl + pl))];
    assert(seq![("op"@, (6int, 6 + tl))] + seq![("d"@, (11 + tl, 11 + tl + pl))] =~= fs);
    assert(obj_fields(s, 1) == Some((fs, 12 + tl + pl)));
    assert(skip_ws(s, 12 + tl + pl) == 12 + tl + pl);
    assert(spec_doc_fields(s) == Some(fs));
    // the four keys are distinct
    assert("op"@.len() == 2 && "s"@.len() == 1 && "t"@.len() == 1 && "d"@.len() == 1);
    assert("d"@[0] == 'd' && "s"@[0] == 's' && "t"@[0] == 't');
    // reading the fields back
    assert(lookup(fs, "op"@) == Some((6int, 6 + tl)));
    assert(s.subrange(6, 6 + tl) =~= t);
    lemma_i64_text_read_back(op);
    assert(spec_fs_req_i64(s, fs, "op"@) == Some(op));
    assert(lookup_from(fs, 2, "s"@) is None);
    assert(lookup_from(fs, 1, "s"@) is None);
    assert(lookup(fs, "s"@) is None);
    assert(spec_fs_opt_i64(s, fs, "s"@) == Some(None::<i64>));
    assert(lookup_from(fs, 2, "t"@) is None);
    assert(lookup_from(fs, 1, "t"@) is None);
    assert(lookup(fs, "t"@) is None);
    assert(spec_fs_opt_str(s, fs, "t"@) == Some(None::<Seq<char>>));
    assert(lookup_from(fs, 1, "d"@) == Some((11 + tl, 11 + tl + pl)));
    assert(lookup(fs, "d"@) == Some((11 + tl, 11 + tl + pl)));
    assert(s.subrange(11 + tl, 11 + tl + pl) =~= p);
    assert(spec_fs_raw(s, fs, "d"@) == Some(p));
}

} // verus!
