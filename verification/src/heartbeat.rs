//! Heartbeats and their scheduler. A heartbeat reports the highest
//! sequence number seen so far — or null before the first dispatch — and
//! goes out once per interval for the life of the connection. The timer
//! starts when the handshake completes, is never reset by inbound traffic,
//! and moves forward only when a heartbeat is sent.

use vstd::prelude::*;

use crate::codec::{
    lemma_encode_decode, null_text, spec_decode, spec_encode, EnvelopeModel, SendableGatewayMessage,
};
use crate::json::{is_null_text, parse_i64_range, plain_scalar, span_is_null, spec_parse_i64};
use crate::text::{i64_text, lemma_i64_text_plain, lemma_i64_text_read_back, push_i64_text};
use crate::tracker::SequenceTracker;

verus! {

/// The payload a heartbeat renders to: the sequence number's decimal text,
/// or `null` when no dispatch has been seen.
pub open spec fn heartbeat_payload_text(sq: Option<i64>) -> Seq<char> {
    match sq {
        None => null_text(),
        Some(n) => i64_text(n as int),
    }
}

/// One outbound heartbeat.
pub struct Heartbeat {
    /// The last value the sequence tracker held when this beat was made.
    pub sequence: Option<i64>,
}

impl Heartbeat {
    /// A heartbeat carrying whatever the shared tracker holds right now.
    pub fn from_atom(tracker: &SequenceTracker) -> (h: Heartbeat)
        ensures
            h.sequence == tracker@,
    {
        Heartbeat { sequence: tracker.current() }
    }
}

impl SendableGatewayMessage for Heartbeat {
    open spec fn spec_opcode(&self) -> i64 {
        1
    }

    open spec fn spec_payload(&self) -> Seq<char> {
        heartbeat_payload_text(self.sequence)
    }

    fn opcode(&self) -> (r: i64) {
        1
    }

    fn payload_chars(&self) -> (r: Vec<char>) {
        match self.sequence {
            None => {
                let v: Vec<char> = vec!['n', 'u', 'l', 'l'];
                proof {
                    assert(v@ =~= null_text());
                }
                v
            },
            Some(n) => {
                let mut out: Vec<char> = Vec::new();
                push_i64_text(&mut out, n);
                proof {
                    assert(out@ =~= i64_text(n as int));
                }
                out
            },
        }
    }
}

/// What a heartbeat payload says: `null` means no dispatch seen, a number
/// is the reported sequence; anything else is malformed.
pub open spec fn spec_heartbeat_sequence(p: Seq<char>) -> Option<Option<i64>> {
    if is_null_text(p) {
        Some(None)
    } else {
        match spec_parse_i64(p) {
            None => None,
            Some(n) => Some(Some(n)),
        }
    }
}

pub fn heartbeat_sequence_from_payload(p: &Vec<char>) -> (r: Option<Option<i64>>)
    ensures
        r == spec_heartbeat_sequence(p@),
{
    proof {
        assert(p@.subrange(0, p@.len() as int) =~= p@);
    }
    if span_is_null(p, 0, p.len()) {
        Some(None)
    } else {
        match parse_i64_range(p, 0, p.len()) {
            None => None,
            Some(n) => Some(Some(n)),
        }
    }
}

/// Law: a heartbeat's payload reads back to the very sequence value the
/// heartbeat carried.
pub proof fn lemma_heartbeat_payload_reads_back(sq: Option<i64>)
    ensures
        spec_heartbeat_sequence(heartbeat_payload_text(sq)) == Some(sq),
{
    match sq {
        None => {},
        Some(n) => {
            lemma_i64_text_read_back(n);
            let t = i64_text(n as int);
            if n < 0 {
                assert(t[0] == '-');
            } else {
                crate::text::lemma_u64_digits_read_back(n as int);
                assert(crate::json::is_digit(t[0]));
            }
            assert(!is_null_text(t));
        },
    }
}

/// Law (round trip): encoding a heartbeat and decoding the frame yields
/// opcode 1, no sequence number and no event name on the envelope, and the
/// same payload text, whose sequence value reads back unchanged.
pub proof fn lemma_heartbeat_round_trip(sq: Option<i64>)
    ensures
        spec_decode(spec_encode(1, heartbeat_payload_text(sq))) == Some(
            EnvelopeModel {
                opcode: 1,
                sequence: None,
                event_name: None,
                payload: heartbeat_payload_text(sq),
            },
        ),
        spec_heartbeat_sequence(heartbeat_payload_text(sq)) == Some(sq),
{
    let p = heartbeat_payload_text(sq);
    match sq {
        None => {
            assert(p == null_text());
            assert(plain_scalar(p)) by {
                assert(p.len() == 4 && p[0] == 'n' && p[1] == 'u' && p[2] == 'l' && p[3] == 'l');
            }
        },
        Some(n) => {
            lemma_i64_text_plain(n as int);
        },
    }
    lemma_encode_decode(1, p);
    lemma_heartbeat_payload_reads_back(sq);
}

/// Addition on the timeline, pinned to the end of time instead of
/// wrapping.
pub open spec fn sat_add(a: u64, b: u64) -> u64 {
    if a + b > u64::MAX {
        u64::MAX
    } else {
        (a + b) as u64
    }
}

/// The per-connection heartbeat timer.
pub struct HeartbeatScheduler {
    interval_ms: u64,
    next_due: u64,
}

impl HeartbeatScheduler {
    /// The interval the handshake's hello prescribed.
    pub closed spec fn spec_interval(&self) -> u64 {
        self.interval_ms
    }

    /// The earliest moment the next heartbeat may go out.
    pub closed spec fn spec_next_due(&self) -> u64 {
        self.next_due
    }

    /// Whether a heartbeat is owed at `now`.
    pub open spec fn spec_due(&self, now: u64) -> bool {
        now >= self.spec_next_due()
    }

    /// A timer started at `now`: the first beat is owed one full interval
    /// later, never earlier.
    pub fn new(interval_ms: u64, now: u64) -> (h: Self)
        ensures
            h.spec_interval() == interval_ms,
            h.spec_next_due() == sat_add(now, interval_ms),
    {
        let next_due = if now > u64::MAX - interval_ms {
            u64::MAX
        } else {
            now + interval_ms
        };
        HeartbeatScheduler { interval_ms, next_due }
    }

    pub fn is_due(&self, now: u64) -> (r: bool)
        ensures
            r == self.spec_due(now),
    {
        now >= self.next_due
    }

    /// Note a successfully sent heartbeat: the next beat is owed one full
    /// interval after the send, regardless of inbound traffic.
    pub fn mark_sent(&mut self, now: u64)
        ensures
            final(self).spec_interval() == old(self).spec_interval(),
            final(self).spec_next_due() == sat_add(now, old(self).spec_interval()),
    {
        self.next_due = if now > u64::MAX - self.interval_ms {
            u64::MAX
        } else {
            now + self.interval_ms
        };
    }
}

/// Law (first beat timing): a scheduler created when the handshake
/// completed at `start` with interval `interval` is due at a time exactly
/// when a full interval has elapsed — never earlier, and at every moment
/// from `start + interval` on. Where that sum leaves the timeline the
/// timer pins itself to its end.
pub proof fn lemma_first_heartbeat_timing(
    h: HeartbeatScheduler,
    start: u64,
    interval: u64,
    now: u64,
)
    requires
        h.spec_interval() == interval,
        h.spec_next_due() == sat_add(start, interval),
    ensures
        h.spec_due(now) <==> now >= sat_add(start, interval),
        start + interval <= u64::MAX ==> (h.spec_due(now) <==> now >= start + interval),
{
}

} // verus!
