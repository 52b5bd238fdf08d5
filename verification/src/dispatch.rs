//! The event dispatcher: classifies each post-handshake inbound envelope
//! into a closed set of typed events by an explicit table over the event
//! name. An unknown name is not an error — it becomes the unrecognized
//! variant, payload kept raw. A known name whose payload does not fit its
//! shape becomes a per-event decode failure, payload kept raw, and never
//! fails the connection.

use vstd::prelude::*;

use crate::codec::{Envelope, EnvelopeModel};
use crate::guild::{
    spec_guild, spec_guild_member_update, Guild, GuildMemberUpdate, GuildMemberUpdateModel,
    GuildModel,
};
use crate::interaction::{spec_interaction, Interaction, InteractionModel};
use crate::message::{spec_message, Message, MessageModel};

verus! {

/// The empty acknowledgement of a heartbeat.
pub struct HeartbeatAck {}

/// One classified inbound event.
pub enum GatewayMessageData {
    /// The service acknowledged a heartbeat.
    HeartbeatAck(HeartbeatAck),
    /// A guild became known to the session.
    GuildCreate(Guild),
    /// A message was created.
    MessageCreate(Message),
    /// An interaction arrived.
    InteractionCreate(Interaction),
    /// A guild member changed.
    GuildMemberUpdate(GuildMemberUpdate),
    /// The event name is not in the table; the raw payload is kept.
    Unrecognized(Vec<char>),
    /// The name is known but the payload does not fit its shape; the raw
    /// payload is kept for the consumer to judge.
    DecodeFailure(Vec<char>),
}

/// The ghost model of a classified event.
pub enum GatewayDataModel {
    HeartbeatAck,
    GuildCreate(GuildModel),
    MessageCreate(MessageModel),
    InteractionCreate(InteractionModel),
    GuildMemberUpdate(GuildMemberUpdateModel),
    Unrecognized(Seq<char>),
    DecodeFailure(Seq<char>),
}

impl View for GatewayMessageData {
    type V = GatewayDataModel;

    open spec fn view(&self) -> GatewayDataModel {
        match self {
            GatewayMessageData::HeartbeatAck(_) => GatewayDataModel::HeartbeatAck,
            GatewayMessageData::GuildCreate(g) => GatewayDataModel::GuildCreate(g@),
            GatewayMessageData::MessageCreate(m) => GatewayDataModel::MessageCreate(m@),
            GatewayMessageData::InteractionCreate(i) => GatewayDataModel::InteractionCreate(i@),
            GatewayMessageData::GuildMemberUpdate(u) => GatewayDataModel::GuildMemberUpdate(u@),
            GatewayMessageData::Unrecognized(raw) => GatewayDataModel::Unrecognized(raw@),
            GatewayMessageData::DecodeFailure(raw) => GatewayDataModel::DecodeFailure(raw@),
        }
    }
}

/// The classification table. Opcode 11 acknowledges a heartbeat; the
/// dispatch opcode 0 goes by the event name; every other opcode, and every
/// name outside the table, is carried through unrecognized.
pub open spec fn spec_classify(env: EnvelopeModel) -> GatewayDataModel {
    if env.opcode == 11 {
        GatewayDataModel::HeartbeatAck
    } else if env.opcode == 0 {
        match env.event_name {
            Some(name) => if name == "GUILD_CREATE"@ {
                match spec_guild(env.payload) {
                    Some(g) => GatewayDataModel::GuildCreate(g),
                    None => GatewayDataModel::DecodeFailure(env.payload),
                }
            } else if name == "MESSAGE_CREATE"@ {
                match spec_message(env.payload) {
                    Some(m) => GatewayDataModel::MessageCreate(m),
                    None => GatewayDataModel::DecodeFailure(env.payload),
                }
            } else if name == "INTERACTION_CREATE"@ {
                match spec_interaction(env.payload) {
                    Some(i) => GatewayDataModel::InteractionCreate(i),
                    None => GatewayDataModel::DecodeFailure(env.payload),
                }
            } else if name == "GUILD_MEMBER_UPDATE"@ {
                match spec_guild_member_update(env.payload) {
                    Some(u) => GatewayDataModel::GuildMemberUpdate(u),
                    None => GatewayDataModel::DecodeFailure(env.payload),
                }
            } else {
                GatewayDataModel::Unrecognized(env.payload)
            },
            None => GatewayDataModel::Unrecognized(env.payload),
        }
    } else {
        GatewayDataModel::Unrecognized(env.payload)
    }
}

/// What the ghost model of a delivered event holds.
pub struct GatewayEventModel {
    pub opcode: i64,
    pub sequence_number: Option<i64>,
    pub dispatch_type: Option<Seq<char>>,
    pub data: GatewayDataModel,
}

/// One event as the consumer receives it: the envelope's bookkeeping
/// fields and the classified payload.
pub struct GatewayEvent {
    pub opcode: i64,
    pub sequence_number: Option<i64>,
    pub dispatch_type: Option<String>,
    pub data: GatewayMessageData,
}

impl View for GatewayEvent {
    type V = GatewayEventModel;

    open spec fn view(&self) -> GatewayEventModel {
        GatewayEventModel {
            opcode: self.opcode,
            sequence_number: self.sequence_number,
            dispatch_type: match self.dispatch_type {
                None => None,
                Some(n) => Some(n@),
            },
            data: self.data@,
        }
    }
}

/// What dispatching an envelope delivers.
pub open spec fn spec_dispatch(env: EnvelopeModel) -> GatewayEventModel {
    GatewayEventModel {
        opcode: env.opcode,
        sequence_number: env.sequence,
        dispatch_type: env.event_name,
        data: spec_classify(env),
    }
}

impl GatewayEvent {
    /// Classify one decoded envelope.
    pub fn from_envelope(env: Envelope) -> (ev: GatewayEvent)
        ensures
            ev@ == spec_dispatch(env@),
    {
        let Envelope { opcode, sequence, event_name, payload } = env;
        let data: GatewayMessageData = if opcode == 11 {
            GatewayMessageData::HeartbeatAck(HeartbeatAck {})
        } else if opcode == 0 {
            match &event_name {
                Some(name) => {
                    if *name == String::from_str("GUILD_CREATE") {
                        match Guild::from_json(&payload) {
                            Some(g) => GatewayMessageData::GuildCreate(g),
                            None => GatewayMessageData::DecodeFailure(payload),
                        }
                    } else if *name == String::from_str("MESSAGE_CREATE") {
                        match Message::from_json(&payload) {
                            Some(m) => GatewayMessageData::MessageCreate(m),
                            None => GatewayMessageData::DecodeFailure(payload),
                        }
                    } else if *name == String::from_str("INTERACTION_CREATE") {
                        match Interaction::from_json(&payload) {
                            Some(i) => GatewayMessageData::InteractionCreate(i),
                            None => GatewayMessageData::DecodeFailure(payload),
                        }
                    } else if *name == String::from_str("GUILD_MEMBER_UPDATE") {
                        match GuildMemberUpdate::from_json(&payload) {
                            Some(u) => GatewayMessageData::GuildMemberUpdate(u),
                            None => GatewayMessageData::DecodeFailure(payload),
                        }
                    } else {
                        GatewayMessageData::Unrecognized(payload)
                    }
                },
                None => GatewayMessageData::Unrecognized(payload),
            }
        } else {
            GatewayMessageData::Unrecognized(payload)
        };
        GatewayEvent { opcode, sequence_number: sequence, dispatch_type: event_name, data }
    }
}

} // verus!
