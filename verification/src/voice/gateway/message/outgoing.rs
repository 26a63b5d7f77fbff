//! Messages sent to the gateway.
use vstd::prelude::*;
use super::super::intents::Intent;
use super::model::activity::{Activity, Status};
use super::model::id::{ChannelID, GuildID, SequenceID};

verus! {

/// A message that will be sent to the gateway
#[derive(Debug)]
pub struct OutgoingGatewayMessage {
    opcode: u8,
    pub data: OutgoingGatewayData,
}

/// Data that will be sent to the gateway
#[derive(Debug)]
pub enum OutgoingGatewayData {
    Heartbeat(Option<u64>),
    HeartbeatAck,
    Identify { intents: Intent, properties: IdentifyProperties, token: String },
    PresenceUpdate {
        /// Unix time (in milliseconds) of when the client went idle, or `None` if the client is not idle
        since: Option<u64>,
        /// `None`, or the user's new activity
        game: Option<Activity>,
        /// The user's new [Status]
        status: Status,
        /// Whether or not the client is afk
        afk: bool,
    },
    Resume { token: String, session_id: String, seq: SequenceID },
    VoiceStateUpdate {
        guild_id: Option<GuildID>,
        channel_id: Option<ChannelID>,
        self_mute: bool,
        self_deaf: bool,
    },
}

/// The properties of the connecting client, sent when identifying.
#[derive(Debug)]
pub struct IdentifyProperties {
    pub os: String,
    pub browser: String,
    pub device: String,
}

/// The gateway opcode of each kind of outgoing data.
pub open spec fn outgoing_opcode(data: OutgoingGatewayData) -> u8 {
    match data {
        OutgoingGatewayData::Heartbeat(_) => 1,
        OutgoingGatewayData::Identify { .. } => 2,
        OutgoingGatewayData::PresenceUpdate { .. } => 3,
        OutgoingGatewayData::VoiceStateUpdate { .. } => 4,
        OutgoingGatewayData::Resume { .. } => 6,
        OutgoingGatewayData::HeartbeatAck => 11,
    }
}

impl OutgoingGatewayMessage {
    /// The opcode of the message.
    pub closed spec fn spec_opcode(self) -> u8 {
        self.opcode
    }

    /// The data the message carries.
    pub closed spec fn spec_data(self) -> OutgoingGatewayData {
        self.data
    }

    /// The opcode of the message.
    pub fn opcode(&self) -> (op: u8)
        ensures
            op == self.spec_opcode(),
    {
        self.opcode
    }
}

impl From<OutgoingGatewayData> for OutgoingGatewayMessage {
    /// Wraps `data` with the opcode of its kind.
    fn from(data: OutgoingGatewayData) -> (m: Self) {
        let opcode = match &data {
            OutgoingGatewayData::Heartbeat(_) => 1,
            OutgoingGatewayData::Identify { .. } => 2,
            OutgoingGatewayData::PresenceUpdate { .. } => 3,
            OutgoingGatewayData::VoiceStateUpdate { .. } => 4,
            OutgoingGatewayData::Resume { .. } => 6,
            OutgoingGatewayData::HeartbeatAck => 11,
        };
        OutgoingGatewayMessage { opcode, data }
    }
}

impl vstd::std_specs::convert::FromSpecImpl<OutgoingGatewayData> for OutgoingGatewayMessage {
    open spec fn obeys_from_spec() -> bool {
        true
    }

    closed spec fn from_spec(data: OutgoingGatewayData) -> OutgoingGatewayMessage {
        OutgoingGatewayMessage { opcode: outgoing_opcode(data), data }
    }
}

/// A message built from data carries that data and the opcode of its kind.
pub proof fn lemma_message_opcode(data: OutgoingGatewayData)
    ensures
        <OutgoingGatewayMessage as vstd::std_specs::convert::FromSpec<
            OutgoingGatewayData,
        >>::from_spec(data).spec_opcode() == outgoing_opcode(data),
        <OutgoingGatewayMessage as vstd::std_specs::convert::FromSpec<
            OutgoingGatewayData,
        >>::from_spec(data).spec_data() == data,
{
}

} // verus!
