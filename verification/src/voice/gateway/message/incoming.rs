//! Messages received from the gateway, and how their kind is read from the envelope.
use vstd::prelude::*;
use super::model::id::{ChannelID, GuildID, MessageID, SequenceID, UserID};
use super::model::user::User;
use crate::strings::str_eq;

verus! {

/// A message that will be recieved from the gateway with a parsed data section
#[derive(Debug)]
pub struct IncomingGatewayMessage {
    /// The opcode the message arrived with.
    pub opcode: u8,
    pub data: IncomingGatewayData,
    pub name: Option<String>,
    pub seq: Option<SequenceID>,
}

/// The data section of an incoming message.
#[derive(Debug)]
pub enum IncomingGatewayData {
    Dispatch(Event),
    Heartbeat(SequenceID),
    HeartbeatAck,
    Hello(HelloGatewayData),
    InvalidSession(bool),
    Reconnect,
    /// Data of an opcode this client does not know, as JSON text.
    Unknown(String),
}

/// The data of the first message of a session.
#[derive(Debug)]
pub struct HelloGatewayData {
    pub heartbeat_interval: u64,
}

/// A dispatched event.
#[derive(Debug)]
pub enum Event {
    /// An event this client does not know: its name, and its data as JSON text.
    Unknown(String, String),
    /// An event this client receives and ignores, by name.
    Muted(String),
    Ready(GatewayReady),
    CallUpdate(CallUpdate),
    VoiceStateUpdate(VoiceStateUpdate),
    CallDelete(CallDelete),
}

/// A call has changed, for example who it is ringing.
#[derive(Debug)]
pub struct CallUpdate {
    pub channel_id: Option<ChannelID>,
    pub guild_id: Option<GuildID>,
    pub message_id: Option<MessageID>,
    pub region: String,
    pub ringing: Vec<UserID>,
}

/// A user's voice state has changed.
#[derive(Debug)]
pub struct VoiceStateUpdate {
    pub channel_id: Option<ChannelID>,
    pub deaf: bool,
    pub guild_id: Option<GuildID>,
    pub mute: bool,
    pub self_deaf: bool,
    pub self_mute: bool,
    pub self_video: bool,
    pub session_id: String,
    pub suppress: bool,
    pub user_id: UserID,
}

/// A call has ended.
#[derive(Debug)]
pub struct CallDelete {
    pub channel_id: ChannelID,
}

/// The session is ready: who is logged in, and the session's id.
#[derive(Debug)]
pub struct GatewayReady {
    pub user: User,
    pub session_id: String,
}

/// Which event a dispatch carries, read from the event's name.
#[derive(Debug, Clone, Copy, PartialEq, Eq, Structural)]
pub enum EventKind {
    Ready,
    Muted,
    CallUpdate,
    VoiceStateUpdate,
    CallDelete,
    Unknown,
}

/// Which data an incoming message carries, read from its opcode and event name.
#[derive(Debug, Clone, Copy, PartialEq, Eq, Structural)]
pub enum DataKind {
    Dispatch(EventKind),
    Heartbeat,
    HeartbeatAck,
    Hello,
    InvalidSession,
    Reconnect,
    Unknown,
}

/// The events that are received and ignored.
pub open spec fn is_muted_event(name: Seq<char>) -> bool {
    ||| name == "SESSIONS_REPLACE"@
    ||| name == "PRESENCE_UPDATE"@
    ||| name == "MESSAGE_CREATE"@
    ||| name == "MESSAGE_UPDATE"@
    ||| name == "CALL_CREATE"@
}

/// The kind of event named `name`.
pub open spec fn event_kind_spec(name: Seq<char>) -> EventKind {
    if name == "READY"@ {
        EventKind::Ready
    } else if is_muted_event(name) {
        EventKind::Muted
    } else if name == "CALL_UPDATE"@ {
        EventKind::CallUpdate
    } else if name == "VOICE_STATE_UPDATE"@ {
        EventKind::VoiceStateUpdate
    } else if name == "CALL_DELETE"@ {
        EventKind::CallDelete
    } else {
        EventKind::Unknown
    }
}

/// The kind of data that a message with `opcode` and event name `name` carries.
pub open spec fn data_kind_spec(opcode: u8, name: Option<Seq<char>>) -> DataKind {
    if opcode == 0 {
        match name {
            Some(n) => DataKind::Dispatch(event_kind_spec(n)),
            None => DataKind::Unknown,
        }
    } else if opcode == 1 {
        DataKind::Heartbeat
    } else if opcode == 7 {
        DataKind::Reconnect
    } else if opcode == 9 {
        DataKind::InvalidSession
    } else if opcode == 10 {
        DataKind::Hello
    } else if opcode == 11 {
        DataKind::HeartbeatAck
    } else {
        DataKind::Unknown
    }
}

/// The view of an optional name.
pub open spec fn name_view(name: Option<String>) -> Option<Seq<char>> {
    match name {
        Some(n) => Some(n@),
        None => None,
    }
}

/// A dispatch that names an event carries exactly the kind of that event, whatever the
/// name; without a name it is unknown data.
pub proof fn lemma_dispatch_kind(name: Seq<char>)
    ensures
        data_kind_spec(0, Some(name)) == DataKind::Dispatch(event_kind_spec(name)),
        data_kind_spec(0, None) == DataKind::Unknown,
{
}

/// Each known event name gives its own kind.
pub proof fn lemma_known_event_names()
    ensures
        event_kind_spec("READY"@) == EventKind::Ready,
        event_kind_spec("CALL_UPDATE"@) == EventKind::CallUpdate,
        event_kind_spec("VOICE_STATE_UPDATE"@) == EventKind::VoiceStateUpdate,
        event_kind_spec("CALL_DELETE"@) == EventKind::CallDelete,
        event_kind_spec("SESSIONS_REPLACE"@) == EventKind::Muted,
        event_kind_spec("PRESENCE_UPDATE"@) == EventKind::Muted,
        event_kind_spec("MESSAGE_CREATE"@) == EventKind::Muted,
        event_kind_spec("MESSAGE_UPDATE"@) == EventKind::Muted,
        event_kind_spec("CALL_CREATE"@) == EventKind::Muted,
{
    lemma_event_name_ready();
    lemma_event_name_call_update();
    lemma_event_name_voice_state_update();
    lemma_event_name_call_delete();
    lemma_event_name_sessions_replace();
    lemma_event_name_presence_update();
    lemma_event_name_message_create();
    lemma_event_name_message_update();
    lemma_event_name_call_create();
}

proof fn lemma_event_name_ready()
    ensures
        event_kind_spec("READY"@) == EventKind::Ready,
{
    reveal_strlit("READY");
}

proof fn lemma_event_name_call_update()
    ensures
        event_kind_spec("CALL_UPDATE"@) == EventKind::CallUpdate,
{
    reveal_strlit("CALL_UPDATE");
    reveal_strlit("READY");
    reveal_strlit("SESSIONS_REPLACE");
    reveal_strlit("PRESENCE_UPDATE");
    reveal_strlit("MESSAGE_CREATE");
    reveal_strlit("MESSAGE_UPDATE");
    reveal_strlit("CALL_CREATE");
    assert("CALL_UPDATE"@ != "READY"@) by {
        assert("CALL_UPDATE"@.len() != "READY"@.len());
    }
    assert("CALL_UPDATE"@ != "SESSIONS_REPLACE"@) by {
        assert("CALL_UPDATE"@.len() != "SESSIONS_REPLACE"@.len());
    }
    assert("CALL_UPDATE"@ != "PRESENCE_UPDATE"@) by {
        assert("CALL_UPDATE"@.len() != "PRESENCE_UPDATE"@.len());
    }
    assert("CALL_UPDATE"@ != "MESSAGE_CREATE"@) by {
        assert("CALL_UPDATE"@.len() != "MESSAGE_CREATE"@.len());
    }
    assert("CALL_UPDATE"@ != "MESSAGE_UPDATE"@) by {
        assert("CALL_UPDATE"@.len() != "MESSAGE_UPDATE"@.len());
    }
    assert("CALL_UPDATE"@ != "CALL_CREATE"@) by {
        assert("CALL_UPDATE"@[5] != "CALL_CREATE"@[5]);
    }
}

proof fn lemma_event_name_voice_state_update()
    ensures
        event_kind_spec("VOICE_STATE_UPDATE"@) == EventKind::VoiceStateUpdate,
{
    reveal_strlit("VOICE_STATE_UPDATE");
    reveal_strlit("READY");
    reveal_strlit("SESSIONS_REPLACE");
    reveal_strlit("PRESENCE_UPDATE");
    reveal_strlit("MESSAGE_CREATE");
    reveal_strlit("MESSAGE_UPDATE");
    reveal_strlit("CALL_CREATE");
    reveal_strlit("CALL_UPDATE");
    assert("VOICE_STATE_UPDATE"@ != "READY"@) by {
        assert("VOICE_STATE_UPDATE"@.len() != "READY"@.len());
    }
    assert("VOICE_STATE_UPDATE"@ != "SESSIONS_REPLACE"@) by {
        assert("VOICE_STATE_UPDATE"@.len() != "SESSIONS_REPLACE"@.len());
    }
    assert("VOICE_STATE_UPDATE"@ != "PRESENCE_UPDATE"@) by {
        assert("VOICE_STATE_UPDATE"@.len() != "PRESENCE_UPDATE"@.len());
    }
    assert("VOICE_STATE_UPDATE"@ != "MESSAGE_CREATE"@) by {
        assert("VOICE_STATE_UPDATE"@.len() != "MESSAGE_CREATE"@.len());
    }
    assert("VOICE_STATE_UPDATE"@ != "MESSAGE_UPDATE"@) by {
        assert("VOICE_STATE_UPDATE"@.len() != "MESSAGE_UPDATE"@.len());
    }
    assert("VOICE_STATE_UPDATE"@ != "CALL_CREATE"@) by {
        assert("VOICE_STATE_UPDATE"@.len() != "CALL_CREATE"@.len());
    }
    assert("VOICE_STATE_UPDATE"@ != "CALL_UPDATE"@) by {
        assert("VOICE_STATE_UPDATE"@.len() != "CALL_UPDATE"@.len());
    }
}

proof fn lemma_event_name_call_delete()
    ensures
        event_kind_spec("CALL_DELETE"@) == EventKind::CallDelete,
{
    reveal_strlit("CALL_DELETE");
    reveal_strlit("READY");
    reveal_strlit("SESSIONS_REPLACE");
    reveal_strlit("PRESENCE_UPDATE");
    reveal_strlit("MESSAGE_CREATE");
    reveal_strlit("MESSAGE_UPDATE");
    reveal_strlit("CALL_CREATE");
    reveal_strlit("CALL_UPDATE");
    reveal_strlit("VOICE_STATE_UPDATE");
    assert("CALL_DELETE"@ != "READY"@) by {
        assert("CALL_DELETE"@.len() != "READY"@.len());
    }
    assert("CALL_DELETE"@ != "SESSIONS_REPLACE"@) by {
        assert("CALL_DELETE"@.len() != "SESSIONS_REPLACE"@.len());
    }
    assert("CALL_DELETE"@ != "PRESENCE_UPDATE"@) by {
        assert("CALL_DELETE"@.len() != "PRESENCE_UPDATE"@.len());
    }
    assert("CALL_DELETE"@ != "MESSAGE_CREATE"@) by {
        assert("CALL_DELETE"@.len() != "MESSAGE_CREATE"@.len());
    }
    assert("CALL_DELETE"@ != "MESSAGE_UPDATE"@) by {
        assert("CALL_DELETE"@.len() != "MESSAGE_UPDATE"@.len());
    }
    assert("CALL_DELETE"@ != "CALL_CREATE"@) by {
        assert("CALL_DELETE"@[5] != "CALL_CREATE"@[5]);
    }
    assert("CALL_DELETE"@ != "CALL_UPDATE"@) by {
        assert("CALL_DELETE"@[5] != "CALL_UPDATE"@[5]);
    }
    assert("CALL_DELETE"@ != "VOICE_STATE_UPDATE"@) by {
        assert("CALL_DELETE"@.len() != "VOICE_STATE_UPDATE"@.len());
    }
}

proof fn lemma_event_name_sessions_replace()
    ensures
        event_kind_spec("SESSIONS_REPLACE"@) == EventKind::Muted,
{
    reveal_strlit("SESSIONS_REPLACE");
    reveal_strlit("READY");
    assert("SESSIONS_REPLACE"@ != "READY"@) by {
        assert("SESSIONS_REPLACE"@.len() != "READY"@.len());
    }
}

proof fn lemma_event_name_presence_update()
    ensures
        event_kind_spec("PRESENCE_UPDATE"@) == EventKind::Muted,
{
    reveal_strlit("PRESENCE_UPDATE");
    reveal_strlit("READY");
    assert("PRESENCE_UPDATE"@ != "READY"@) by {
        assert("PRESENCE_UPDATE"@.len() != "READY"@.len());
    }
}

proof fn lemma_event_name_message_create()
    ensures
        event_kind_spec("MESSAGE_CREATE"@) == EventKind::Muted,
{
    reveal_strlit("MESSAGE_CREATE");
    reveal_strlit("READY");
    assert("MESSAGE_CREATE"@ != "READY"@) by {
        assert("MESSAGE_CREATE"@.len() != "READY"@.len());
    }
}

proof fn lemma_event_name_message_update()
    ensures
        event_kind_spec("MESSAGE_UPDATE"@) == EventKind::Muted,
{
    reveal_strlit("MESSAGE_UPDATE");
    reveal_strlit("READY");
    assert("MESSAGE_UPDATE"@ != "READY"@) by {
        assert("MESSAGE_UPDATE"@.len() != "READY"@.len());
    }
}

proof fn lemma_event_name_call_create()
    ensures
        event_kind_spec("CALL_CREATE"@) == EventKind::Muted,
{
    reveal_strlit("CALL_CREATE");
    reveal_strlit("READY");
    assert("CALL_CREATE"@ != "READY"@) by {
        assert("CALL_CREATE"@.len() != "READY"@.len());
    }
}

/// The kind of event named `name`.
pub fn event_kind(name: &str) -> (k: EventKind)
    ensures
        k == event_kind_spec(name@),
{
    if str_eq(name, "READY") {
        EventKind::Ready
    } else if str_eq(name, "SESSIONS_REPLACE") || str_eq(name, "PRESENCE_UPDATE") || str_eq(
        name,
        "MESSAGE_CREATE",
    ) || str_eq(name, "MESSAGE_UPDATE") || str_eq(name, "CALL_CREATE") {
        EventKind::Muted
    } else if str_eq(name, "CALL_UPDATE") {
        EventKind::CallUpdate
    } else if str_eq(name, "VOICE_STATE_UPDATE") {
        EventKind::VoiceStateUpdate
    } else if str_eq(name, "CALL_DELETE") {
        EventKind::CallDelete
    } else {
        EventKind::Unknown
    }
}

/// The kind of data that a message with `opcode` and event name `name` carries; the
/// data section is read as that kind.
pub fn data_kind(opcode: u8, name: &Option<String>) -> (k: DataKind)
    ensures
        k == data_kind_spec(opcode, name_view(*name)),
        opcode == 0 && name is Some ==> k == DataKind::Dispatch(event_kind_spec(name->0@)),
        opcode == 0 && name is None ==> k == DataKind::Unknown,
{
    match opcode {
        0 => match name {
            Some(event) => DataKind::Dispatch(event_kind(event.as_str())),
            None => DataKind::Unknown,
        },
        1 => DataKind::Heartbeat,
        7 => DataKind::Reconnect,
        9 => DataKind::InvalidSession,
        10 => DataKind::Hello,
        11 => DataKind::HeartbeatAck,
        _ => DataKind::Unknown,
    }
}

} // verus!
