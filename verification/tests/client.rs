use ye_olde_discord::voice::client::{
    heartbeat_payload, identify_payload, os_name, ClientAction, ClientState, GatewayEvent,
    LoginFlow, TargetOs,
};
use ye_olde_discord::voice::gateway::connection::{
    connection_action, connection_continues, ConnectionAction, ConnectionEvent,
};
use ye_olde_discord::voice::gateway::message::incoming::{
    data_kind, event_kind, CallUpdate, DataKind, Event, EventKind, GatewayReady,
    HelloGatewayData, IncomingGatewayData, IncomingGatewayMessage,
};
use ye_olde_discord::voice::gateway::message::model::activity::{ActivityType, Status};
use ye_olde_discord::voice::gateway::message::model::id::{
    ChannelID, GuildID, SequenceID, Snowflake, UserID,
};
use ye_olde_discord::voice::gateway::message::model::user::{PremiumType, User, UserFlags};
use ye_olde_discord::voice::gateway::message::outgoing::{
    IdentifyProperties, OutgoingGatewayData, OutgoingGatewayMessage,
};

fn user(id: u64) -> User {
    User {
        id: Snowflake::from(id),
        username: "tester".to_string(),
        discriminator: "0001".to_string(),
        avatar: None,
        bot: false,
        system: false,
        mfa_enabled: false,
        locale: "en-US".to_string(),
        verified: true,
        email: None,
        flags: UserFlags::from_bits_truncate(0),
        premium_type: PremiumType::NoSubscription,
        public_flags: UserFlags::from_bits_truncate(0),
    }
}

fn message(opcode: u8, data: IncomingGatewayData, seq: Option<u64>) -> IncomingGatewayMessage {
    IncomingGatewayMessage { opcode, data, name: None, seq: seq.map(SequenceID::from) }
}

fn text(m: IncomingGatewayMessage) -> GatewayEvent {
    GatewayEvent::Text(Some(m))
}

fn ready(id: u64) -> IncomingGatewayData {
    IncomingGatewayData::Dispatch(Event::Ready(GatewayReady {
        user: user(id),
        session_id: "session-1".to_string(),
    }))
}

fn call(ringing: Vec<u64>) -> IncomingGatewayData {
    IncomingGatewayData::Dispatch(Event::CallUpdate(CallUpdate {
        channel_id: Some(ChannelID::from(Snowflake::from(30u64))),
        guild_id: None,
        message_id: None,
        region: "europe".to_string(),
        ringing: ringing.into_iter().map(|u| UserID::from(Snowflake::from(u))).collect(),
    }))
}

#[test]
fn new_client_knows_nothing() {
    let s = ClientState::new();
    assert_eq!(s.last_seq, 0);
    assert!(!s.heartbeating);
    assert!(s.user.is_none() && s.session_id.is_none());
}

#[test]
fn hello_starts_heartbeat() {
    let mut s = ClientState::new();
    let st = s.step(text(message(
        10,
        IncomingGatewayData::Hello(HelloGatewayData { heartbeat_interval: 41250 }),
        None,
    )));
    assert!(matches!(st.action, Some(ClientAction::StartHeartbeat(41250))));
    assert_eq!(st.flow, LoginFlow::Continue);
    assert!(s.heartbeating);
    // A second hello starts another heartbeat.
    let st = s.step(text(message(
        10,
        IncomingGatewayData::Hello(HelloGatewayData { heartbeat_interval: 5 }),
        None,
    )));
    assert!(matches!(st.action, Some(ClientAction::StartHeartbeat(5))));
    assert!(s.heartbeating);
}

#[test]
fn server_heartbeat_is_acknowledged() {
    let mut s = ClientState::new();
    let st = s.step(text(message(1, IncomingGatewayData::Heartbeat(SequenceID::from(3u64)), None)));
    assert!(matches!(st.action, Some(ClientAction::Send(OutgoingGatewayData::HeartbeatAck))));
    let st = s.step(text(message(11, IncomingGatewayData::HeartbeatAck, None)));
    assert!(st.action.is_none());
}

#[test]
fn sequence_numbers_are_tracked() {
    let mut s = ClientState::new();
    s.step(text(message(11, IncomingGatewayData::HeartbeatAck, Some(7))));
    assert_eq!(s.last_seq, 7);
    s.step(text(message(11, IncomingGatewayData::HeartbeatAck, None)));
    assert_eq!(s.last_seq, 7);
    s.step(GatewayEvent::Ping);
    s.step(GatewayEvent::Text(None));
    assert_eq!(s.last_seq, 7);
    s.step(text(message(0, IncomingGatewayData::Unknown("{}".to_string()), Some(9))));
    assert_eq!(s.last_seq, 9);
    assert!(matches!(heartbeat_payload(s.last_seq), OutgoingGatewayData::Heartbeat(Some(9))));
}

#[test]
fn heartbeat_before_any_sequence_is_null() {
    assert!(matches!(heartbeat_payload(0), OutgoingGatewayData::Heartbeat(None)));
    assert!(matches!(heartbeat_payload(12), OutgoingGatewayData::Heartbeat(Some(12))));
}

#[test]
fn ready_remembers_session_and_sets_presence() {
    let mut s = ClientState::new();
    let st = s.step(text(message(0, ready(55), Some(1))));
    assert_eq!(s.session_id.as_deref(), Some("session-1"));
    assert_eq!(u64::from(s.user.as_ref().unwrap().id), 55);
    match st.action {
        Some(ClientAction::Send(OutgoingGatewayData::PresenceUpdate { since, game, status, afk })) => {
            assert_eq!(since, Some(0));
            assert_eq!(status, Status::Online);
            assert!(!afk);
            let game = game.unwrap();
            assert_eq!(game.activity_type, ActivityType::Custom);
            assert_eq!(game.name, "Custom Status");
            assert_eq!(game.state.as_deref(), Some("Waiting for a call"));
            assert_eq!(game.emoji.unwrap().name, "☎️");
        }
        _ => panic!("expected a presence update"),
    }
}

#[test]
fn ringing_call_is_joined() {
    let mut s = ClientState::new();
    s.step(text(message(0, ready(55), None)));
    let st = s.step(text(message(0, call(vec![12, 55]), None)));
    match st.action {
        Some(ClientAction::Send(OutgoingGatewayData::VoiceStateUpdate {
            guild_id,
            channel_id,
            self_mute,
            self_deaf,
        })) => {
            assert_eq!(guild_id, None);
            assert_eq!(channel_id, Some(ChannelID::from(Snowflake::from(30u64))));
            assert!(!self_mute && !self_deaf);
        }
        _ => panic!("expected a voice state update"),
    }
    let st = s.step(text(message(0, call(vec![12]), None)));
    assert!(st.action.is_none());
}

#[test]
fn call_before_ready_is_ignored() {
    let mut s = ClientState::new();
    let st = s.step(text(message(0, call(vec![55]), None)));
    assert!(st.action.is_none());
}

#[test]
fn stream_end_and_errors_stop_the_login() {
    let mut s = ClientState::new();
    assert_eq!(s.step(GatewayEvent::Close).flow, LoginFlow::Done);
    assert_eq!(s.step(GatewayEvent::StreamEnd).flow, LoginFlow::Done);
    assert_eq!(s.step(GatewayEvent::ReadError).flow, LoginFlow::Failed);
    assert_eq!(s.step(GatewayEvent::Binary).flow, LoginFlow::Continue);
    assert_eq!(s.step(GatewayEvent::Pong).flow, LoginFlow::Continue);
}

#[test]
fn identify_reports_client() {
    match identify_payload("token-123", TargetOs::Linux, "ye-olde-discord") {
        OutgoingGatewayData::Identify { intents, properties, token } => {
            assert_eq!(intents.bits(), 1 << 12);
            assert_eq!(token, "token-123");
            assert_eq!(properties.os, "linux");
            assert_eq!(properties.browser, "Discord iOS");
            assert_eq!(properties.device, "ye-olde-discord");
        }
        _ => panic!("expected identify"),
    }
    assert_eq!(os_name(TargetOs::MacOs), "macos");
    assert_eq!(os_name(TargetOs::Windows), "windows");
    assert_eq!(os_name(TargetOs::Other), "unknown");
}

#[test]
fn outgoing_opcodes() {
    let op = |d: OutgoingGatewayData| OutgoingGatewayMessage::from(d).opcode();
    assert_eq!(op(OutgoingGatewayData::Heartbeat(None)), 1);
    assert_eq!(op(identify_payload("t", TargetOs::Other, "d")), 2);
    assert_eq!(
        op(OutgoingGatewayData::PresenceUpdate { since: None, game: None, status: Status::Idle, afk: true }),
        3
    );
    assert_eq!(
        op(OutgoingGatewayData::VoiceStateUpdate {
            guild_id: Some(GuildID::from(Snowflake::from(1u64))),
            channel_id: None,
            self_mute: true,
            self_deaf: false,
        }),
        4
    );
    assert_eq!(
        op(OutgoingGatewayData::Resume {
            token: "t".to_string(),
            session_id: "s".to_string(),
            seq: SequenceID::from(2u64),
        }),
        6
    );
    assert_eq!(op(OutgoingGatewayData::HeartbeatAck), 11);
    let _ = IdentifyProperties { os: String::new(), browser: String::new(), device: String::new() };
}

#[test]
fn event_names_are_classified() {
    assert_eq!(event_kind("READY"), EventKind::Ready);
    for muted in ["SESSIONS_REPLACE", "PRESENCE_UPDATE", "MESSAGE_CREATE", "MESSAGE_UPDATE", "CALL_CREATE"] {
        assert_eq!(event_kind(muted), EventKind::Muted);
    }
    assert_eq!(event_kind("CALL_UPDATE"), EventKind::CallUpdate);
    assert_eq!(event_kind("VOICE_STATE_UPDATE"), EventKind::VoiceStateUpdate);
    assert_eq!(event_kind("CALL_DELETE"), EventKind::CallDelete);
    assert_eq!(event_kind("ready"), EventKind::Unknown);
    assert_eq!(event_kind("READY "), EventKind::Unknown);
    assert_eq!(event_kind(""), EventKind::Unknown);
}

#[test]
fn opcodes_are_classified() {
    assert_eq!(data_kind(0, &Some("READY".to_string())), DataKind::Dispatch(EventKind::Ready));
    assert_eq!(data_kind(0, &None), DataKind::Unknown);
    assert_eq!(data_kind(1, &None), DataKind::Heartbeat);
    assert_eq!(data_kind(7, &None), DataKind::Reconnect);
    assert_eq!(data_kind(9, &None), DataKind::InvalidSession);
    assert_eq!(data_kind(10, &Some("X".to_string())), DataKind::Hello);
    assert_eq!(data_kind(11, &None), DataKind::HeartbeatAck);
    assert_eq!(data_kind(2, &None), DataKind::Unknown);
    assert_eq!(data_kind(255, &None), DataKind::Unknown);
}

#[test]
fn connection_loop_decisions() {
    assert_eq!(connection_action(ConnectionEvent::FromUser), ConnectionAction::SendToGateway);
    assert_eq!(connection_action(ConnectionEvent::UserClosed), ConnectionAction::CloseGateway);
    assert_eq!(connection_action(ConnectionEvent::FromGateway), ConnectionAction::ForwardToUser);
    for e in [ConnectionEvent::GatewayError, ConnectionEvent::GatewayClosed, ConnectionEvent::TimedOut] {
        assert_eq!(connection_action(e), ConnectionAction::CloseUserChannel);
    }
    assert!(connection_continues(ConnectionAction::SendToGateway, true));
    assert!(!connection_continues(ConnectionAction::SendToGateway, false));
    assert!(connection_continues(ConnectionAction::ForwardToUser, true));
    assert!(!connection_continues(ConnectionAction::ForwardToUser, false));
    assert!(!connection_continues(ConnectionAction::CloseGateway, true));
    assert!(!connection_continues(ConnectionAction::CloseUserChannel, true));
}

#[test]
fn heartbeat_and_session_are_never_forgotten() {
    let mut s = ClientState::new();
    s.step(text(message(10, IncomingGatewayData::Hello(HelloGatewayData { heartbeat_interval: 1 }), None)));
    s.step(text(message(0, ready(8), Some(2))));
    for e in [
        GatewayEvent::Ping,
        GatewayEvent::Binary,
        GatewayEvent::Text(None),
        GatewayEvent::Close,
        GatewayEvent::ReadError,
    ] {
        s.step(e);
    }
    s.step(text(message(11, IncomingGatewayData::HeartbeatAck, Some(3))));
    assert!(s.heartbeating);
    assert_eq!(s.session_id.as_deref(), Some("session-1"));
    assert_eq!(u64::from(s.user.as_ref().unwrap().id), 8);
    assert_eq!(s.last_seq, 3);
}
