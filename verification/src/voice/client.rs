//! The decisions of the gateway client: what it remembers of a session, and what it
//! sends in answer to each thing the gateway sends it.
use vstd::prelude::*;
use super::gateway::intents::{DIRECT_MESSAGES, ALL_INTENTS, Intent};
use super::gateway::message::incoming::{Event, IncomingGatewayData, IncomingGatewayMessage};
use super::gateway::message::model::activity::{
    Activity,
    ActivityType,
    Status,
    custom_status_name,
};
use super::gateway::message::model::id::UserID;
use super::gateway::message::model::text::Emoji;
use super::gateway::message::model::user::User;
use super::gateway::message::outgoing::{IdentifyProperties, OutgoingGatewayData};

verus! {

/// What the client remembers of its session with the gateway.
pub struct ClientState {
    /// The last sequence number received, `0` before any.
    pub last_seq: u64,
    /// Whether a heartbeat has been started.
    pub heartbeating: bool,
    /// The logged-in user, once the session is ready.
    pub user: Option<User>,
    /// The session's id, once the session is ready.
    pub session_id: Option<String>,
}

/// One thing read from the gateway's stream.
pub enum GatewayEvent {
    /// A text frame: the gateway message it holds, or `None` when it holds none.
    Text(Option<IncomingGatewayMessage>),
    /// A binary frame, which the gateway is not expected to send.
    Binary,
    Ping,
    Pong,
    /// A close frame.
    Close,
    /// Reading the stream failed.
    ReadError,
    /// The stream has no more frames.
    StreamEnd,
}

/// Work that the client asks of the code around it.
pub enum ClientAction {
    /// Send this data to the gateway.
    Send(OutgoingGatewayData),
    /// Start sending heartbeats every so many milliseconds.
    StartHeartbeat(u64),
}

/// Whether the session goes on after an event.
#[derive(Debug, Clone, Copy, PartialEq, Eq, Structural)]
pub enum LoginFlow {
    /// Keep reading the stream.
    Continue,
    /// The gateway closed the session; logging in ends without error.
    Done,
    /// Reading the stream failed; logging in ends with that error.
    Failed,
}

/// The answer to one event.
pub struct Step {
    pub action: Option<ClientAction>,
    pub flow: LoginFlow,
}

/// The operating system the client reports when it identifies.
#[derive(Debug, Clone, Copy, PartialEq, Eq, Structural)]
pub enum TargetOs {
    MacOs,
    Windows,
    Linux,
    Other,
}

/// The name under which each operating system is reported.
pub open spec fn os_name_spec(os: TargetOs) -> Seq<char> {
    match os {
        TargetOs::MacOs => "macos"@,
        TargetOs::Windows => "windows"@,
        TargetOs::Linux => "linux"@,
        TargetOs::Other => "unknown"@,
    }
}

/// The name under which `os` is reported.
pub fn os_name(os: TargetOs) -> (s: &'static str)
    ensures
        s@ == os_name_spec(os),
{
    match os {
        TargetOs::MacOs => "macos",
        TargetOs::Windows => "windows",
        TargetOs::Linux => "linux",
        TargetOs::Other => "unknown",
    }
}

/// The browser the client reports when it identifies.
pub open spec fn browser_name() -> Seq<char> {
    "Discord iOS"@
}

/// The data that identifies the client: the token, the client's properties and the
/// direct-message intents.
pub open spec fn is_identify(data: OutgoingGatewayData, token: Seq<char>, os: TargetOs, device: Seq<char>) -> bool {
    match data {
        OutgoingGatewayData::Identify { intents, properties, token: t } => {
            &&& intents.spec_bits() == DIRECT_MESSAGES
            &&& t@ == token
            &&& properties.os@ == os_name_spec(os)
            &&& properties.browser@ == browser_name()
            &&& properties.device@ == device
        },
        _ => false,
    }
}

/// The first message of a login: identifies the client by `token`, reporting `os` and
/// `device`.
pub fn identify_payload(token: &str, os: TargetOs, device: &str) -> (data: OutgoingGatewayData)
    ensures
        is_identify(data, token@, os, device@),
{
    let intents = Intent::from_bits_truncate(DIRECT_MESSAGES);
    assert(DIRECT_MESSAGES & ALL_INTENTS == DIRECT_MESSAGES) by (bit_vector);
    OutgoingGatewayData::Identify {
        intents,
        properties: IdentifyProperties {
            os: String::from_str(os_name(os)),
            browser: String::from_str("Discord iOS"),
            device: String::from_str(device),
        },
        token: String::from_str(token),
    }
}

/// The heartbeat that carries `last_seq`: no sequence number before any was received.
pub open spec fn heartbeat_spec(last_seq: u64) -> Option<u64> {
    if last_seq == 0 {
        None
    } else {
        Some(last_seq)
    }
}

/// The heartbeat to send when the last sequence number received is `last_seq`.
pub fn heartbeat_payload(last_seq: u64) -> (data: OutgoingGatewayData)
    ensures
        data == OutgoingGatewayData::Heartbeat(heartbeat_spec(last_seq)),
        last_seq != 0 ==> data == OutgoingGatewayData::Heartbeat(Some(last_seq)),
        last_seq == 0 ==> data == OutgoingGatewayData::Heartbeat(None),
{
    OutgoingGatewayData::Heartbeat(if last_seq == 0 { None } else { Some(last_seq) })
}

/// Messages whose handling this client leaves unimplemented.
pub open spec fn is_unhandled(m: IncomingGatewayMessage) -> bool {
    m.data is InvalidSession || m.data is Reconnect
}

/// Events the client can handle.
pub open spec fn is_handled_event(e: GatewayEvent) -> bool {
    e matches GatewayEvent::Text(Some(m)) ==> !is_unhandled(m)
}

/// `user` is among the users a call is ringing.
pub open spec fn is_ringing(ringing: Seq<UserID>, user: User) -> bool {
    exists|i: int| 0 <= i < ringing.len() && ringing[i] == UserID(user.id)
}

/// The state after handling `m`.
pub open spec fn handled_state(s: ClientState, m: IncomingGatewayMessage) -> ClientState {
    match m.data {
        IncomingGatewayData::Hello(_) => ClientState { heartbeating: true, ..s },
        IncomingGatewayData::Dispatch(Event::Ready(ready)) => ClientState {
            user: Some(ready.user),
            session_id: Some(ready.session_id),
            ..s
        },
        _ => s,
    }
}

/// `a` is the activity the client shows while waiting: a custom status that says it
/// waits for a call, with a telephone emoji.
pub open spec fn is_waiting_activity(a: Activity) -> bool {
    &&& a.activity_type == ActivityType::Custom
    &&& a.name@ == custom_status_name()
    &&& a.url == None::<String>
    &&& a.state is Some && a.state.unwrap()@ == "Waiting for a call"@
    &&& a.emoji is Some && a.emoji.unwrap().name@ == "☎️"@
    &&& a.emoji.unwrap().id is None && a.emoji.unwrap().animated is None
}

/// `action` is the client's answer to `m` in state `s`.
pub open spec fn is_answer(s: ClientState, m: IncomingGatewayMessage, action: Option<ClientAction>) -> bool {
    match m.data {
        IncomingGatewayData::Hello(hello) => action == Some(
            ClientAction::StartHeartbeat(hello.heartbeat_interval),
        ),
        IncomingGatewayData::Heartbeat(_) => action == Some(
            ClientAction::Send(OutgoingGatewayData::HeartbeatAck),
        ),
        IncomingGatewayData::Dispatch(Event::Ready(_)) => match action {
            Some(ClientAction::Send(OutgoingGatewayData::PresenceUpdate { since, game, status, afk })) => {
                &&& since == Some(0u64)
                &&& status == Status::Online
                &&& !afk
                &&& game is Some && is_waiting_activity(game.unwrap())
            },
            _ => false,
        },
        IncomingGatewayData::Dispatch(Event::CallUpdate(call)) => match s.user {
            Some(user) => if is_ringing(call.ringing@, user) {
                action == Some(
                    ClientAction::Send(
                        OutgoingGatewayData::VoiceStateUpdate {
                            guild_id: call.guild_id,
                            channel_id: call.channel_id,
                            self_mute: false,
                            self_deaf: false,
                        },
                    ),
                )
            } else {
                action is None
            },
            None => action is None,
        },
        _ => action is None,
    }
}

/// The state after the event `e`.
pub open spec fn next_state(s: ClientState, e: GatewayEvent) -> ClientState {
    match e {
        GatewayEvent::Text(Some(m)) => {
            let s1 = match m.seq {
                Some(seq) => ClientState { last_seq: seq.0, ..s },
                None => s,
            };
            handled_state(s1, m)
        },
        _ => s,
    }
}

/// Whether the session goes on after the event `e`.
pub open spec fn flow_after(e: GatewayEvent) -> LoginFlow {
    match e {
        GatewayEvent::Close => LoginFlow::Done,
        GatewayEvent::StreamEnd => LoginFlow::Done,
        GatewayEvent::ReadError => LoginFlow::Failed,
        _ => LoginFlow::Continue,
    }
}

/// The state after a run of events, one after the other.
pub open spec fn run_events(s: ClientState, events: Seq<GatewayEvent>) -> ClientState
    decreases events.len(),
{
    if events.len() == 0 {
        s
    } else {
        run_events(next_state(s, events[0]), events.drop_first())
    }
}

/// The sequence number of the last event of `events` that carries one, or `last`
/// when none does.
pub open spec fn last_seq_seen(last: u64, events: Seq<GatewayEvent>) -> u64
    decreases events.len(),
{
    if events.len() == 0 {
        last
    } else {
        let first = match events[0] {
            GatewayEvent::Text(Some(m)) => match m.seq {
                Some(seq) => seq.0,
                None => last,
            },
            _ => last,
        };
        last_seq_seen(first, events.drop_first())
    }
}

impl ClientState {
    /// The state of a client that has not heard from the gateway yet.
    pub fn new() -> (s: Self)
        ensures
            s.last_seq == 0,
            !s.heartbeating,
            s.user is None,
            s.session_id is None,
    {
        ClientState { last_seq: 0, heartbeating: false, user: None, session_id: None }
    }

    /// Handles a message from the gateway: remembers what it tells, and says what to
    /// send back or start.
    pub fn handle_message(&mut self, message: IncomingGatewayMessage) -> (action: Option<ClientAction>)
        requires
            !is_unhandled(message),
        ensures
            *final(self) == handled_state(*old(self), message),
            is_answer(*old(self), message, action),
    {
        match message.data {
            IncomingGatewayData::Hello(hello) => {
                self.heartbeating = true;
                Some(ClientAction::StartHeartbeat(hello.heartbeat_interval))
            },
            IncomingGatewayData::Heartbeat(_) => Some(
                ClientAction::Send(OutgoingGatewayData::HeartbeatAck),
            ),
            IncomingGatewayData::HeartbeatAck => None,
            IncomingGatewayData::Dispatch(event) => match event {
                Event::Ready(data) => {
                    self.session_id = Some(data.session_id);
                    self.user = Some(data.user);
                    let game = Activity::custom("Waiting for a call", Emoji::named("☎️"));
                    proof {
                        reveal_strlit("Waiting for a call");
                        reveal_strlit("☎️");
                    }
                    Some(
                        ClientAction::Send(
                            OutgoingGatewayData::PresenceUpdate {
                                afk: false,
                                game: Some(game),
                                since: Some(0),
                                status: Status::Online,
                            },
                        ),
                    )
                },
                Event::CallUpdate(call) => {
                    match &self.user {
                        Some(user) => {
                            if rings(&call.ringing, user) {
                                Some(
                                    ClientAction::Send(
                                        OutgoingGatewayData::VoiceStateUpdate {
                                            channel_id: call.channel_id,
                                            guild_id: call.guild_id,
                                            self_deaf: false,
                                            self_mute: false,
                                        },
                                    ),
                                )
                            } else {
                                None
                            }
                        },
                        None => None,
                    }
                },
                Event::CallDelete(_) => None,
                Event::VoiceStateUpdate(_) => None,
                Event::Muted(_) => None,
                Event::Unknown(_, _) => None,
            },
            IncomingGatewayData::InvalidSession(_) => None,
            IncomingGatewayData::Reconnect => None,
            IncomingGatewayData::Unknown(_) => None,
        }
    }

    /// Takes in one event read from the gateway's stream.
    pub fn step(&mut self, event: GatewayEvent) -> (st: Step)
        requires
            is_handled_event(event),
        ensures
            *final(self) == next_state(*old(self), event),
            st.flow == flow_after(event),
            event is Text ==> st.flow == LoginFlow::Continue,
            st.flow == LoginFlow::Done <==> (event is Close || event is StreamEnd),
            st.flow == LoginFlow::Failed <==> event is ReadError,
            match event {
                GatewayEvent::Text(Some(m)) => is_answer(
                    match m.seq {
                        Some(seq) => ClientState { last_seq: seq.0, ..*old(self) },
                        None => *old(self),
                    },
                    m,
                    st.action,
                ),
                _ => st.action is None,
            },
    {
        match event {
            GatewayEvent::Text(Some(message)) => {
                if let Some(seq) = &message.seq {
                    self.last_seq = seq.0;
                }
                let action = self.handle_message(message);
                Step { action, flow: LoginFlow::Continue }
            },
            GatewayEvent::Text(None) => Step { action: None, flow: LoginFlow::Continue },
            GatewayEvent::Binary => Step { action: None, flow: LoginFlow::Continue },
            GatewayEvent::Ping => Step { action: None, flow: LoginFlow::Continue },
            GatewayEvent::Pong => Step { action: None, flow: LoginFlow::Continue },
            GatewayEvent::Close => Step { action: None, flow: LoginFlow::Done },
            GatewayEvent::ReadError => Step { action: None, flow: LoginFlow::Failed },
            GatewayEvent::StreamEnd => Step { action: None, flow: LoginFlow::Done },
        }
    }
}

/// `user` is among the users in `ringing`.
fn rings(ringing: &Vec<UserID>, user: &User) -> (r: bool)
    ensures
        r == is_ringing(ringing@, *user),
{
    let mut i: usize = 0;
    while i < ringing.len()
        invariant
            i <= ringing.len(),
            forall|j: int| 0 <= j < i ==> ringing@[j] != UserID(user.id),
        decreases ringing.len() - i,
    {
        if ringing[i].0.0 == user.id.0 {
            return true;
        }
        i = i + 1;
    }
    false
}

/// Over any run of events, the client remembers the sequence number of the last
/// message that carried one; the heartbeat then carries that number.
pub proof fn lemma_run_tracks_last_seq(s: ClientState, events: Seq<GatewayEvent>)
    ensures
        run_events(s, events).last_seq == last_seq_seen(s.last_seq, events),
    decreases events.len(),
{
    if events.len() > 0 {
        let s1 = next_state(s, events[0]);
        lemma_run_tracks_last_seq(s1, events.drop_first());
    }
}

/// Only the end of the stream stops a login: every text frame, parsed or not, and every
/// binary, ping or pong frame lets it go on; a close frame or the end of the stream
/// ends it without error, and only a failed read ends it with one.
pub proof fn lemma_login_flow(e: GatewayEvent)
    ensures
        e is Text ==> flow_after(e) == LoginFlow::Continue,
        (e is Binary || e is Ping || e is Pong) ==> flow_after(e) == LoginFlow::Continue,
        flow_after(e) == LoginFlow::Done <==> (e is Close || e is StreamEnd),
        flow_after(e) == LoginFlow::Failed <==> e is ReadError,
{
}

/// A heartbeat carries the last sequence number received, whatever it is, and carries
/// none only before any was received.
pub proof fn lemma_heartbeat_carries_sequence(last_seq: u64)
    ensures
        last_seq != 0 ==> heartbeat_spec(last_seq) == Some(last_seq),
        heartbeat_spec(last_seq) is None <==> last_seq == 0,
        heartbeat_spec(last_seq) matches Some(n) ==> n == last_seq,
{
}

/// Once a heartbeat has been started the client never forgets it, whatever follows.
pub proof fn lemma_heartbeating_persists(s: ClientState, events: Seq<GatewayEvent>)
    requires
        s.heartbeating,
    ensures
        run_events(s, events).heartbeating,
    decreases events.len(),
{
    if events.len() > 0 {
        lemma_heartbeating_persists(next_state(s, events[0]), events.drop_first());
    }
}

/// Once the session is ready the client keeps knowing a user and a session id.
pub proof fn lemma_ready_persists(s: ClientState, events: Seq<GatewayEvent>)
    requires
        s.user is Some,
        s.session_id is Some,
    ensures
        run_events(s, events).user is Some,
        run_events(s, events).session_id is Some,
    decreases events.len(),
{
    if events.len() > 0 {
        lemma_ready_persists(next_state(s, events[0]), events.drop_first());
    }
}

} // verus!
