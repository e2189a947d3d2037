//! The transport between two paired hosts: the wire messages, the two roles
//! and their handles, the handshake, and the heartbeat that keeps a link alive.

use vstd::prelude::*;
use crate::config::ConnectionConfig;
use crate::config::SecurityConfig;
use crate::input::event_views;
use crate::input::spec_capture;
use crate::input::InputManager;
use crate::input::MouseEvent;
use crate::input::MouseEventView;
use crate::input::MouseSample;
use crate::BridgeError;

verus! {

/// Milliseconds between two device readings of a running server.
pub const SERVER_TICK_MS: u64 = 16;

/// Milliseconds between two idle checks of a connected client.
pub const CLIENT_TICK_MS: u64 = 100;

/// One message on the wire between two hosts.
#[derive(Debug, PartialEq, Eq)]
pub enum NetworkMessage {
    MouseEvent(MouseEvent),
    ConnectionRequest { fingerprint: String },
    ConnectionResponse { accepted: bool, fingerprint: String },
    Heartbeat,
}

/// What a message says, with its texts as sequences of characters.
pub enum NetworkMessageView {
    MouseEvent(MouseEventView),
    ConnectionRequest { fingerprint: Seq<char> },
    ConnectionResponse { accepted: bool, fingerprint: Seq<char> },
    Heartbeat,
}

impl View for NetworkMessage {
    type V = NetworkMessageView;

    open spec fn view(&self) -> NetworkMessageView {
        match *self {
            NetworkMessage::MouseEvent(event) => NetworkMessageView::MouseEvent(event@),
            NetworkMessage::ConnectionRequest { fingerprint } => {
                NetworkMessageView::ConnectionRequest { fingerprint: fingerprint@ }
            },
            NetworkMessage::ConnectionResponse { accepted, fingerprint } => {
                NetworkMessageView::ConnectionResponse { accepted, fingerprint: fingerprint@ }
            },
            NetworkMessage::Heartbeat => NetworkMessageView::Heartbeat,
        }
    }
}

impl Clone for NetworkMessage {
    fn clone(&self) -> (res: Self)
        ensures
            res@ == self@,
    {
        match self {
            NetworkMessage::MouseEvent(event) => NetworkMessage::MouseEvent(event.clone()),
            NetworkMessage::ConnectionRequest { fingerprint } => {
                NetworkMessage::ConnectionRequest { fingerprint: fingerprint.clone() }
            },
            NetworkMessage::ConnectionResponse { accepted, fingerprint } => {
                NetworkMessage::ConnectionResponse {
                    accepted: *accepted,
                    fingerprint: fingerprint.clone(),
                }
            },
            NetworkMessage::Heartbeat => NetworkMessage::Heartbeat,
        }
    }
}

/// What each message of a sequence says, in the same order.
pub open spec fn message_views(messages: Seq<NetworkMessage>) -> Seq<NetworkMessageView> {
    messages.map_values(|m: NetworkMessage| m@)
}

/// The messages that carry the given events: one message for each event, in
/// the order of the events, none merged and none left out.
pub open spec fn spec_frame_events(events: Seq<MouseEventView>) -> Seq<NetworkMessageView> {
    events.map_values(|e: MouseEventView| NetworkMessageView::MouseEvent(e))
}

/// Wraps captured events for the wire, keeping their order.
pub fn frame_events(events: Vec<MouseEvent>) -> (messages: Vec<NetworkMessage>)
    ensures
        message_views(messages@) == spec_frame_events(event_views(events@)),
{
    let mut messages: Vec<NetworkMessage> = Vec::new();
    let n = events.len();
    let mut i: usize = 0;
    while i < n
        invariant
            i <= n,
            n == events@.len(),
            message_views(messages@) == spec_frame_events(event_views(events@.take(i as int))),
        decreases n - i,
    {
        let ghost before = messages@;
        let ghost seen = events@.take(i as int);
        messages.push(NetworkMessage::MouseEvent(events[i].clone()));
        proof {
            let event = events@[i as int];
            assert(events@.take(i + 1) == seen.push(event));
            assert(event_views(seen.push(event)) == event_views(seen).push(event@));
            assert(spec_frame_events(event_views(seen).push(event@)) == spec_frame_events(
                event_views(seen),
            ).push(NetworkMessageView::MouseEvent(event@)));
            assert(message_views(messages@) == message_views(before).push(
                NetworkMessageView::MouseEvent(event@),
            ));
        }
        i = i + 1;
    }
    assert(events@.take(n as int) == events@);
    messages
}

/// What the session hands to the runtime that owns the background tasks.
#[derive(Debug, PartialEq, Eq)]
pub enum TransportCommand {
    /// Start the capture task of this server.
    SpawnServer { server: Server },
    /// Start the receive task of this client.
    SpawnClient { client: Client },
    /// Signal the running capture task to stop.
    StopServer,
    /// Signal the running receive task to stop.
    StopClient,
}

/// The capability to stop a running server, good for one request.
#[derive(Debug, PartialEq, Eq)]
pub struct ServerHandle {
    pub port: u16,
}

/// The capability to stop a running client, good for one request.
#[derive(Debug, PartialEq, Eq)]
pub struct ClientHandle {
    pub port: u16,
}

impl ServerHandle {
    /// Uses the handle up and yields the stop signal for the capture task.
    pub fn stop(self) -> (command: TransportCommand)
        ensures
            command == TransportCommand::StopServer,
    {
        TransportCommand::StopServer
    }
}

impl ClientHandle {
    /// Uses the handle up and yields the stop signal for the receive task.
    pub fn disconnect(self) -> (command: TransportCommand)
        ensures
            command == TransportCommand::StopClient,
    {
        TransportCommand::StopClient
    }
}

/// The server role: reads the local device and sends what changed.
#[derive(Debug, PartialEq, Eq)]
pub struct Server {
    pub config: ConnectionConfig,
}

impl Server {
    /// A server for `config`.
    pub fn new(config: ConnectionConfig) -> (server: Self)
        ensures
            server == (Server { config }),
    {
        Server { config }
    }

    /// The handle of the server's capture task.
    pub fn start(&self) -> (handle: ServerHandle)
        ensures
            handle == (ServerHandle { port: self.config.port }),
    {
        ServerHandle { port: self.config.port }
    }

    /// One round of the capture task: takes the device reading of the tick and
    /// yields the messages to send, one for each event since the last reading.
    pub fn tick(&self, input_manager: &mut InputManager, sample: MouseSample) -> (messages: Vec<
        NetworkMessage,
    >)
        ensures
            message_views(messages@) == spec_frame_events(
                spec_capture(
                    sample.coords,
                    sample.button_pressed@,
                    old(input_manager).last_mouse_state.coords,
                    old(input_manager).last_mouse_state.button_pressed@,
                ),
            ),
            final(input_manager).last_mouse_state == sample,
            final(input_manager).config == old(input_manager).config,
            final(input_manager).gesture_tracker == old(input_manager).gesture_tracker,
    {
        let events = input_manager.capture_mouse_events(sample);
        frame_events(events)
    }
}

/// Where a received message goes.
#[derive(Debug, PartialEq, Eq)]
pub enum Dispatch {
    /// A pointer event, to be replayed on the local device.
    Inject(MouseEvent),
    /// A control message, to be handled by the session.
    Control(NetworkMessage),
}

/// The client role: receives what the server sends and replays it.
#[derive(Debug, PartialEq, Eq)]
pub struct Client {
    pub config: ConnectionConfig,
}

impl Client {
    /// A client for `config`.
    pub fn new(config: ConnectionConfig) -> (client: Self)
        ensures
            client == (Client { config }),
    {
        Client { config }
    }

    /// The handle of the client's receive task.
    pub fn connect(&self) -> (handle: ClientHandle)
        ensures
            handle == (ClientHandle { port: self.config.port }),
    {
        ClientHandle { port: self.config.port }
    }

    /// Routes a received message.
    pub fn dispatch(&self, message: NetworkMessage) -> (target: Dispatch)
        ensures
            match target {
                Dispatch::Inject(event) => message == NetworkMessage::MouseEvent(event),
                Dispatch::Control(control) => control == message && !(message
                    is MouseEvent),
            },
    {
        match message {
            NetworkMessage::MouseEvent(event) => Dispatch::Inject(event),
            other => Dispatch::Control(other),
        }
    }
}

/// The names of the network interfaces that a host is taken to have.
pub fn get_available_interfaces() -> (names: Vec<String>)
    ensures
        names@.len() == 2,
        names@[0]@ == "eth0"@,
        names@[1]@ == "wlan0"@,
{
    let mut names: Vec<String> = Vec::new();
    names.push("eth0".to_string());
    names.push("wlan0".to_string());
    names
}

/// What a server does with a connection request.
#[derive(Debug, Clone, Copy, PartialEq, Eq, Structural)]
pub enum HandshakeDecision {
    /// Accept without asking the user.
    Accept,
    /// Ask the user, and answer as the user decides.
    Prompt,
    /// Decline.
    Reject,
}

/// Whether `peer` is one of the trusted devices.
pub open spec fn spec_is_trusted(devices: Seq<String>, peer: Seq<char>) -> bool {
    exists|i: int| 0 <= i < devices.len() && (#[trigger] devices[i])@ == peer
}

/// Whether a request that expects the fingerprint `requested` is meant for the
/// server with the fingerprint `own`. A request that expects none is meant for
/// any server.
pub open spec fn spec_fingerprint_matches(own: Seq<char>, requested: Seq<char>) -> bool {
    requested.len() == 0 || requested == own
}

/// What a server does with a request: it declines one that expects another
/// server; it accepts one from a trusted device, or any when it accepts
/// automatically; otherwise it asks.
pub open spec fn spec_decide_request(
    auto_accept: bool,
    devices: Seq<String>,
    own: Seq<char>,
    requested: Seq<char>,
    peer: Seq<char>,
) -> HandshakeDecision {
    if !spec_fingerprint_matches(own, requested) {
        HandshakeDecision::Reject
    } else if auto_accept || spec_is_trusted(devices, peer) {
        HandshakeDecision::Accept
    } else {
        HandshakeDecision::Prompt
    }
}

/// Whether `peer` is on the allow-list of `security`.
pub fn is_trusted_device(security: &SecurityConfig, peer: &String) -> (trusted: bool)
    ensures
        trusted == spec_is_trusted(security.trusted_devices@, peer@),
{
    let n = security.trusted_devices.len();
    let mut i: usize = 0;
    while i < n
        invariant
            i <= n,
            n == security.trusted_devices@.len(),
            forall|j: int| 0 <= j < i ==> (#[trigger] security.trusted_devices@[j])@ != peer@,
        decreases n - i,
    {
        if security.trusted_devices[i] == *peer {
            return true;
        }
        i = i + 1;
    }
    false
}

/// Decides what the server with the fingerprint `own_fingerprint` does with a
/// request from `peer` that expects the fingerprint `requested`.
pub fn decide_request(
    security: &SecurityConfig,
    own_fingerprint: &String,
    requested: &String,
    peer: &String,
) -> (decision: HandshakeDecision)
    ensures
        decision == spec_decide_request(
            security.auto_accept_connections,
            security.trusted_devices@,
            own_fingerprint@,
            requested@,
            peer@,
        ),
{
    if !(requested.as_str().is_empty() || *requested == *own_fingerprint) {
        HandshakeDecision::Reject
    } else if security.auto_accept_connections || is_trusted_device(security, peer) {
        HandshakeDecision::Accept
    } else {
        HandshakeDecision::Prompt
    }
}

/// The request with which a client opens the handshake. An empty fingerprint
/// asks for any server.
pub fn connection_request(expected_fingerprint: String) -> (message: NetworkMessage)
    ensures
        message == (NetworkMessage::ConnectionRequest { fingerprint: expected_fingerprint }),
{
    NetworkMessage::ConnectionRequest { fingerprint: expected_fingerprint }
}

/// The server's answer to a request, carrying the server's own fingerprint.
pub fn connection_response(accepted: bool, own_fingerprint: &String) -> (message: NetworkMessage)
    ensures
        message == (NetworkMessage::ConnectionResponse {
            accepted,
            fingerprint: *own_fingerprint,
        }),
{
    NetworkMessage::ConnectionResponse { accepted, fingerprint: own_fingerprint.clone() }
}

/// The condition of a client's link to its server.
#[derive(Debug, Clone, Copy, PartialEq, Eq, Structural)]
pub enum LinkState {
    /// The request is out and the answer is awaited.
    Connecting,
    /// The server has accepted; heartbeats keep the link alive.
    Established,
    /// The server has declined.
    Rejected,
    /// The server stayed silent for the whole timeout.
    Lost,
}

/// A client's link to its server: its condition, when the server was last
/// heard, and how long it may stay silent. Times are in milliseconds.
#[derive(Debug, Clone, Copy, PartialEq, Eq, Structural)]
pub struct PeerLink {
    pub state: LinkState,
    pub last_heard_ms: u64,
    pub timeout_ms: u64,
}

impl PeerLink {
    /// Whether the link still waits on the server.
    pub open spec fn spec_is_waiting(self) -> bool {
        self.state == LinkState::Connecting || self.state == LinkState::Established
    }

    /// How long the server has been silent at `now_ms`.
    pub open spec fn spec_silence(self, now_ms: u64) -> int {
        if now_ms >= self.last_heard_ms {
            now_ms - self.last_heard_ms
        } else {
            0
        }
    }

    /// The link after a message that arrived at `now_ms`: an answer settles a
    /// pending request, a heartbeat renews an established link, and nothing
    /// else changes anything.
    pub open spec fn spec_after_message(self, message: NetworkMessageView, now_ms: u64)
        -> PeerLink {
        match (self.state, message) {
            (LinkState::Connecting, NetworkMessageView::ConnectionResponse { accepted, .. }) => {
                if accepted {
                    PeerLink { state: LinkState::Established, last_heard_ms: now_ms, ..self }
                } else {
                    PeerLink { state: LinkState::Rejected, ..self }
                }
            },
            (LinkState::Established, NetworkMessageView::Heartbeat) => PeerLink {
                last_heard_ms: now_ms,
                ..self
            },
            _ => self,
        }
    }

    /// The link after a check at `now_ms`: a link that waits on its server is
    /// lost once the silence has lasted the whole timeout, and not before.
    pub open spec fn spec_after_tick(self, now_ms: u64) -> PeerLink {
        if self.spec_is_waiting() && self.spec_silence(now_ms) >= self.timeout_ms {
            PeerLink { state: LinkState::Lost, ..self }
        } else {
            self
        }
    }

    /// The link after checks at each of `times`, in order, with no message in
    /// between.
    pub open spec fn spec_after_ticks(self, times: Seq<u64>) -> PeerLink
        decreases times.len(),
    {
        if times.len() == 0 {
            self
        } else {
            self.spec_after_ticks(times.drop_last()).spec_after_tick(times.last())
        }
    }

    /// A link whose request went out at `now_ms`.
    pub fn open(now_ms: u64, timeout_ms: u64) -> (link: Self)
        ensures
            link == (PeerLink { state: LinkState::Connecting, last_heard_ms: now_ms, timeout_ms }),
    {
        PeerLink { state: LinkState::Connecting, last_heard_ms: now_ms, timeout_ms }
    }

    /// Takes a message that arrived at `now_ms`.
    pub fn on_message(&mut self, message: &NetworkMessage, now_ms: u64)
        ensures
            *final(self) == old(self).spec_after_message(message@, now_ms),
    {
        match self.state {
            LinkState::Connecting => {
                match message {
                    NetworkMessage::ConnectionResponse { accepted, .. } => {
                        if *accepted {
                            self.state = LinkState::Established;
                            self.last_heard_ms = now_ms;
                        } else {
                            self.state = LinkState::Rejected;
                        }
                    },
                    _ => {},
                }
            },
            LinkState::Established => {
                match message {
                    NetworkMessage::Heartbeat => {
                        self.last_heard_ms = now_ms;
                    },
                    _ => {},
                }
            },
            _ => {},
        }
    }

    /// Checks the link at `now_ms`.
    pub fn on_tick(&mut self, now_ms: u64)
        ensures
            *final(self) == old(self).spec_after_tick(now_ms),
    {
        let waiting = match self.state {
            LinkState::Connecting => true,
            LinkState::Established => true,
            _ => false,
        };
        if waiting {
            let silence: u64 = if now_ms >= self.last_heard_ms {
                now_ms - self.last_heard_ms
            } else {
                0
            };
            if silence >= self.timeout_ms {
                self.state = LinkState::Lost;
            }
        }
    }

    /// The error that the link's condition amounts to, if any.
    pub fn error(&self) -> (error: Option<BridgeError>)
        ensures
            error == match self.state {
                LinkState::Rejected => Some(BridgeError::HandshakeRejected),
                LinkState::Lost => Some(BridgeError::ConnectionLost),
                _ => None::<BridgeError>,
            },
    {
        match self.state {
            LinkState::Rejected => Some(BridgeError::HandshakeRejected),
            LinkState::Lost => Some(BridgeError::ConnectionLost),
            _ => None,
        }
    }
}

/// A link that is rejected or lost stays so: no message and no check brings
/// it back.
pub proof fn lemma_down_is_final(link: PeerLink, message: NetworkMessageView, now_ms: u64)
    requires
        !link.spec_is_waiting(),
    ensures
        link.spec_after_message(message, now_ms) == link,
        link.spec_after_tick(now_ms) == link,
{
}

/// While every check comes before the silence has lasted the timeout, a link
/// that waits on its server stays as it is: it is never lost early.
pub proof fn lemma_not_lost_before_timeout(link: PeerLink, times: Seq<u64>)
    requires
        link.spec_is_waiting(),
        forall|i: int| 0 <= i < times.len() ==> link.spec_silence(#[trigger] times[i])
            < link.timeout_ms,
    ensures
        link.spec_after_ticks(times) == link,
    decreases times.len(),
{
    if times.len() > 0 {
        lemma_not_lost_before_timeout(link, times.drop_last());
    }
}

/// Once a check finds that the silence has lasted the timeout, a link that
/// waited on its server is lost, and it stays lost whatever checks follow.
pub proof fn lemma_lost_after_timeout(link: PeerLink, times: Seq<u64>, late: int)
    requires
        link.spec_is_waiting(),
        0 <= late < times.len(),
        link.spec_silence(times[late]) >= link.timeout_ms,
    ensures
        link.spec_after_ticks(times) == (PeerLink { state: LinkState::Lost, ..link }),
    decreases times.len(),
{
    let rest = times.drop_last();
    if late < rest.len() {
        lemma_lost_after_timeout(link, rest, late);
    } else {
        lemma_ticks_keep_times(link, rest);
    }
}

/// Checks change nothing of a link but its condition, and a link that waited
/// either still has the condition it had or is lost.
pub proof fn lemma_ticks_keep_times(link: PeerLink, times: Seq<u64>)
    ensures
        link.spec_after_ticks(times).last_heard_ms == link.last_heard_ms,
        link.spec_after_ticks(times).timeout_ms == link.timeout_ms,
        link.spec_after_ticks(times).state == link.state || (link.spec_is_waiting()
            && link.spec_after_ticks(times).state == LinkState::Lost),
    decreases times.len(),
{
    if times.len() > 0 {
        lemma_ticks_keep_times(link, times.drop_last());
    }
}

} // verus!
