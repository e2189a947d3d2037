//! The session of one host: whether it serves, is a client, or is
//! disconnected, and the transitions between these roles.

use vstd::prelude::*;
use crate::config::ConnectionConfig;
use crate::network::Client;
use crate::network::ClientHandle;
use crate::network::LinkState;
use crate::network::PeerLink;
use crate::network::Server;
use crate::network::ServerHandle;
use crate::network::TransportCommand;
use crate::text::decimal;
use crate::text::spec_decimal;
use crate::text::spec_optional_text;
use crate::BridgeError;
use crate::ConnectionStatus;

verus! {

/// The role of a host in a session.
#[derive(Debug, Clone, Copy, PartialEq, Eq, Structural)]
pub enum BridgeMode {
    Server,
    Client,
    Disconnected,
}

impl BridgeMode {
    /// The name under which a mode is reported.
    pub open spec fn spec_label(self) -> Seq<char> {
        match self {
            BridgeMode::Server => "Server"@,
            BridgeMode::Client => "Client"@,
            BridgeMode::Disconnected => "Disconnected"@,
        }
    }

    /// The name under which a mode is reported.
    pub fn label(self) -> (name: String)
        ensures
            name@ == self.spec_label(),
    {
        match self {
            BridgeMode::Server => "Server".to_string(),
            BridgeMode::Client => "Client".to_string(),
            BridgeMode::Disconnected => "Disconnected".to_string(),
        }
    }
}

/// The identity of a running server. It is made when the server starts and
/// forgotten when it stops.
#[derive(Debug, PartialEq, Eq)]
pub struct ServerInfo {
    pub hostname: String,
    pub ip: String,
    pub port: u16,
    pub fingerprint: String,
}

impl Clone for ServerInfo {
    fn clone(&self) -> (res: Self)
        ensures
            res == *self,
    {
        ServerInfo {
            hostname: self.hostname.clone(),
            ip: self.ip.clone(),
            port: self.port,
            fingerprint: self.fingerprint.clone(),
        }
    }
}

/// Everything that a session holds at one instant.
pub struct SessionState {
    pub mode: BridgeMode,
    pub server: Option<ServerHandle>,
    pub client: Option<ClientHandle>,
    pub config: ConnectionConfig,
    pub server_info: Option<ServerInfo>,
}

impl SessionState {
    /// A handle of a role is held exactly while the session is in that role,
    /// and a server's identity exactly while the session serves.
    pub open spec fn wf(self) -> bool {
        &&& self.server is Some <==> self.mode == BridgeMode::Server
        &&& self.client is Some <==> self.mode == BridgeMode::Client
        &&& self.server_info is Some <==> self.mode == BridgeMode::Server
    }

    /// Whether the session holds a handle of either role.
    pub open spec fn has_handle(self) -> bool {
        self.server is Some || self.client is Some
    }

    /// The number of background tasks that the session keeps alive.
    pub open spec fn live_tasks(self) -> nat {
        (if self.server is Some {
            1nat
        } else {
            0nat
        }) + (if self.client is Some {
            1nat
        } else {
            0nat
        })
    }

    /// The commands that stop whatever role the session is in.
    pub open spec fn spec_teardown_commands(self) -> Seq<TransportCommand> {
        match self.mode {
            BridgeMode::Server => seq![TransportCommand::StopServer],
            BridgeMode::Client => seq![TransportCommand::StopClient],
            BridgeMode::Disconnected => Seq::empty(),
        }
    }

    /// The session after a request to serve with `config` under the identity
    /// `info`: a session that serves already stays as it is; any other becomes
    /// a server with that configuration and identity.
    pub open spec fn spec_start_server(self, config: ConnectionConfig, info: ServerInfo)
        -> SessionState {
        if self.mode == BridgeMode::Server {
            self
        } else {
            SessionState {
                mode: BridgeMode::Server,
                server: Some(ServerHandle { port: config.port }),
                client: None,
                config,
                server_info: Some(info),
            }
        }
    }

    /// What a request to serve asks of the runtime: nothing of a session that
    /// serves already; otherwise first the teardown of the client role, if it
    /// is on, and then the start of the capture task.
    pub open spec fn spec_start_server_commands(self, config: ConnectionConfig) -> Seq<
        TransportCommand,
    > {
        if self.mode == BridgeMode::Server {
            Seq::empty()
        } else {
            self.spec_teardown_commands().push(
                TransportCommand::SpawnServer { server: Server { config } },
            )
        }
    }

    /// The session after a request to stop serving: a server becomes
    /// disconnected and forgets its identity; any other session stays as it is.
    pub open spec fn spec_stop_server(self) -> SessionState {
        if self.mode == BridgeMode::Server {
            SessionState {
                mode: BridgeMode::Disconnected,
                server: None,
                server_info: None,
                ..self
            }
        } else {
            self
        }
    }

    /// What a request to stop serving asks of the runtime.
    pub open spec fn spec_stop_server_commands(self) -> Seq<TransportCommand> {
        if self.mode == BridgeMode::Server {
            seq![TransportCommand::StopServer]
        } else {
            Seq::empty()
        }
    }

    /// The session after a request to connect with `config`: a client stays as
    /// it is; any other session becomes a client with that configuration.
    pub open spec fn spec_connect_client(self, config: ConnectionConfig) -> SessionState {
        if self.mode == BridgeMode::Client {
            self
        } else {
            SessionState {
                mode: BridgeMode::Client,
                server: None,
                client: Some(ClientHandle { port: config.port }),
                config,
                server_info: None,
            }
        }
    }

    /// What a request to connect asks of the runtime: nothing of a client;
    /// otherwise first the teardown of the server role, if it is on, and then
    /// the start of the receive task.
    pub open spec fn spec_connect_client_commands(self, config: ConnectionConfig) -> Seq<
        TransportCommand,
    > {
        if self.mode == BridgeMode::Client {
            Seq::empty()
        } else {
            self.spec_teardown_commands().push(
                TransportCommand::SpawnClient { client: Client { config } },
            )
        }
    }

    /// The session after a request to disconnect: a client becomes
    /// disconnected; any other session stays as it is.
    pub open spec fn spec_disconnect_client(self) -> SessionState {
        if self.mode == BridgeMode::Client {
            SessionState { mode: BridgeMode::Disconnected, client: None, ..self }
        } else {
            self
        }
    }

    /// What a request to disconnect asks of the runtime.
    pub open spec fn spec_disconnect_client_commands(self) -> Seq<TransportCommand> {
        if self.mode == BridgeMode::Client {
            seq![TransportCommand::StopClient]
        } else {
            Seq::empty()
        }
    }

    /// Whether a link in the given condition ends the client role.
    pub open spec fn spec_link_is_down(link: LinkState) -> bool {
        link == LinkState::Lost || link == LinkState::Rejected
    }

    /// The session after it has seen the condition of its link: a client whose
    /// link is lost or rejected becomes disconnected; nothing else changes.
    pub open spec fn spec_observe_link(self, link: LinkState) -> SessionState {
        if Self::spec_link_is_down(link) {
            self.spec_disconnect_client()
        } else {
            self
        }
    }

    /// The address of the server that a client is connected to: the host and
    /// the port of its configuration, with a colon between them.
    pub open spec fn spec_remote_address(self) -> Option<Seq<char>> {
        if self.mode == BridgeMode::Client {
            Some(self.config.host@ + seq![':'] + spec_decimal(self.config.port as nat))
        } else {
            None
        }
    }
}

/// A session that is well formed keeps at most one background task alive, and
/// holds a handle exactly when it is not disconnected.
pub proof fn lemma_at_most_one_task(state: SessionState)
    requires
        state.wf(),
    ensures
        state.live_tasks() <= 1,
        state.has_handle() <==> state.mode != BridgeMode::Disconnected,
{
}

/// Every transition leads from a well-formed session to a well-formed one.
pub proof fn lemma_transitions_keep_wf(
    state: SessionState,
    config: ConnectionConfig,
    info: ServerInfo,
    link: LinkState,
)
    requires
        state.wf(),
    ensures
        state.spec_start_server(config, info).wf(),
        state.spec_stop_server().wf(),
        state.spec_connect_client(config).wf(),
        state.spec_disconnect_client().wf(),
        state.spec_observe_link(link).wf(),
{
}

/// Asking a session to serve twice is the same as asking once: after the
/// first request the session serves, the second request changes nothing and
/// asks nothing of the runtime, and one task is alive.
pub proof fn lemma_start_server_idempotent(
    state: SessionState,
    config: ConnectionConfig,
    first: ServerInfo,
    second: ServerInfo,
)
    requires
        state.wf(),
    ensures
        state.spec_start_server(config, first).mode == BridgeMode::Server,
        state.spec_start_server(config, first).spec_start_server(config, second)
            == state.spec_start_server(config, first),
        state.spec_start_server(config, first).spec_start_server_commands(config) == Seq::<
            TransportCommand,
        >::empty(),
        state.spec_start_server(config, first).live_tasks() == 1,
{
}

/// Asking a session to connect twice is the same as asking once.
pub proof fn lemma_connect_client_idempotent(state: SessionState, config: ConnectionConfig)
    requires
        state.wf(),
    ensures
        state.spec_connect_client(config).mode == BridgeMode::Client,
        state.spec_connect_client(config).spec_connect_client(config)
            == state.spec_connect_client(config),
        state.spec_connect_client(config).spec_connect_client_commands(config) == Seq::<
            TransportCommand,
        >::empty(),
        state.spec_connect_client(config).live_tasks() == 1,
{
}

/// Stopping a server, or disconnecting a client, a second time changes
/// nothing and asks nothing of the runtime.
pub proof fn lemma_stop_is_idempotent(state: SessionState)
    requires
        state.wf(),
    ensures
        state.spec_stop_server().spec_stop_server() == state.spec_stop_server(),
        state.spec_stop_server().spec_stop_server_commands() == Seq::<TransportCommand>::empty(),
        state.spec_disconnect_client().spec_disconnect_client() == state.spec_disconnect_client(),
        state.spec_disconnect_client().spec_disconnect_client_commands() == Seq::<
            TransportCommand,
        >::empty(),
{
}

/// `hostname::get`: the host's name as the system reports it, with bytes that
/// are no text replaced, and empty where the system reports none. Nothing is
/// claimed of the name.
#[verifier::external_body]
fn system_hostname() -> (name: String) {
    hostname::get().unwrap_or_default().to_string_lossy().to_string()
}

/// `local_ipaddress::get`: the address of the interface that leads outwards,
/// if the system can tell. Nothing is claimed of the address.
#[verifier::external_body]
fn local_ip() -> (ip: Option<String>) {
    local_ipaddress::get()
}

/// `uuid::Uuid::new_v4`, written as text: a random identifier in the
/// hyphenated form, which is 36 characters long.
#[verifier::external_body]
fn random_fingerprint() -> (fingerprint: String)
    ensures
        fingerprint@.len() == 36,
{
    uuid::Uuid::new_v4().to_string()
}

/// The address to advertise when the system tells none.
pub open spec fn spec_fallback_ip() -> Seq<char> {
    "127.0.0.1"@
}

/// The identity of a server on `port`, made of what the system told and a
/// fingerprint. The address is the loopback address where the system told
/// none.
pub fn identity_from(hostname: String, ip: Option<String>, port: u16, fingerprint: String) -> (info:
    ServerInfo)
    ensures
        info.hostname == hostname,
        info.ip@ == (match ip {
            Some(told) => told@,
            None => spec_fallback_ip(),
        }),
        info.port == port,
        info.fingerprint == fingerprint,
{
    let ip = match ip {
        Some(told) => told,
        None => "127.0.0.1".to_string(),
    };
    ServerInfo { hostname, ip, port, fingerprint }
}

/// The identity under which a server that starts now on `port` is known: the
/// host's name and address as far as the system tells them, and a fingerprint
/// that is made anew each time.
pub fn fresh_identity(port: u16) -> (info: ServerInfo)
    ensures
        info.port == port,
        info.fingerprint@.len() == 36,
{
    identity_from(system_hostname(), local_ip(), port, random_fingerprint())
}

/// The session controller of one host.
#[derive(Debug)]
pub struct MouseBridgeService {
    mode: BridgeMode,
    server: Option<ServerHandle>,
    client: Option<ClientHandle>,
    config: ConnectionConfig,
    server_info: Option<ServerInfo>,
}

impl View for MouseBridgeService {
    type V = SessionState;

    closed spec fn view(&self) -> SessionState {
        SessionState {
            mode: self.mode,
            server: self.server,
            client: self.client,
            config: self.config,
            server_info: self.server_info,
        }
    }
}

impl MouseBridgeService {
    /// A disconnected session with the default configuration.
    pub fn new() -> (service: Self)
        ensures
            service@.wf(),
            service@.mode == BridgeMode::Disconnected,
            service@.server is None,
            service@.client is None,
            service@.server_info is None,
            service@.config.spec_is_default(),
    {
        MouseBridgeService {
            mode: BridgeMode::Disconnected,
            server: None,
            client: None,
            config: ConnectionConfig::default(),
            server_info: None,
        }
    }

    /// The role the session is in.
    pub fn mode(&self) -> (mode: BridgeMode)
        ensures
            mode == self@.mode,
    {
        self.mode
    }

    /// Whether the session holds the handle of a running server.
    pub fn has_server_handle(&self) -> (held: bool)
        ensures
            held == (self@.server is Some),
    {
        self.server.is_some()
    }

    /// Whether the session holds the handle of a running client.
    pub fn has_client_handle(&self) -> (held: bool)
        ensures
            held == (self@.client is Some),
    {
        self.client.is_some()
    }

    /// The configuration of the session: that of the role it last took on.
    pub fn config(&self) -> (config: &ConnectionConfig)
        ensures
            *config == self@.config,
    {
        &self.config
    }

    /// Stops whatever role is on, using up its handle, and adds the stop
    /// signal to `commands`.
    fn teardown(&mut self, commands: &mut Vec<TransportCommand>)
        requires
            old(self)@.wf(),
        ensures
            final(commands)@ == old(commands)@ + old(self)@.spec_teardown_commands(),
            final(self)@ == old(self)@.spec_stop_server().spec_disconnect_client(),
    {
        match self.server.take() {
            Some(handle) => {
                commands.push(handle.stop());
                self.mode = BridgeMode::Disconnected;
                self.server_info = None;
            },
            None => {},
        }
        match self.client.take() {
            Some(handle) => {
                commands.push(handle.disconnect());
                self.mode = BridgeMode::Disconnected;
            },
            None => {},
        }
    }

    /// Makes the session a server with `config` under the identity `info`.
    /// Yields what the runtime has to do for it, in order.
    pub fn start_server_as(&mut self, config: ConnectionConfig, info: ServerInfo) -> (commands:
        Vec<TransportCommand>)
        requires
            old(self)@.wf(),
        ensures
            final(self)@ == old(self)@.spec_start_server(config, info),
            commands@ == old(self)@.spec_start_server_commands(config),
            final(self)@.wf(),
            final(self)@.mode == BridgeMode::Server,
    {
        let mut commands: Vec<TransportCommand> = Vec::new();
        match self.mode {
            BridgeMode::Server => {
                return commands;
            },
            _ => {},
        }
        self.teardown(&mut commands);
        let server = Server::new(config.clone());
        let handle = server.start();
        commands.push(TransportCommand::SpawnServer { server });
        self.mode = BridgeMode::Server;
        self.config = config;
        self.server = Some(handle);
        self.server_info = Some(info);
        commands
    }

    /// Makes the session a server with `config`, under an identity made for
    /// the occasion. A session that serves already stays as it is.
    pub fn start_server(&mut self, config: ConnectionConfig) -> (commands: Vec<TransportCommand>)
        requires
            old(self)@.wf(),
        ensures
            old(self)@.mode == BridgeMode::Server ==> final(self)@ == old(self)@,
            old(self)@.mode != BridgeMode::Server ==> exists|info: ServerInfo|
                info.port == config.port && info.fingerprint@.len() == 36 && final(self)@ == (
                #[trigger] old(self)@.spec_start_server(config, info)),
            commands@ == old(self)@.spec_start_server_commands(config),
            final(self)@.wf(),
            final(self)@.mode == BridgeMode::Server,
    {
        match self.mode {
            BridgeMode::Server => Vec::new(),
            _ => {
                let info = fresh_identity(config.port);
                let ghost witness = info;
                let commands = self.start_server_as(config, info);
                assert(final(self)@ == old(self)@.spec_start_server(config, witness));
                commands
            },
        }
    }

    /// Stops serving. A session that does not serve stays as it is.
    pub fn stop_server(&mut self) -> (commands: Vec<TransportCommand>)
        requires
            old(self)@.wf(),
        ensures
            final(self)@ == old(self)@.spec_stop_server(),
            commands@ == old(self)@.spec_stop_server_commands(),
            final(self)@.wf(),
    {
        let mut commands: Vec<TransportCommand> = Vec::new();
        match self.mode {
            BridgeMode::Server => {
                self.teardown(&mut commands);
            },
            _ => {},
        }
        commands
    }

    /// Makes the session a client with `config`. A session that is a client
    /// already stays as it is.
    pub fn connect_client(&mut self, config: ConnectionConfig) -> (commands: Vec<
        TransportCommand,
    >)
        requires
            old(self)@.wf(),
        ensures
            final(self)@ == old(self)@.spec_connect_client(config),
            commands@ == old(self)@.spec_connect_client_commands(config),
            final(self)@.wf(),
            final(self)@.mode == BridgeMode::Client,
    {
        let mut commands: Vec<TransportCommand> = Vec::new();
        match self.mode {
            BridgeMode::Client => {
                return commands;
            },
            _ => {},
        }
        self.teardown(&mut commands);
        let client = Client::new(config.clone());
        let handle = client.connect();
        commands.push(TransportCommand::SpawnClient { client });
        self.mode = BridgeMode::Client;
        self.config = config;
        self.client = Some(handle);
        commands
    }

    /// Disconnects. A session that is no client stays as it is.
    pub fn disconnect_client(&mut self) -> (commands: Vec<TransportCommand>)
        requires
            old(self)@.wf(),
        ensures
            final(self)@ == old(self)@.spec_disconnect_client(),
            commands@ == old(self)@.spec_disconnect_client_commands(),
            final(self)@.wf(),
    {
        let mut commands: Vec<TransportCommand> = Vec::new();
        match self.mode {
            BridgeMode::Client => {
                self.teardown(&mut commands);
            },
            _ => {},
        }
        commands
    }

    /// Takes note of the condition of the client's link: a link that is lost
    /// or rejected ends the client role. Yields what the runtime has to do,
    /// and the error to report, if the link is down.
    pub fn observe_link(&mut self, link: &PeerLink) -> (outcome: (
        Vec<TransportCommand>,
        Option<BridgeError>,
    ))
        requires
            old(self)@.wf(),
        ensures
            final(self)@ == old(self)@.spec_observe_link(link.state),
            outcome.0@ == (if SessionState::spec_link_is_down(link.state) {
                old(self)@.spec_disconnect_client_commands()
            } else {
                Seq::empty()
            }),
            outcome.1 == (match link.state {
                LinkState::Rejected => Some(BridgeError::HandshakeRejected),
                LinkState::Lost => Some(BridgeError::ConnectionLost),
                _ => None::<BridgeError>,
            }),
            final(self)@.wf(),
    {
        let error = link.error();
        let commands = match error {
            Some(_) => self.disconnect_client(),
            None => Vec::new(),
        };
        (commands, error)
    }

    /// Whether the session is connected, in which role, and to whom.
    pub fn get_connection_status(&self) -> (status: ConnectionStatus)
        ensures
            status.connected == (self@.mode != BridgeMode::Disconnected),
            status.mode@ == self@.mode.spec_label(),
            spec_optional_text(status.remote_address) == self@.spec_remote_address(),
            status.latency_ms is None,
    {
        let connected = match self.mode {
            BridgeMode::Disconnected => false,
            _ => true,
        };
        let remote_address = match self.mode {
            BridgeMode::Client => {
                let mut address = self.config.host.clone();
                address.append(":");
                let port = decimal(self.config.port as u64);
                address.append(port.as_str());
                proof {
                    reveal_strlit(":");
                    assert(":"@ =~= seq![':']);
                }
                Some(address)
            },
            _ => None,
        };
        ConnectionStatus { connected, mode: self.mode.label(), remote_address, latency_ms: None }
    }

    /// The identity of the running server.
    pub fn get_server_info(&self) -> (result: Result<crate::ServerInfo, BridgeError>)
        ensures
            match result {
                Ok(info) => self@.server_info == Some(
                    ServerInfo {
                        hostname: info.hostname,
                        ip: info.ip,
                        port: info.port,
                        fingerprint: info.fingerprint,
                    },
                ),
                Err(error) => self@.server_info is None && error == BridgeError::NotRunning,
            },
    {
        match &self.server_info {
            Some(info) => Ok(
                crate::ServerInfo {
                    hostname: info.hostname.clone(),
                    ip: info.ip.clone(),
                    port: info.port,
                    fingerprint: info.fingerprint.clone(),
                },
            ),
            None => Err(BridgeError::NotRunning),
        }
    }
}

} // verus!
