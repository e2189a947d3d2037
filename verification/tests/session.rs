use mousebridge::bridge::fresh_identity;
use mousebridge::bridge::identity_from;
use mousebridge::bridge::BridgeMode;
use mousebridge::bridge::MouseBridgeService;
use mousebridge::bridge::ServerInfo;
use mousebridge::config::ConnectionConfig;
use mousebridge::config::Protocol;
use mousebridge::network::Client;
use mousebridge::network::LinkState;
use mousebridge::network::PeerLink;
use mousebridge::network::Server;
use mousebridge::network::TransportCommand;
use mousebridge::BridgeError;

fn config(host: &str, port: u16) -> ConnectionConfig {
    ConnectionConfig { host: host.to_string(), port, protocol: Protocol::TCP, timeout_ms: 100 }
}

fn identity(port: u16) -> ServerInfo {
    ServerInfo {
        hostname: "desk".to_string(),
        ip: "192.168.1.20".to_string(),
        port,
        fingerprint: "f00d".to_string(),
    }
}

fn spawn_server(config: ConnectionConfig) -> TransportCommand {
    TransportCommand::SpawnServer { server: Server { config } }
}

fn spawn_client(config: ConnectionConfig) -> TransportCommand {
    TransportCommand::SpawnClient { client: Client { config } }
}

/// The number of tasks that are alive after the runtime has carried out
/// `commands`, given how many were alive before.
fn alive_after(mut servers: i32, mut clients: i32, commands: &[TransportCommand]) -> (i32, i32) {
    for command in commands {
        match command {
            TransportCommand::SpawnServer { .. } => servers += 1,
            TransportCommand::SpawnClient { .. } => clients += 1,
            TransportCommand::StopServer => servers -= 1,
            TransportCommand::StopClient => clients -= 1,
        }
    }
    (servers, clients)
}

#[test]
fn a_new_session_is_disconnected() {
    let service = MouseBridgeService::new();
    assert_eq!(service.mode(), BridgeMode::Disconnected);
    let status = service.get_connection_status();
    assert!(!status.connected);
    assert_eq!(status.mode, "Disconnected");
    assert_eq!(status.remote_address, None);
    assert_eq!(status.latency_ms, None);
    assert_eq!(service.get_server_info(), Err(BridgeError::NotRunning));
}

#[test]
fn starting_a_server_twice_is_starting_it_once() {
    let mut service = MouseBridgeService::new();
    let first = service.start_server(config("0.0.0.0", 4242));
    assert_eq!(first, vec![spawn_server(config("0.0.0.0", 4242))]);
    assert_eq!(service.mode(), BridgeMode::Server);
    let info = service.get_server_info();
    let second = service.start_server(config("0.0.0.0", 4242));
    assert_eq!(second, Vec::<TransportCommand>::new());
    assert_eq!(service.mode(), BridgeMode::Server);
    // The identity of the first start stays.
    assert_eq!(service.get_server_info(), info);
    let (servers, clients) = alive_after(0, 0, &first);
    assert_eq!(alive_after(servers, clients, &second), (1, 0));
}

#[test]
fn a_running_server_keeps_its_configuration() {
    let mut service = MouseBridgeService::new();
    let _ = service.start_server_as(config("0.0.0.0", 4242), identity(4242));
    let again = service.start_server_as(config("0.0.0.0", 9999), identity(9999));
    assert_eq!(again, Vec::<TransportCommand>::new());
    assert_eq!(service.get_server_info().map(|info| info.port), Ok(4242));
}

#[test]
fn server_info_is_a_snapshot_of_the_identity() {
    let mut service = MouseBridgeService::new();
    let _ = service.start_server_as(config("0.0.0.0", 7000), identity(7000));
    let info = service.get_server_info();
    assert_eq!(
        info,
        Ok(mousebridge::ServerInfo {
            hostname: "desk".to_string(),
            ip: "192.168.1.20".to_string(),
            port: 7000,
            fingerprint: "f00d".to_string(),
        })
    );
    let status = service.get_connection_status();
    assert!(status.connected);
    assert_eq!(status.mode, "Server");
    assert_eq!(status.remote_address, None);
}

#[test]
fn each_start_makes_a_fresh_identity() {
    let mut service = MouseBridgeService::new();
    let _ = service.start_server(config("0.0.0.0", 5000));
    let first = service.get_server_info().map(|info| info.fingerprint);
    let _ = service.stop_server();
    let _ = service.start_server(config("0.0.0.0", 5000));
    let second = service.get_server_info().map(|info| info.fingerprint);
    assert!(first.is_ok());
    assert!(second.is_ok());
    assert_ne!(first, second);
}

#[test]
fn a_fresh_identity_has_the_port_and_a_fingerprint() {
    let info = fresh_identity(4711);
    assert_eq!(info.port, 4711);
    assert_eq!(info.fingerprint.chars().count(), 36);
    assert_eq!(info.fingerprint.matches('-').count(), 4);
    assert!(!info.ip.is_empty());
    assert_ne!(fresh_identity(4711).fingerprint, info.fingerprint);
}

#[test]
fn an_identity_falls_back_to_the_loopback_address() {
    let told = identity_from("desk".to_string(), Some("10.1.2.3".to_string()), 80, "fp".to_string());
    assert_eq!(
        told,
        ServerInfo {
            hostname: "desk".to_string(),
            ip: "10.1.2.3".to_string(),
            port: 80,
            fingerprint: "fp".to_string(),
        }
    );
    let untold = identity_from(String::new(), None, 80, "fp".to_string());
    assert_eq!(untold.ip, "127.0.0.1");
    assert_eq!(untold.hostname, "");
}

#[test]
fn the_session_keeps_the_configuration_of_its_role() {
    let mut service = MouseBridgeService::new();
    assert_eq!(*service.config(), ConnectionConfig::default());
    let _ = service.start_server(config("0.0.0.0", 4242));
    assert_eq!(*service.config(), config("0.0.0.0", 4242));
    let _ = service.stop_server();
    assert_eq!(*service.config(), config("0.0.0.0", 4242));
    let _ = service.connect_client(config("10.0.0.7", 1));
    assert_eq!(*service.config(), config("10.0.0.7", 1));
}

#[test]
fn stopping_a_server_clears_the_identity() {
    let mut service = MouseBridgeService::new();
    let _ = service.start_server(config("0.0.0.0", 4242));
    assert_eq!(service.stop_server(), vec![TransportCommand::StopServer]);
    assert_eq!(service.mode(), BridgeMode::Disconnected);
    assert_eq!(service.get_server_info(), Err(BridgeError::NotRunning));
    // A second stop is a no-op, not an error.
    assert_eq!(service.stop_server(), Vec::<TransportCommand>::new());
    assert_eq!(service.mode(), BridgeMode::Disconnected);
}

#[test]
fn stop_server_leaves_a_client_alone() {
    let mut service = MouseBridgeService::new();
    let _ = service.connect_client(config("10.0.0.7", 4242));
    assert_eq!(service.stop_server(), Vec::<TransportCommand>::new());
    assert_eq!(service.mode(), BridgeMode::Client);
}

#[test]
fn disconnect_leaves_a_server_alone() {
    let mut service = MouseBridgeService::new();
    let _ = service.start_server(config("0.0.0.0", 4242));
    assert_eq!(service.disconnect_client(), Vec::<TransportCommand>::new());
    assert_eq!(service.mode(), BridgeMode::Server);
}

#[test]
fn a_client_reports_the_remote_address() {
    let mut service = MouseBridgeService::new();
    let commands = service.connect_client(config("10.0.0.7", 4242));
    assert_eq!(commands, vec![spawn_client(config("10.0.0.7", 4242))]);
    assert_eq!(service.mode(), BridgeMode::Client);
    let status = service.get_connection_status();
    assert!(status.connected);
    assert_eq!(status.mode, "Client");
    assert_eq!(status.remote_address, Some("10.0.0.7:4242".to_string()));
    assert_eq!(status.latency_ms, None);
    assert_eq!(service.get_server_info(), Err(BridgeError::NotRunning));
}

#[test]
fn remote_address_with_the_smallest_and_largest_port() {
    let mut service = MouseBridgeService::new();
    let _ = service.connect_client(config("h", 0));
    assert_eq!(service.get_connection_status().remote_address, Some("h:0".to_string()));
    let _ = service.disconnect_client();
    let _ = service.connect_client(config("::1", 65535));
    assert_eq!(service.get_connection_status().remote_address, Some("::1:65535".to_string()));
}

#[test]
fn connecting_twice_is_connecting_once() {
    let mut service = MouseBridgeService::new();
    let first = service.connect_client(config("10.0.0.7", 4242));
    let second = service.connect_client(config("10.0.0.8", 1));
    assert_eq!(second, Vec::<TransportCommand>::new());
    assert_eq!(
        service.get_connection_status().remote_address,
        Some("10.0.0.7:4242".to_string())
    );
    let (servers, clients) = alive_after(0, 0, &first);
    assert_eq!(alive_after(servers, clients, &second), (0, 1));
}

#[test]
fn disconnecting_twice_is_disconnecting_once() {
    let mut service = MouseBridgeService::new();
    let _ = service.connect_client(config("10.0.0.7", 4242));
    assert_eq!(service.disconnect_client(), vec![TransportCommand::StopClient]);
    assert_eq!(service.mode(), BridgeMode::Disconnected);
    assert_eq!(service.disconnect_client(), Vec::<TransportCommand>::new());
    assert_eq!(service.mode(), BridgeMode::Disconnected);
}

#[test]
fn a_role_is_torn_down_before_the_next_is_set_up() {
    let mut service = MouseBridgeService::new();
    let _ = service.start_server(config("0.0.0.0", 4242));
    let to_client = service.connect_client(config("10.0.0.7", 4243));
    assert_eq!(
        to_client,
        vec![TransportCommand::StopServer, spawn_client(config("10.0.0.7", 4243))]
    );
    assert_eq!(service.mode(), BridgeMode::Client);
    assert_eq!(service.get_server_info(), Err(BridgeError::NotRunning));
    let to_server = service.start_server(config("0.0.0.0", 4244));
    assert_eq!(
        to_server,
        vec![TransportCommand::StopClient, spawn_server(config("0.0.0.0", 4244))]
    );
    assert_eq!(service.mode(), BridgeMode::Server);
    assert_eq!(service.get_server_info().map(|info| info.port), Ok(4244));
}

#[test]
fn at_most_one_task_is_alive_after_any_sequence_of_requests() {
    // Every sequence of five requests out of the four kinds.
    for code in 0..4usize.pow(5) {
        let mut service = MouseBridgeService::new();
        let mut alive = (0, 0);
        let mut rest = code;
        for _ in 0..5 {
            let commands = match rest % 4 {
                0 => service.start_server(config("0.0.0.0", 4242)),
                1 => service.stop_server(),
                2 => service.connect_client(config("10.0.0.7", 4242)),
                _ => service.disconnect_client(),
            };
            rest /= 4;
            alive = alive_after(alive.0, alive.1, &commands);
            let expected = match service.mode() {
                BridgeMode::Server => (1, 0),
                BridgeMode::Client => (0, 1),
                BridgeMode::Disconnected => (0, 0),
            };
            assert_eq!(alive, expected);
            assert_eq!(service.has_server_handle(), service.mode() == BridgeMode::Server);
            assert_eq!(service.has_client_handle(), service.mode() == BridgeMode::Client);
            assert_eq!(
                service.has_server_handle() || service.has_client_handle(),
                service.mode() != BridgeMode::Disconnected
            );
            assert_eq!(service.get_server_info().is_ok(), service.mode() == BridgeMode::Server);
            assert_eq!(
                service.get_connection_status().connected,
                service.mode() != BridgeMode::Disconnected
            );
        }
    }
}

#[test]
fn a_lost_link_folds_the_client_back_to_disconnected() {
    let mut service = MouseBridgeService::new();
    let _ = service.connect_client(config("10.0.0.7", 4242));
    let link = PeerLink { state: LinkState::Lost, last_heard_ms: 0, timeout_ms: 100 };
    let (commands, error) = service.observe_link(&link);
    assert_eq!(commands, vec![TransportCommand::StopClient]);
    assert_eq!(error, Some(BridgeError::ConnectionLost));
    assert_eq!(service.mode(), BridgeMode::Disconnected);
}

#[test]
fn a_rejected_link_folds_the_client_back_to_disconnected() {
    let mut service = MouseBridgeService::new();
    let _ = service.connect_client(config("10.0.0.7", 4242));
    let link = PeerLink { state: LinkState::Rejected, last_heard_ms: 0, timeout_ms: 100 };
    let (commands, error) = service.observe_link(&link);
    assert_eq!(commands, vec![TransportCommand::StopClient]);
    assert_eq!(error, Some(BridgeError::HandshakeRejected));
    assert_eq!(service.mode(), BridgeMode::Disconnected);
}

#[test]
fn a_live_link_changes_nothing() {
    let mut service = MouseBridgeService::new();
    let _ = service.connect_client(config("10.0.0.7", 4242));
    for state in [LinkState::Connecting, LinkState::Established] {
        let link = PeerLink { state, last_heard_ms: 0, timeout_ms: 100 };
        let (commands, error) = service.observe_link(&link);
        assert_eq!(commands, Vec::<TransportCommand>::new());
        assert_eq!(error, None);
        assert_eq!(service.mode(), BridgeMode::Client);
    }
}

#[test]
fn a_lost_link_does_not_stop_a_server() {
    let mut service = MouseBridgeService::new();
    let _ = service.start_server(config("0.0.0.0", 4242));
    let link = PeerLink { state: LinkState::Lost, last_heard_ms: 0, timeout_ms: 100 };
    let (commands, error) = service.observe_link(&link);
    assert_eq!(commands, Vec::<TransportCommand>::new());
    assert_eq!(error, Some(BridgeError::ConnectionLost));
    assert_eq!(service.mode(), BridgeMode::Server);
}

#[test]
fn mode_labels() {
    assert_eq!(BridgeMode::Server.label(), "Server");
    assert_eq!(BridgeMode::Client.label(), "Client");
    assert_eq!(BridgeMode::Disconnected.label(), "Disconnected");
}

#[test]
fn error_messages() {
    assert_eq!(BridgeError::NotRunning.message(), "Server not running");
    assert_eq!(BridgeError::HandshakeRejected.message(), "Connection rejected by peer");
    assert_eq!(BridgeError::ConnectionLost.message(), "Connection lost");
    assert_eq!(BridgeError::UnsupportedPlatform.message(), "Unsupported platform");
    assert_eq!(BridgeError::PermissionDenied.message(), "Accessibility permissions required");
    assert_eq!(BridgeError::ConfigInvalid.message(), "Configuration value out of range");
}
