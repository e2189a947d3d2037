use mousebridge::config::ConnectionConfig;
use mousebridge::config::SecurityConfig;
use mousebridge::input::InputManager;
use mousebridge::input::MouseEvent;
use mousebridge::input::MouseSample;
use mousebridge::network::connection_request;
use mousebridge::network::connection_response;
use mousebridge::network::decide_request;
use mousebridge::network::frame_events;
use mousebridge::network::get_available_interfaces;
use mousebridge::network::is_trusted_device;
use mousebridge::network::Client;
use mousebridge::network::ClientHandle;
use mousebridge::network::Dispatch;
use mousebridge::network::HandshakeDecision;
use mousebridge::network::LinkState;
use mousebridge::network::NetworkMessage;
use mousebridge::network::PeerLink;
use mousebridge::network::Server;
use mousebridge::network::ServerHandle;
use mousebridge::network::TransportCommand;
use mousebridge::network::CLIENT_TICK_MS;
use mousebridge::network::SERVER_TICK_MS;
use mousebridge::wire::decode_message;
use mousebridge::wire::encode_message;
use mousebridge::BridgeError;

fn event(x: i32, y: i32, button: Option<&str>, pressed: bool, wx: i32, wy: i32) -> MouseEvent {
    MouseEvent { x, y, button: button.map(|b| b.to_string()), pressed, wheel_x: wx, wheel_y: wy }
}

fn security(auto_accept: bool, trusted: &[&str]) -> SecurityConfig {
    SecurityConfig {
        enable_encryption: true,
        trusted_devices: trusted.iter().map(|d| d.to_string()).collect(),
        auto_accept_connections: auto_accept,
    }
}

fn decide(policy: &SecurityConfig, own: &str, requested: &str, peer: &str) -> HandshakeDecision {
    decide_request(policy, &own.to_string(), &requested.to_string(), &peer.to_string())
}

fn round_trip(message: NetworkMessage) {
    let bytes = encode_message(&message);
    assert_eq!(decode_message(&bytes), Some(message));
}

#[test]
fn every_variant_survives_the_wire() {
    round_trip(NetworkMessage::Heartbeat);
    round_trip(NetworkMessage::ConnectionRequest { fingerprint: "abc-123".to_string() });
    round_trip(NetworkMessage::ConnectionRequest { fingerprint: String::new() });
    round_trip(NetworkMessage::ConnectionResponse {
        accepted: true,
        fingerprint: "abc-123".to_string(),
    });
    round_trip(NetworkMessage::ConnectionResponse { accepted: false, fingerprint: String::new() });
    round_trip(NetworkMessage::MouseEvent(event(0, 0, None, false, 0, 0)));
    round_trip(NetworkMessage::MouseEvent(event(1915, -7, Some("left"), true, 3, -2)));
    round_trip(NetworkMessage::MouseEvent(event(1, 2, Some(""), false, 0, 0)));
}

#[test]
fn extreme_numbers_survive_the_wire() {
    for x in [i32::MIN, i32::MIN + 1, -1, 0, 1, 255, 256, 65535, 65536, i32::MAX - 1, i32::MAX] {
        round_trip(NetworkMessage::MouseEvent(event(x, -x.max(-i32::MAX), None, true, x, x)));
    }
}

#[test]
fn text_beyond_ascii_survives_the_wire() {
    round_trip(NetworkMessage::ConnectionRequest { fingerprint: "größe-日本語-🖱".to_string() });
    round_trip(NetworkMessage::MouseEvent(event(0, 0, Some("mittlere-Taste-ß"), true, 0, 0)));
    round_trip(NetworkMessage::ConnectionResponse {
        accepted: true,
        fingerprint: "\u{0}\u{7f}\u{80}\u{7ff}\u{800}\u{ffff}\u{10000}\u{10ffff}".to_string(),
    });
}

#[test]
fn the_bytes_of_a_heartbeat() {
    assert_eq!(encode_message(&NetworkMessage::Heartbeat), vec![3u8]);
}

#[test]
fn the_bytes_of_a_request_and_a_response() {
    let request = NetworkMessage::ConnectionRequest { fingerprint: "ab".to_string() };
    assert_eq!(encode_message(&request), vec![1u8, b'a', b'b']);
    let response =
        NetworkMessage::ConnectionResponse { accepted: true, fingerprint: "ab".to_string() };
    assert_eq!(encode_message(&response), vec![2u8, 1, b'a', b'b']);
    let response =
        NetworkMessage::ConnectionResponse { accepted: false, fingerprint: String::new() };
    assert_eq!(encode_message(&response), vec![2u8, 0]);
}

#[test]
fn the_bytes_of_a_pointer_event() {
    let message = NetworkMessage::MouseEvent(event(1, -1, Some("left"), true, 0, i32::MIN));
    assert_eq!(
        encode_message(&message),
        vec![
            0u8, // tag
            0x80, 0x00, 0x00, 0x01, // x = 1
            0x7f, 0xff, 0xff, 0xff, // y = -1
            1,    // pressed
            0x80, 0x00, 0x00, 0x00, // wheel_x = 0
            0x00, 0x00, 0x00, 0x00, // wheel_y = i32::MIN
            1,    // a button follows
            b'l', b'e', b'f', b't',
        ]
    );
    let message = NetworkMessage::MouseEvent(event(i32::MAX, 0, None, false, 0, 0));
    assert_eq!(
        encode_message(&message),
        vec![
            0u8, 0xff, 0xff, 0xff, 0xff, 0x80, 0, 0, 0, 0, 0x80, 0, 0, 0, 0x80, 0, 0, 0, 0,
        ]
    );
}

#[test]
fn bytes_that_are_no_message_are_refused() {
    assert_eq!(decode_message(&[]), None);
    // An unknown tag.
    assert_eq!(decode_message(&[4]), None);
    assert_eq!(decode_message(&[255, 1, 2]), None);
    // A heartbeat with a payload.
    assert_eq!(decode_message(&[3, 0]), None);
    // A response without its flag, and with a flag that is neither 0 nor 1.
    assert_eq!(decode_message(&[2]), None);
    assert_eq!(decode_message(&[2, 2, b'a']), None);
    // Text that is not UTF-8.
    assert_eq!(decode_message(&[1, 0xff]), None);
    assert_eq!(decode_message(&[1, 0xc3]), None);
    assert_eq!(decode_message(&[2, 1, 0xed, 0xa0, 0x80]), None);
    // A pointer event that is cut short.
    assert_eq!(decode_message(&[0]), None);
    assert_eq!(decode_message(&[0, 0x80, 0, 0, 0, 0x80, 0, 0, 0, 0, 0x80, 0, 0, 0, 0x80, 0, 0, 0]), None);
}

#[test]
fn a_pointer_event_with_bad_flags_is_refused() {
    let good = encode_message(&NetworkMessage::MouseEvent(event(0, 0, None, false, 0, 0)));
    assert!(decode_message(&good).is_some());
    let mut pressed = good.clone();
    pressed[9] = 2;
    assert_eq!(decode_message(&pressed), None);
    let mut button = good.clone();
    button[18] = 2;
    assert_eq!(decode_message(&button), None);
    // Bytes after an event that has no button.
    let mut trailing = good.clone();
    trailing.push(b'x');
    assert_eq!(decode_message(&trailing), None);
    // A button name that is not UTF-8.
    let mut named = good.clone();
    named[18] = 1;
    named.push(0x80);
    assert_eq!(decode_message(&named), None);
    // An empty button name is a name.
    let mut empty = good;
    empty[18] = 1;
    assert_eq!(
        decode_message(&empty),
        Some(NetworkMessage::MouseEvent(event(0, 0, Some(""), false, 0, 0)))
    );
}

#[test]
fn decoded_bytes_encode_to_the_same_bytes() {
    let samples: [&[u8]; 4] = [&[3], &[1, b'f', b'p'], &[2, 0, b'f', b'p'], &[1]];
    for bytes in samples {
        let message = decode_message(bytes);
        assert!(message.is_some());
        if let Some(message) = message {
            assert_eq!(encode_message(&message), bytes.to_vec());
        }
    }
}

#[test]
fn events_are_framed_one_by_one_in_order() {
    let events = vec![
        event(1, 1, None, false, 0, 0),
        event(1, 1, Some("left"), true, 0, 0),
        event(1, 1, None, false, 0, 0),
        event(1, 1, Some("left"), false, 0, 0),
    ];
    let messages = frame_events(events.clone());
    assert_eq!(messages.len(), 4);
    for (message, event) in messages.iter().zip(events.iter()) {
        assert_eq!(*message, NetworkMessage::MouseEvent(event.clone()));
    }
    assert_eq!(frame_events(Vec::new()), Vec::<NetworkMessage>::new());
}

#[test]
fn a_server_tick_sends_what_changed() {
    let server = Server::new(ConnectionConfig::default());
    let mut input = InputManager::new();
    let sample = MouseSample { coords: (5, 6), button_pressed: vec![true, false, false] };
    let messages = server.tick(&mut input, sample);
    assert_eq!(
        messages,
        vec![
            NetworkMessage::MouseEvent(event(5, 6, None, false, 0, 0)),
            NetworkMessage::MouseEvent(event(5, 6, Some("left"), true, 0, 0)),
        ]
    );
    let sample = MouseSample { coords: (5, 6), button_pressed: vec![true, false, false] };
    assert_eq!(server.tick(&mut input, sample), Vec::<NetworkMessage>::new());
}

#[test]
fn handles_carry_the_port_and_stop_their_task() {
    let config = ConnectionConfig { port: 9000, ..ConnectionConfig::default() };
    let server = Server::new(config.clone());
    assert_eq!(server.config, config);
    let handle = server.start();
    assert_eq!(handle, ServerHandle { port: 9000 });
    assert_eq!(handle.stop(), TransportCommand::StopServer);
    let client = Client::new(config.clone());
    assert_eq!(client.config, config);
    let handle = client.connect();
    assert_eq!(handle, ClientHandle { port: 9000 });
    assert_eq!(handle.disconnect(), TransportCommand::StopClient);
}

#[test]
fn tick_lengths() {
    assert_eq!(SERVER_TICK_MS, 16);
    assert_eq!(CLIENT_TICK_MS, 100);
}

#[test]
fn a_client_routes_events_to_the_injector_and_the_rest_to_the_session() {
    let client = Client::new(ConnectionConfig::default());
    let moved = event(3, 4, None, false, 0, 0);
    assert_eq!(
        client.dispatch(NetworkMessage::MouseEvent(moved.clone())),
        Dispatch::Inject(moved)
    );
    for control in [
        NetworkMessage::Heartbeat,
        NetworkMessage::ConnectionRequest { fingerprint: "x".to_string() },
        NetworkMessage::ConnectionResponse { accepted: true, fingerprint: "x".to_string() },
    ] {
        assert_eq!(client.dispatch(control.clone()), Dispatch::Control(control));
    }
}

#[test]
fn a_request_for_another_server_is_rejected() {
    let open = security(true, &["laptop"]);
    assert_eq!(decide(&open, "fp-1", "fp-2", "laptop"), HandshakeDecision::Reject);
    assert_eq!(decide(&open, "fp-1", "fp-", "laptop"), HandshakeDecision::Reject);
}

#[test]
fn auto_accept_accepts_any_device() {
    let policy = security(true, &[]);
    assert_eq!(decide(&policy, "fp-1", "fp-1", "stranger"), HandshakeDecision::Accept);
    // A request that expects no fingerprint is meant for any server.
    assert_eq!(decide(&policy, "fp-1", "", "stranger"), HandshakeDecision::Accept);
}

#[test]
fn a_trusted_device_is_accepted_and_a_stranger_prompts() {
    let policy = security(false, &["laptop", "tablet"]);
    assert_eq!(decide(&policy, "fp-1", "fp-1", "laptop"), HandshakeDecision::Accept);
    assert_eq!(decide(&policy, "fp-1", "", "tablet"), HandshakeDecision::Accept);
    assert_eq!(decide(&policy, "fp-1", "fp-1", "phone"), HandshakeDecision::Prompt);
    assert_eq!(decide(&policy, "fp-1", "fp-1", "lap"), HandshakeDecision::Prompt);
    assert_eq!(decide(&security(false, &[]), "fp-1", "", "laptop"), HandshakeDecision::Prompt);
    assert_eq!(decide(&SecurityConfig::default(), "fp-1", "", "x"), HandshakeDecision::Prompt);
}

#[test]
fn the_allow_list() {
    let policy = security(false, &["laptop", "tablet"]);
    assert!(is_trusted_device(&policy, &"tablet".to_string()));
    assert!(!is_trusted_device(&policy, &"Tablet".to_string()));
    assert!(!is_trusted_device(&security(false, &[]), &"tablet".to_string()));
}

#[test]
fn handshake_messages() {
    assert_eq!(
        connection_request("fp-1".to_string()),
        NetworkMessage::ConnectionRequest { fingerprint: "fp-1".to_string() }
    );
    assert_eq!(
        connection_response(false, &"fp-1".to_string()),
        NetworkMessage::ConnectionResponse { accepted: false, fingerprint: "fp-1".to_string() }
    );
}

#[test]
fn an_accepted_request_establishes_the_link() {
    let mut link = PeerLink::open(1000, 100);
    assert_eq!(link.state, LinkState::Connecting);
    let answer = NetworkMessage::ConnectionResponse { accepted: true, fingerprint: "f".to_string() };
    link.on_message(&answer, 1040);
    assert_eq!(link, PeerLink { state: LinkState::Established, last_heard_ms: 1040, timeout_ms: 100 });
    assert_eq!(link.error(), None);
}

#[test]
fn a_declined_request_is_rejected() {
    let mut link = PeerLink::open(1000, 100);
    let answer =
        NetworkMessage::ConnectionResponse { accepted: false, fingerprint: "f".to_string() };
    link.on_message(&answer, 1040);
    assert_eq!(link.state, LinkState::Rejected);
    assert_eq!(link.error(), Some(BridgeError::HandshakeRejected));
    // Nothing brings a rejected link back.
    link.on_message(&NetworkMessage::Heartbeat, 1050);
    let accept = NetworkMessage::ConnectionResponse { accepted: true, fingerprint: "f".to_string() };
    link.on_message(&accept, 1060);
    link.on_tick(5000);
    assert_eq!(link.state, LinkState::Rejected);
}

#[test]
fn without_a_heartbeat_the_link_is_lost_at_the_timeout_and_not_before() {
    let mut link = PeerLink { state: LinkState::Established, last_heard_ms: 0, timeout_ms: 100 };
    for now in [0, 16, 50, 99] {
        link.on_tick(now);
        assert_eq!(link.state, LinkState::Established);
    }
    link.on_tick(100);
    assert_eq!(link.state, LinkState::Lost);
    assert_eq!(link.error(), Some(BridgeError::ConnectionLost));
    let mut link = PeerLink { state: LinkState::Established, last_heard_ms: 0, timeout_ms: 100 };
    link.on_tick(150);
    assert_eq!(link.state, LinkState::Lost);
}

#[test]
fn a_heartbeat_renews_the_link() {
    let mut link = PeerLink { state: LinkState::Established, last_heard_ms: 0, timeout_ms: 100 };
    link.on_message(&NetworkMessage::Heartbeat, 90);
    link.on_tick(150);
    assert_eq!(link.state, LinkState::Established);
    link.on_tick(189);
    assert_eq!(link.state, LinkState::Established);
    link.on_tick(190);
    assert_eq!(link.state, LinkState::Lost);
    // A heartbeat that comes too late does not bring the link back.
    link.on_message(&NetworkMessage::Heartbeat, 191);
    assert_eq!(link.state, LinkState::Lost);
}

#[test]
fn pointer_events_do_not_renew_the_link() {
    let mut link = PeerLink { state: LinkState::Established, last_heard_ms: 0, timeout_ms: 100 };
    link.on_message(&NetworkMessage::MouseEvent(event(0, 0, None, false, 0, 0)), 90);
    assert_eq!(link.last_heard_ms, 0);
    link.on_tick(100);
    assert_eq!(link.state, LinkState::Lost);
}

#[test]
fn the_answer_to_a_request_is_awaited_for_the_timeout() {
    let mut link = PeerLink::open(1000, 100);
    link.on_message(&NetworkMessage::Heartbeat, 1050);
    assert_eq!(link, PeerLink::open(1000, 100));
    link.on_tick(1099);
    assert_eq!(link.state, LinkState::Connecting);
    link.on_tick(1100);
    assert_eq!(link.state, LinkState::Lost);
}

#[test]
fn a_clock_that_runs_backwards_counts_as_no_silence() {
    let mut link = PeerLink { state: LinkState::Established, last_heard_ms: 500, timeout_ms: 100 };
    link.on_tick(0);
    assert_eq!(link.state, LinkState::Established);
    let mut link = PeerLink { state: LinkState::Established, last_heard_ms: 500, timeout_ms: 0 };
    link.on_tick(0);
    assert_eq!(link.state, LinkState::Lost);
}

#[test]
fn the_interfaces_of_a_host() {
    assert_eq!(get_available_interfaces(), vec!["eth0".to_string(), "wlan0".to_string()]);
}
