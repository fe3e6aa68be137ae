use game_coordinator::gateway::{Connection, Frame, FrameAction, TickAction};
use game_coordinator::heartbeat::{HeartbeatAction, HeartbeatMonitor, CLIENT_TIMEOUT, HEARTBEAT_INTERVAL};
use game_coordinator::codec::WsMessage;
use game_coordinator::message::ServerMessage;

fn disconnect(id: &str) -> ServerMessage {
    ServerMessage::Disconnect(id.to_string())
}

#[test]
fn reference_interval_and_timeout() {
    assert_eq!(HEARTBEAT_INTERVAL, 5);
    assert_eq!(CLIENT_TIMEOUT, 10);
}

#[test]
fn check_pings_while_the_peer_is_within_the_timeout() {
    let mut monitor = HeartbeatMonitor::new(100);
    assert_eq!(monitor.check(100), HeartbeatAction::Ping);
    assert_eq!(monitor.check(105), HeartbeatAction::Ping);
    assert_eq!(monitor.check(110), HeartbeatAction::Ping);
    assert!(!monitor.is_closed());
    assert_eq!(monitor.last_seen(), 100);
}

#[test]
fn silent_peer_is_closed_exactly_once() {
    let mut monitor = HeartbeatMonitor::new(0);
    let actions: Vec<HeartbeatAction> = [5, 10, 15, 20, 25, 30].iter().map(|t| monitor.check(*t)).collect();
    assert_eq!(
        actions,
        vec![
            HeartbeatAction::Ping,
            HeartbeatAction::Ping,
            HeartbeatAction::Close,
            HeartbeatAction::Stopped,
            HeartbeatAction::Stopped,
            HeartbeatAction::Stopped,
        ]
    );
    assert!(monitor.is_closed());
}

#[test]
fn activity_postpones_the_timeout() {
    let mut monitor = HeartbeatMonitor::new(0);
    monitor.observe(8);
    assert_eq!(monitor.check(15), HeartbeatAction::Ping);
    assert_eq!(monitor.check(18), HeartbeatAction::Ping);
    assert_eq!(monitor.check(19), HeartbeatAction::Close);
}

#[test]
fn clock_before_last_seen_is_no_timeout() {
    let mut monitor = HeartbeatMonitor::new(50);
    assert_eq!(monitor.check(3), HeartbeatAction::Ping);
    let mut late = HeartbeatMonitor::new(u64::MAX - 2);
    assert_eq!(late.check(u64::MAX), HeartbeatAction::Ping);
}

#[test]
fn shutdown_stops_the_monitor() {
    let mut monitor = HeartbeatMonitor::new(0);
    monitor.shutdown();
    assert_eq!(monitor.check(1000), HeartbeatAction::Stopped);
}

#[test]
fn opening_registers_the_player() {
    let (connection, command) = Connection::with_id("ann".to_string(), 7);
    assert_eq!(connection.player_id(), "ann");
    assert!(!connection.is_closed());
    assert_eq!(command, ServerMessage::Connect { id: "ann".to_string() });
}

#[test]
fn generated_identifiers_are_hyphenated_and_differ() {
    let (first, command) = Connection::open(0);
    let (second, _) = Connection::open(0);
    assert_eq!(first.player_id().chars().count(), 36);
    assert_eq!(first.player_id().matches('-').count(), 4);
    assert_ne!(first.player_id(), second.player_id());
    assert_eq!(command, ServerMessage::Connect { id: first.player_id().clone() });
}

#[test]
fn ping_is_answered_with_its_payload() {
    let (mut connection, _) = Connection::with_id("ann".to_string(), 0);
    assert_eq!(connection.on_frame(Frame::Ping(vec![1, 2, 3]), 1), FrameAction::Pong(vec![1, 2, 3]));
}

#[test]
fn any_frame_counts_as_activity() {
    let (mut connection, _) = Connection::with_id("ann".to_string(), 0);
    assert_eq!(connection.on_frame(Frame::Pong(vec![]), 9), FrameAction::Nothing);
    assert_eq!(connection.on_tick(19), TickAction::Ping);
    assert_eq!(connection.on_frame(Frame::Other, 19), FrameAction::Nothing);
    assert_eq!(connection.on_tick(29), TickAction::Ping);
    assert_eq!(connection.on_tick(30), TickAction::Terminate(disconnect("ann")));
}

#[test]
fn text_frames_are_forwarded_or_dropped() {
    let (mut connection, _) = Connection::with_id("ann".to_string(), 0);
    let join = WsMessage {
        message_type: "join".to_string(),
        player: Some("ann".to_string()),
        game_id: Some("g1".to_string()),
        position: None,
    };
    assert_eq!(
        connection.on_frame(Frame::Text(Some(join.clone())), 1),
        FrameAction::Forward(ServerMessage::JoinGame { player_id: "ann".to_string(), game_id: "g1".to_string() })
    );
    let odd = WsMessage { message_type: "dance".to_string(), ..join };
    assert_eq!(connection.on_frame(Frame::Text(Some(odd)), 2), FrameAction::Dropped);
    assert_eq!(connection.on_frame(Frame::Text(None), 3), FrameAction::Dropped);
    assert!(!connection.is_closed());
}

#[test]
fn close_frame_disconnects_once() {
    let (mut connection, _) = Connection::with_id("ann".to_string(), 0);
    assert_eq!(connection.on_frame(Frame::Close, 1), FrameAction::Terminate(disconnect("ann")));
    assert!(connection.is_closed());
    assert_eq!(connection.on_frame(Frame::Close, 2), FrameAction::Nothing);
    assert_eq!(connection.on_frame(Frame::Ping(vec![9]), 2), FrameAction::Nothing);
    assert_eq!(connection.on_tick(100), TickAction::Stopped);
    assert_eq!(connection.on_shutdown(), None);
}

#[test]
fn timeout_disconnects_once() {
    let (mut connection, _) = Connection::with_id("ann".to_string(), 0);
    assert_eq!(connection.on_tick(5), TickAction::Ping);
    assert_eq!(connection.on_tick(10), TickAction::Ping);
    assert_eq!(connection.on_tick(15), TickAction::Terminate(disconnect("ann")));
    assert_eq!(connection.on_tick(20), TickAction::Stopped);
    assert_eq!(connection.on_tick(25), TickAction::Stopped);
    assert_eq!(connection.on_shutdown(), None);
}

#[test]
fn end_of_stream_disconnects_once() {
    let (mut connection, _) = Connection::with_id("ann".to_string(), 0);
    assert_eq!(connection.on_shutdown(), Some(disconnect("ann")));
    assert_eq!(connection.on_shutdown(), None);
    assert_eq!(connection.on_tick(5), TickAction::Stopped);
}
