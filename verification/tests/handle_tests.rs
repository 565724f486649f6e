use mini_view_server::handle::{
    ConnectionHandle, HandleAction, HandleEvent, HandleState, CLIENT_TIMEOUT, HEARTBEAT_INTERVAL,
};

fn active_handle(now: i64) -> ConnectionHandle {
    let mut h = ConnectionHandle::new("".to_string(), now);
    let a = h.step(HandleEvent::ConnectResolved { id: "ABCDEFGHIJKLMNOP".to_string() });
    assert_eq!(a, HandleAction::Idle);
    assert_eq!(h.state, HandleState::Active);
    h
}

#[test]
fn heartbeat_constants_match_the_design() {
    assert_eq!(HEARTBEAT_INTERVAL, 5);
    assert_eq!(CLIENT_TIMEOUT, 10);
}

#[test]
fn live_peer_gets_a_probe_each_tick() {
    let mut h = active_handle(0);
    assert_eq!(h.on_heartbeat_tick(5), HandleAction::EmitProbe);
    assert_eq!(h.on_heartbeat_tick(10), HandleAction::EmitProbe);
    assert_eq!(h.state, HandleState::Active);
}

#[test]
fn silent_peer_disconnects_once_without_a_probe() {
    let mut h = active_handle(0);
    assert_eq!(h.on_heartbeat_tick(11), HandleAction::NotifyDisconnect);
    assert_eq!(h.state, HandleState::Closing);
    assert_eq!(h.on_heartbeat_tick(16), HandleAction::Idle);
}

#[test]
fn liveness_signals_postpone_the_timeout() {
    let mut h = active_handle(0);
    assert_eq!(h.step(HandleEvent::PingReceived { now: 8 }), HandleAction::ReplyPong);
    assert_eq!(h.on_heartbeat_tick(15), HandleAction::EmitProbe);
    assert_eq!(h.step(HandleEvent::PongReceived { now: 17 }), HandleAction::Idle);
    assert_eq!(h.on_heartbeat_tick(25), HandleAction::EmitProbe);
    assert_eq!(h.on_heartbeat_tick(28), HandleAction::NotifyDisconnect);
}

#[test]
fn repeated_close_reports_notify_only_once() {
    let mut h = active_handle(0);
    assert_eq!(h.on_heartbeat_tick(20), HandleAction::NotifyDisconnect);
    assert_eq!(h.step(HandleEvent::CloseReceived), HandleAction::Idle);
    assert_eq!(h.step(HandleEvent::CloseReceived), HandleAction::Idle);
    assert_eq!(h.step(HandleEvent::ProtocolError), HandleAction::Idle);
    assert_eq!(h.step(HandleEvent::Stop), HandleAction::Idle);
    assert_eq!(h.state, HandleState::Closed);
}

#[test]
fn transport_close_notifies_once() {
    let mut h = active_handle(0);
    assert_eq!(h.step(HandleEvent::CloseReceived), HandleAction::NotifyDisconnect);
    assert_eq!(h.state, HandleState::Closing);
    assert_eq!(h.step(HandleEvent::Stop), HandleAction::Idle);
    assert_eq!(h.state, HandleState::Closed);
}

#[test]
fn protocol_error_notifies_once() {
    let mut h = active_handle(0);
    assert_eq!(h.step(HandleEvent::ProtocolError), HandleAction::NotifyDisconnect);
    assert_eq!(h.step(HandleEvent::Stop), HandleAction::Idle);
}

#[test]
fn explicit_stop_notifies_once() {
    let mut h = active_handle(0);
    assert_eq!(h.step(HandleEvent::Stop), HandleAction::NotifyDisconnect);
    assert_eq!(h.state, HandleState::Closed);
    assert_eq!(h.step(HandleEvent::Stop), HandleAction::Idle);
}

#[test]
fn connect_failure_closes_the_handle() {
    let mut h = ConnectionHandle::new("".to_string(), 0);
    assert_eq!(h.step(HandleEvent::ConnectFailed), HandleAction::NotifyDisconnect);
    assert_eq!(h.state, HandleState::Closing);
}

#[test]
fn connect_adopts_the_resolved_identity() {
    let mut h = ConnectionHandle::new("".to_string(), 0);
    assert_eq!(h.state, HandleState::Starting);
    h.step(HandleEvent::ConnectResolved { id: "ABCDEFGHIJKLMNOP".to_string() });
    assert_eq!(h.id, "ABCDEFGHIJKLMNOP");
    assert_eq!(h.state, HandleState::Active);
}

#[test]
fn data_frames_are_accepted_and_ignored() {
    let mut h = active_handle(0);
    assert_eq!(h.step(HandleEvent::TextFrame), HandleAction::Idle);
    assert_eq!(h.step(HandleEvent::BinaryFrame), HandleAction::Idle);
    assert_eq!(h.step(HandleEvent::NopFrame), HandleAction::Idle);
    assert_eq!(h.state, HandleState::Active);
}

#[test]
fn continuation_frames_shut_the_handle_down() {
    let mut h = active_handle(0);
    assert_eq!(h.step(HandleEvent::ContinuationReceived), HandleAction::NotifyDisconnect);
    assert_eq!(h.state, HandleState::Closing);
}

#[test]
fn routed_messages_are_forwarded_verbatim() {
    let h = active_handle(0);
    assert_eq!(h.outbound_frame("CmdChangeView Clock".to_string()), "CmdChangeView Clock");
}

#[test]
fn boundary_is_strictly_more_than_timeout() {
    let mut h = active_handle(0);
    assert_eq!(h.on_heartbeat_tick(10), HandleAction::EmitProbe);
    let mut h2 = active_handle(0);
    assert_eq!(h2.on_heartbeat_tick(11), HandleAction::NotifyDisconnect);
}
