use session_core::gate::AdmissionGate;
use session_core::messages::{echo_response, greeting, Inbound, Outbound};
use session_core::register::ActiveCountRegister;
use session_core::responses::{health_response, rejection_response};
use session_core::session::{LoopDecision, SessionEvent, SessionSupervisor};

fn establish(
    gate: &mut AdmissionGate,
    register: &mut ActiveCountRegister,
) -> (SessionSupervisor, String) {
    let mut supervisor =
        SessionSupervisor::try_admit(gate, register).expect("a free slot was expected");
    supervisor.upgrade_completed();
    let greeting_message = supervisor.take_greeting();
    (supervisor, greeting_message)
}

#[test]
fn admitted_session_gets_one_greeting_before_any_echo() {
    let mut gate = AdmissionGate::new(2);
    let mut register = ActiveCountRegister::new();
    let (mut supervisor, greeting_message) = establish(&mut gate, &mut register);

    // The greeting is the fixed one, and it arrives before any echo: the
    // first echo can only be produced by an event handled afterwards.
    assert_eq!(greeting_message, "Connected to WebSocket server");
    assert_eq!(greeting_message, greeting());

    let decision = supervisor.handle_event(SessionEvent::Message(Inbound::Text(
        "first".to_string(),
    )));
    match decision {
        LoopDecision::Reply(Outbound::Text(reply)) => assert_eq!(reply, "Echo: first"),
        _ => panic!("a text message must be answered with an echo"),
    }
}

#[test]
fn echo_embeds_the_received_text() {
    assert_eq!(echo_response("hello"), "Echo: hello");
    assert!(echo_response("hello").contains("hello"));
    assert_eq!(echo_response(""), "Echo: ");
    // Deterministic: the same input yields the same response.
    assert_eq!(echo_response("again"), echo_response("again"));
}

#[test]
fn binary_message_is_accounted_without_reply() {
    let mut gate = AdmissionGate::new(1);
    let mut register = ActiveCountRegister::new();
    let (mut supervisor, _) = establish(&mut gate, &mut register);
    let decision = supervisor.handle_event(SessionEvent::Message(Inbound::Binary(vec![1, 2, 3])));
    assert!(matches!(decision, LoopDecision::Continue));
}

#[test]
fn liveness_frames_are_left_to_the_transport() {
    let mut gate = AdmissionGate::new(1);
    let mut register = ActiveCountRegister::new();
    let (mut supervisor, _) = establish(&mut gate, &mut register);
    // The transport answers liveness frames itself; the supervisor only
    // keeps the loop running.
    let on_ping = supervisor.handle_event(SessionEvent::Message(Inbound::Ping(vec![7, 8])));
    assert!(matches!(on_ping, LoopDecision::Continue));
}

#[test]
fn pong_continues_the_loop() {
    let mut gate = AdmissionGate::new(1);
    let mut register = ActiveCountRegister::new();
    let (mut supervisor, _) = establish(&mut gate, &mut register);
    let decision = supervisor.handle_event(SessionEvent::Message(Inbound::Pong(vec![])));
    assert!(matches!(decision, LoopDecision::Continue));
}

#[test]
fn peer_close_terminates_and_count_drops() {
    let mut gate = AdmissionGate::new(1);
    let mut register = ActiveCountRegister::new();
    let (mut supervisor, _) = establish(&mut gate, &mut register);
    assert_eq!(register.read(), 1);

    let decision = supervisor.handle_event(SessionEvent::Message(Inbound::Close));
    assert!(matches!(decision, LoopDecision::Terminate));

    supervisor.terminate(&mut gate, &mut register);
    assert_eq!(register.read(), 0);
}

#[test]
fn transport_error_and_end_of_stream_terminate() {
    let mut gate = AdmissionGate::new(2);
    let mut register = ActiveCountRegister::new();
    let (mut supervisor_a, _) = establish(&mut gate, &mut register);
    let (mut supervisor_b, _) = establish(&mut gate, &mut register);
    assert!(matches!(
        supervisor_a.handle_event(SessionEvent::TransportError),
        LoopDecision::Terminate
    ));
    assert!(matches!(
        supervisor_b.handle_event(SessionEvent::EndOfStream),
        LoopDecision::Terminate
    ));
}

#[test]
fn keepalive_emits_probe_and_keeps_session_open() {
    let mut gate = AdmissionGate::new(1);
    let mut register = ActiveCountRegister::new();
    let (mut supervisor, _) = establish(&mut gate, &mut register);

    // No inbound traffic: only the keepalive signal fires. A probe goes
    // out and the session stays open.
    let decision = supervisor.handle_event(SessionEvent::KeepaliveTick);
    assert!(matches!(decision, LoopDecision::Reply(Outbound::Ping)));
    let keep_going = supervisor.on_send_result(true);
    assert!(keep_going);

    // Still open: the session goes on handling events.
    let later = supervisor.handle_event(SessionEvent::KeepaliveTick);
    assert!(matches!(later, LoopDecision::Reply(Outbound::Ping)));
    assert_eq!(register.read(), 1);
}

#[test]
fn failed_send_ends_the_loop() {
    let mut gate = AdmissionGate::new(1);
    let mut register = ActiveCountRegister::new();
    let (mut supervisor, _) = establish(&mut gate, &mut register);
    let decision = supervisor.handle_event(SessionEvent::KeepaliveTick);
    assert!(matches!(decision, LoopDecision::Reply(Outbound::Ping)));
    assert!(!supervisor.on_send_result(false));
    supervisor.terminate(&mut gate, &mut register);
    assert_eq!(register.read(), 0);
}

#[test]
fn upgrade_failure_cleans_up() {
    let mut gate = AdmissionGate::new(1);
    let mut register = ActiveCountRegister::new();
    let mut supervisor =
        SessionSupervisor::try_admit(&mut gate, &mut register).expect("a free slot was expected");
    assert_eq!(register.read(), 1);
    // The upgrade failed: no greeting, straight to the cleanup path.
    supervisor.terminate(&mut gate, &mut register);
    assert_eq!(register.read(), 0);
    assert!(gate.try_acquire());
}

#[test]
fn capacity_one_rejects_second_connection() {
    let mut gate = AdmissionGate::new(1);
    let mut register = ActiveCountRegister::new();

    // Connection A is admitted; the count is 1.
    let (mut supervisor_a, _) = establish(&mut gate, &mut register);
    assert_eq!(register.read(), 1);

    // Connection B is attempted while A is open: denied, and the raw
    // connection gets the fixed rejection response (never upgraded).
    let refused = SessionSupervisor::try_admit(&mut gate, &mut register);
    assert!(refused.is_none());
    assert_eq!(register.read(), 1);
    let body = rejection_response(1);
    assert_eq!(
        body,
        "HTTP/1.1 503 Service Unavailable\r\nContent-Type: text/plain\r\nContent-Length: 48\r\nConnection: close\r\n\r\nMaximum concurrent connections limit reached (1)"
    );

    // Close A: the count returns to 0.
    supervisor_a.terminate(&mut gate, &mut register);
    assert_eq!(register.read(), 0);

    // A new connection C is now admitted.
    let admitted_c = SessionSupervisor::try_admit(&mut gate, &mut register);
    assert!(admitted_c.is_some());
    assert_eq!(register.read(), 1);
}

#[test]
fn rejection_names_the_configured_capacity() {
    assert_eq!(
        rejection_response(10),
        "HTTP/1.1 503 Service Unavailable\r\nContent-Type: text/plain\r\nContent-Length: 49\r\nConnection: close\r\n\r\nMaximum concurrent connections limit reached (10)"
    );
    assert_eq!(
        rejection_response(123),
        "HTTP/1.1 503 Service Unavailable\r\nContent-Type: text/plain\r\nContent-Length: 50\r\nConnection: close\r\n\r\nMaximum concurrent connections limit reached (123)"
    );
    // The declared content length is the body's length.
    let response = rejection_response(7);
    let split = response.find("\r\n\r\n").expect("a header/body separator");
    let body = &response[split + 4..];
    assert!(response.contains(&format!("Content-Length: {}", body.len())));
}

#[test]
fn health_endpoint_answer_is_fixed() {
    assert_eq!(
        health_response(),
        "HTTP/1.1 200 OK\r\nContent-Type: text/plain\r\nContent-Length: 2\r\nConnection: close\r\n\r\nOK"
    );
}
