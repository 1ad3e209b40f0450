use echo_server::client::ClientAction;
use echo_server::client::ClientEvent;
use echo_server::client::ClientPhase;
use echo_server::client::ClientSession;
use echo_server::display::request_display;
use echo_server::display::response_display;
use echo_server::handler::handle_connection;
use echo_server::handler::HandlerAction;
use echo_server::handler::ReadOutcome;
use echo_server::listener::listener_step;
use echo_server::listener::HandlerOutcome;
use echo_server::listener::ListenerEvent;
use echo_server::mode::invalid_selection_message;
use echo_server::mode::select_mode;
use echo_server::mode::trim_bytes;
use echo_server::mode::StartupMode;
use echo_server::server_endpoint;
use echo_server::wire::build_request;
use echo_server::wire::server_reply;
use echo_server::RECV_BUFFER_LEN;

const FIXED_REPLY: &[u8] = b"Hello, World!";

#[test]
fn fixed_reply_bytes() {
    assert_eq!(server_reply(), FIXED_REPLY.to_vec());
}

#[test]
fn endpoint_is_fixed_loopback() {
    assert_eq!(server_endpoint(), "127.0.0.1:3000");
    assert_eq!(RECV_BUFFER_LEN, 1024);
}

#[test]
fn request_is_prefix_plus_message() {
    assert_eq!(
        build_request(b"ping"),
        b"Hello from the client!. Message ping".to_vec()
    );
    assert_eq!(
        build_request(b""),
        b"Hello from the client!. Message ".to_vec()
    );
}

fn reply_to(payload: &[u8]) -> Vec<u8> {
    match handle_connection(&ReadOutcome::Data(payload.to_vec())) {
        HandlerAction::Reply(r) => r,
        HandlerAction::NoReply => panic!("a payload must draw a reply"),
    }
}

#[test]
fn any_payload_draws_the_fixed_reply() {
    assert_eq!(reply_to(b"x"), FIXED_REPLY.to_vec());
    assert_eq!(reply_to(b"Hello from the client!. Message ping"), FIXED_REPLY.to_vec());
    assert_eq!(reply_to(&[0u8; 1024]), FIXED_REPLY.to_vec());
    assert_eq!(reply_to(&[0xFFu8, 0x00u8, 0x7Fu8]), FIXED_REPLY.to_vec());
}

#[test]
fn closed_peer_draws_no_write() {
    assert!(matches!(
        handle_connection(&ReadOutcome::Closed),
        HandlerAction::NoReply
    ));
}

#[test]
fn failed_read_draws_no_write() {
    assert!(matches!(
        handle_connection(&ReadOutcome::Failed),
        HandlerAction::NoReply
    ));
}

#[test]
fn distinct_payloads_no_crosstalk() {
    let payloads: Vec<Vec<u8>> = (0u8..50u8)
        .map(|k| {
            let mut p = b"Hello from the client!. Message client ".to_vec();
            p.push(b'0' + k % 10);
            p.push(k);
            p
        })
        .collect();
    let replies: Vec<Vec<u8>> = payloads.iter().map(|p| reply_to(p)).collect();
    for r in &replies {
        assert_eq!(*r, FIXED_REPLY.to_vec());
    }
}

#[test]
fn listener_spawns_and_keeps_accepting_on_accept() {
    let d = listener_step(&ListenerEvent::Accepted);
    assert!(d.spawn_handler);
    assert!(d.keep_accepting);
}

#[test]
fn listener_stops_on_accept_failure() {
    let d = listener_step(&ListenerEvent::AcceptFailed);
    assert!(!d.keep_accepting);
}

#[test]
fn listener_survives_every_handler_outcome() {
    let outcomes = [
        HandlerOutcome::PeerClosed,
        HandlerOutcome::Replied,
        HandlerOutcome::ReadFailed,
        HandlerOutcome::WriteFailed,
    ];
    for o in outcomes {
        let d = listener_step(&ListenerEvent::HandlerFinished(o));
        assert!(d.keep_accepting);
        assert!(!d.spawn_handler);
    }
}

#[test]
fn trim_removes_surrounding_blanks() {
    assert_eq!(trim_bytes(b"  hi there \r\n"), b"hi there".to_vec());
    assert_eq!(trim_bytes(b"\t\n \r"), Vec::<u8>::new());
    assert_eq!(trim_bytes(b""), Vec::<u8>::new());
    assert_eq!(trim_bytes(b"x"), b"x".to_vec());
}

#[test]
fn selection_one_is_server() {
    assert_eq!(select_mode(b"1"), StartupMode::Server);
    assert_eq!(select_mode(b" 1\n"), StartupMode::Server);
}

#[test]
fn selection_two_is_client() {
    assert_eq!(select_mode(b"2"), StartupMode::Client);
    assert_eq!(select_mode(b"2\r\n"), StartupMode::Client);
}

#[test]
fn other_selections_are_invalid() {
    assert_eq!(select_mode(b"3"), StartupMode::Invalid);
    assert_eq!(select_mode(b""), StartupMode::Invalid);
    assert_eq!(select_mode(b"12"), StartupMode::Invalid);
    assert_eq!(select_mode(b"1 2"), StartupMode::Invalid);
    assert_eq!(select_mode(b"server"), StartupMode::Invalid);
    assert_eq!(
        invalid_selection_message(),
        "Invalid selection. Please enter 1 for Server or 2 for Client."
    );
}

#[test]
fn display_lines_decode_payloads() {
    assert_eq!(
        request_display(b"Hello from the client!. Message ping"),
        "Received Request: Hello from the client!. Message ping"
    );
    assert_eq!(response_display(FIXED_REPLY), "Received response: Hello, World!");
    assert_eq!(request_display(b""), "Received Request: ");
}

#[test]
fn display_replaces_invalid_sequences() {
    assert_eq!(
        response_display(&[0xFFu8, 0xFEu8]),
        "Received response: \u{FFFD}\u{FFFD}"
    );
    assert_eq!(
        request_display(&[b'a', 0x80u8, b'b']),
        "Received Request: a\u{FFFD}b"
    );
}

#[test]
fn client_session_happy_path() {
    let mut s = ClientSession::new(b"ping".to_vec());
    assert_eq!(s.phase, ClientPhase::Init);

    assert!(s.fits(&ClientEvent::ConnectOk));
    let req = match s.step(ClientEvent::ConnectOk) {
        ClientAction::Send(req) => req,
        _ => panic!("a fresh connection must send the request"),
    };
    assert_eq!(req, b"Hello from the client!. Message ping".to_vec());
    assert_eq!(s.phase, ClientPhase::Connected);

    assert!(s.fits(&ClientEvent::SendOk));
    assert!(matches!(s.step(ClientEvent::SendOk), ClientAction::Recv));
    assert_eq!(s.phase, ClientPhase::Sent);

    assert!(s.fits(&ClientEvent::RecvOk(FIXED_REPLY.to_vec())));
    let reply = match s.step(ClientEvent::RecvOk(FIXED_REPLY.to_vec())) {
        ClientAction::Report(b) => b,
        _ => panic!("a received reply must be reported"),
    };
    assert_eq!(reply, FIXED_REPLY.to_vec());
    assert_eq!(s.phase, ClientPhase::Closed);
}

#[test]
fn client_failures_are_fatal() {
    let mut s = ClientSession::new(b"a".to_vec());
    assert!(matches!(s.step(ClientEvent::ConnectFailed), ClientAction::Abort));
    assert_eq!(s.phase, ClientPhase::Closed);

    let mut s = ClientSession::new(b"a".to_vec());
    let _ = s.step(ClientEvent::ConnectOk);
    assert!(matches!(s.step(ClientEvent::SendFailed), ClientAction::Abort));
    assert_eq!(s.phase, ClientPhase::Closed);

    let mut s = ClientSession::new(b"a".to_vec());
    let _ = s.step(ClientEvent::ConnectOk);
    let _ = s.step(ClientEvent::SendOk);
    assert!(matches!(s.step(ClientEvent::RecvFailed), ClientAction::Abort));
    assert_eq!(s.phase, ClientPhase::Closed);
}

#[test]
fn events_fit_only_their_phase() {
    let s = ClientSession::new(b"a".to_vec());
    assert!(s.fits(&ClientEvent::ConnectOk));
    assert!(s.fits(&ClientEvent::ConnectFailed));
    assert!(!s.fits(&ClientEvent::SendOk));
    assert!(!s.fits(&ClientEvent::RecvFailed));

    let mut s = ClientSession::new(b"a".to_vec());
    let _ = s.step(ClientEvent::ConnectOk);
    assert!(s.fits(&ClientEvent::SendOk));
    assert!(!s.fits(&ClientEvent::ConnectOk));
    assert!(!s.fits(&ClientEvent::RecvOk(Vec::new())));
}

#[test]
fn end_to_end_exchange() {
    // Startup: the operator picks the server on one process and the
    // client on another.
    assert_eq!(select_mode(b"1\n"), StartupMode::Server);
    assert_eq!(select_mode(b"2\n"), StartupMode::Client);

    // Client side: the operator types `ping`; the session asks to send
    // the formatted wire payload.
    let mut session = ClientSession::new(trim_bytes(b"ping\n"));
    let wire_payload = match session.step(ClientEvent::ConnectOk) {
        ClientAction::Send(req) => req,
        _ => panic!("a fresh connection must send the request"),
    };
    assert_eq!(wire_payload, b"Hello from the client!. Message ping".to_vec());

    // Server side: the handler logs the receipt and replies.
    assert_eq!(
        request_display(&wire_payload),
        "Received Request: Hello from the client!. Message ping"
    );
    let reply = match handle_connection(&ReadOutcome::Data(wire_payload)) {
        HandlerAction::Reply(r) => r,
        HandlerAction::NoReply => panic!("a payload must draw a reply"),
    };
    assert_eq!(reply, b"Hello, World!".to_vec());

    // Client side: the reply comes back and is printed.
    assert!(matches!(session.step(ClientEvent::SendOk), ClientAction::Recv));
    let reported = match session.step(ClientEvent::RecvOk(reply)) {
        ClientAction::Report(b) => b,
        _ => panic!("a received reply must be reported"),
    };
    assert_eq!(response_display(&reported), "Received response: Hello, World!");
}
