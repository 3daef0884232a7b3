use mechanics_http_server::error::ErrorKind;
use mechanics_http_server::serve::{
    accept_loop_polls_joins, accept_loop_step, connection_step, AcceptLoopAction,
    AcceptLoopEvent, ConnectionAction, ConnectionEvent, RequestAction, RequestEvent, RequestFlow,
    RequestPhase,
};
use mechanics_http_server::Error;

fn shutdown(channel_open: bool, requested: bool) -> AcceptLoopAction {
    accept_loop_step(AcceptLoopEvent::ShutdownChanged {
        channel_open,
        requested,
    })
}

#[test]
fn accept_loop_stops_on_shutdown_or_closed_endpoint() {
    assert!(matches!(shutdown(true, true), AcceptLoopAction::StopAccepting));
    assert!(matches!(shutdown(false, false), AcceptLoopAction::StopAccepting));
    assert!(matches!(shutdown(false, true), AcceptLoopAction::StopAccepting));
    assert!(matches!(shutdown(true, false), AcceptLoopAction::Continue));
    assert!(matches!(
        accept_loop_step(AcceptLoopEvent::EndpointClosed),
        AcceptLoopAction::StopAccepting
    ));
}

#[test]
fn accept_loop_spawns_and_keeps_accepting() {
    assert!(matches!(
        accept_loop_step(AcceptLoopEvent::IncomingAccepted),
        AcceptLoopAction::SpawnConnection
    ));
    assert!(matches!(
        accept_loop_step(AcceptLoopEvent::ConnectionJoined),
        AcceptLoopAction::Continue
    ));
    assert!(matches!(
        accept_loop_step(AcceptLoopEvent::IncomingRejected),
        AcceptLoopAction::Continue
    ));
    assert!(!accept_loop_polls_joins(0));
    assert!(accept_loop_polls_joins(3));
}

#[test]
fn incompatible_quic_handshake_does_not_stop_listener() {
    // A client whose handshake the listener cannot complete is refused, either before a
    // connection task starts or by that task; the accept loop keeps going either way, and
    // the next client is served.
    assert!(matches!(
        accept_loop_step(AcceptLoopEvent::IncomingRejected),
        AcceptLoopAction::Continue
    ));
    match connection_step(ConnectionEvent::HandshakeFailed("no ALPN".to_owned())) {
        ConnectionAction::Fail(e) => assert_eq!(e.detail(), "QUIC handshake failed: no ALPN"),
        _ => panic!("expected the connection to fail"),
    }
    assert!(matches!(
        accept_loop_step(AcceptLoopEvent::ConnectionJoined),
        AcceptLoopAction::Continue
    ));
    assert!(matches!(
        accept_loop_step(AcceptLoopEvent::IncomingAccepted),
        AcceptLoopAction::SpawnConnection
    ));
}

#[test]
fn connection_decisions() {
    assert!(matches!(
        connection_step(ConnectionEvent::RequestAccepted),
        ConnectionAction::SpawnRequest
    ));
    assert!(matches!(
        connection_step(ConnectionEvent::PeerClosed),
        ConnectionAction::Drain
    ));
    let cases = [
        (ConnectionEvent::HandshakeFailed("t".to_owned()), "QUIC handshake failed: t"),
        (ConnectionEvent::SetupFailed("s".to_owned()), "HTTP/3 connection failed: s"),
        (ConnectionEvent::AcceptFailed("a".to_owned()), "HTTP/3 accept failed: a"),
    ];
    for (event, expected) in cases {
        match connection_step(event) {
            ConnectionAction::Fail(e) => {
                assert_eq!(e.kind(), ErrorKind::Internal);
                assert_eq!(e.detail(), expected);
            }
            _ => panic!("expected a failure"),
        }
    }
}

fn step(flow: &mut RequestFlow, event: RequestEvent<String>) -> RequestAction<Error> {
    assert!(flow.accepts(&event));
    flow.step(event)
}

#[test]
fn request_flow_serves_streamed_body() {
    let mut flow = RequestFlow::new();
    assert!(matches!(step(&mut flow, RequestEvent::Resolved), RequestAction::AwaitReady));
    assert!(matches!(step(&mut flow, RequestEvent::ServiceReady), RequestAction::CallService));
    assert!(matches!(
        step(&mut flow, RequestEvent::ServiceResponded),
        RequestAction::SendResponse
    ));
    assert!(matches!(step(&mut flow, RequestEvent::HeadersSent), RequestAction::PollBody));
    assert!(matches!(step(&mut flow, RequestEvent::BodyData(0)), RequestAction::PollBody));
    assert!(matches!(step(&mut flow, RequestEvent::BodyData(5)), RequestAction::SendData));
    assert!(matches!(step(&mut flow, RequestEvent::DataSent), RequestAction::PollBody));
    assert!(matches!(step(&mut flow, RequestEvent::BodyTrailers), RequestAction::SendTrailers));
    assert!(matches!(step(&mut flow, RequestEvent::TrailersSent), RequestAction::Finish));
    assert!(matches!(step(&mut flow, RequestEvent::Finished), RequestAction::Complete));
    assert_eq!(flow.phase(), RequestPhase::Complete);
    assert!(!flow.accepts(&RequestEvent::Finished));
}

#[test]
fn request_flow_answers_503_when_not_ready() {
    let mut flow = RequestFlow::new();
    step(&mut flow, RequestEvent::Resolved);
    assert!(matches!(
        step(&mut flow, RequestEvent::ServiceNotReady),
        RequestAction::SendServiceUnavailable
    ));
    assert!(!flow.accepts(&RequestEvent::ServiceResponded));
    assert_eq!(flow.phase(), RequestPhase::SendingUnavailable);
    assert!(matches!(step(&mut flow, RequestEvent::HeadersSent), RequestAction::Finish));
    assert!(!flow.accepts(&RequestEvent::BodyData(4)));
    assert!(!flow.accepts(&RequestEvent::BodyEnd));
    assert!(matches!(step(&mut flow, RequestEvent::Finished), RequestAction::Complete));
}

#[test]
fn request_flow_failures_name_their_stage() {
    let mut flow = RequestFlow::new();
    match step(&mut flow, RequestEvent::ResolveFailed("gone".to_owned())) {
        RequestAction::Fail(e) => {
            assert_eq!(e.kind(), ErrorKind::Internal);
            assert_eq!(e.detail(), "HTTP/3 request resolution failed: gone");
        }
        _ => panic!("expected a failure"),
    }
    assert_eq!(flow.phase(), RequestPhase::Failed);

    let mut flow = RequestFlow::new();
    step(&mut flow, RequestEvent::Resolved);
    step(&mut flow, RequestEvent::ServiceReady);
    match step(&mut flow, RequestEvent::ServiceFailed("bug".to_owned())) {
        RequestAction::Fail(e) => assert_eq!(e.detail(), "HTTP/3 service failed: bug"),
        _ => panic!("expected a failure"),
    }

    let mut flow = RequestFlow::new();
    step(&mut flow, RequestEvent::Resolved);
    step(&mut flow, RequestEvent::ServiceReady);
    step(&mut flow, RequestEvent::ServiceResponded);
    match step(&mut flow, RequestEvent::HeadersFailed("h".to_owned())) {
        RequestAction::Fail(e) => assert_eq!(e.detail(), "HTTP/3 response headers failed: h"),
        _ => panic!("expected a failure"),
    }

    let mut flow = RequestFlow::new();
    step(&mut flow, RequestEvent::Resolved);
    step(&mut flow, RequestEvent::ServiceReady);
    step(&mut flow, RequestEvent::ServiceResponded);
    step(&mut flow, RequestEvent::HeadersSent);
    step(&mut flow, RequestEvent::BodyData(3));
    match step(&mut flow, RequestEvent::DataFailed("d".to_owned())) {
        RequestAction::Fail(e) => assert_eq!(e.detail(), "HTTP/3 response body failed: d"),
        _ => panic!("expected a failure"),
    }

    let mut flow = RequestFlow::new();
    step(&mut flow, RequestEvent::Resolved);
    step(&mut flow, RequestEvent::ServiceReady);
    step(&mut flow, RequestEvent::ServiceResponded);
    step(&mut flow, RequestEvent::HeadersSent);
    step(&mut flow, RequestEvent::BodyEnd);
    match step(&mut flow, RequestEvent::FinishFailed("f".to_owned())) {
        RequestAction::Fail(e) => assert_eq!(e.detail(), "HTTP/3 response finish failed: f"),
        _ => panic!("expected a failure"),
    }
}

#[test]
fn request_flow_refuses_out_of_order_events() {
    let flow = RequestFlow::new();
    assert!(!flow.accepts(&RequestEvent::ServiceReady));
    assert!(!flow.accepts(&RequestEvent::BodyData(1)));
    assert!(flow.accepts(&RequestEvent::Resolved));
}
