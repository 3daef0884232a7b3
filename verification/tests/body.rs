use mechanics_http_server::body::{
    BodyPhase, BodyStep, BodyYield, ReceiveOutcome, RequestBodyState,
};
use mechanics_http_server::H3RequestBodyError;

#[test]
fn body_reads_data_until_end() {
    let mut state = RequestBodyState::new();
    assert!(!state.is_end_stream());
    assert!(state.holds_stream());

    assert_eq!(state.next_step(), BodyStep::StartReceive);
    assert!(!state.holds_stream());
    assert_eq!(state.next_step(), BodyStep::PollReceive);
    assert_eq!(state.on_received(ReceiveOutcome::Data), BodyYield::Frame);
    assert_eq!(state.phase(), BodyPhase::ReadingData);
    assert!(state.holds_stream());

    assert_eq!(state.next_step(), BodyStep::StartReceive);
    assert_eq!(state.on_received(ReceiveOutcome::End), BodyYield::End);
    assert!(state.is_end_stream());
    assert_eq!(state.next_step(), BodyStep::Finished);
    assert_eq!(state.next_step(), BodyStep::Finished);
}

#[test]
fn body_error_ends_body() {
    let mut state = RequestBodyState::new();
    assert_eq!(state.next_step(), BodyStep::StartReceive);
    assert_eq!(state.on_received(ReceiveOutcome::Failed), BodyYield::Error);
    assert_eq!(state.phase(), BodyPhase::Done);
    assert!(state.holds_stream());
    assert_eq!(state.next_step(), BodyStep::Finished);
}

#[test]
fn body_error_message() {
    let e = H3RequestBodyError::Stream("reset".to_owned());
    assert_eq!(e.message(), "HTTP/3 request body failed: reset");
}
