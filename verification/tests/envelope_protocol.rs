use multi_agent_file_processor::envelope::{envelope_for, AgentResponse, ResponderSession};

#[test]
fn envelope_success_wraps_value() {
    let e = envelope_for::<u32>(Ok(5));
    match e {
        AgentResponse::Success(v) => assert_eq!(v, 5),
        AgentResponse::Error(_) => panic!("a successful outcome must become Success"),
    }
}

#[test]
fn envelope_error_wraps_message() {
    let e = envelope_for::<u32>(Err("boom".to_string()));
    match e {
        AgentResponse::Success(_) => panic!("a failed outcome must become Error"),
        AgentResponse::Error(m) => assert_eq!(m, "boom"),
    }
}

#[test]
fn envelope_round_trip_success() {
    let e = envelope_for::<String>(Ok("fine".to_string()));
    assert_eq!(e.into_result(), Ok("fine".to_string()));
}

#[test]
fn envelope_round_trip_error() {
    let e = envelope_for::<String>(Err("downstream failed".to_string()));
    assert_eq!(e.into_result(), Err("downstream failed".to_string()));
}

#[test]
fn responder_session_replies_exactly_once() {
    let mut session = ResponderSession::accept();
    let e = session.reply::<u32>(Err("handler raised".to_string()));
    assert!(matches!(e, AgentResponse::Error(_)));
    session.finish();
}
