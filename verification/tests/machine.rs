use sipcore::message::{
    CSeq, Header, HostPort, Method, NamedHeader, Request, Response, Role, Transport, Uri, Via,
};
use sipcore::status::StatusCode;
use sipcore::uac::{Effect, TrxState, TrxStateMachine, TIMER_B, TIMER_D, TIMER_M};

fn host(h: &str, port: u16) -> HostPort {
    HostPort { host: h.to_string(), port }
}

fn uri(h: &str, port: u16) -> Uri {
    Uri { user: None, host_with_port: host(h, port) }
}

fn invite() -> Request {
    Request {
        method: Method::Invite,
        uri: uri("192.0.2.9", 5060),
        headers: vec![
            Header::Via(Via {
                sent_by: host("127.0.0.1", 5060),
                branch: "z9hG4bK-inv".to_string(),
                transport: Transport::Udp,
            }),
            Header::From(NamedHeader { uri: uri("127.0.0.1", 5060), tag: Some("ft".to_string()) }),
            Header::To(NamedHeader { uri: uri("192.0.2.9", 5060), tag: None }),
            Header::CallId("call-inv".to_string()),
            Header::CSeq(CSeq { seq: 1, method: Method::Invite }),
        ],
    }
}

fn response(code: u16) -> Response {
    Response {
        code: StatusCode::from(code),
        headers: vec![
            Header::Via(Via {
                sent_by: host("127.0.0.1", 5060),
                branch: "z9hG4bK-inv".to_string(),
                transport: Transport::Udp,
            }),
            Header::From(NamedHeader { uri: uri("127.0.0.1", 5060), tag: Some("ft".to_string()) }),
            Header::To(NamedHeader { uri: uri("192.0.2.9", 5060), tag: Some("tt".to_string()) }),
            Header::CallId("call-inv".to_string()),
            Header::CSeq(CSeq { seq: 1, method: Method::Invite }),
        ],
    }
}

fn ack_count(effects: &[Effect]) -> usize {
    effects.iter().filter(|e| matches!(e, Effect::SendAck(_))).count()
}

#[test]
fn a_new_machine_is_calling_and_active() {
    let m = TrxStateMachine::new(invite(), 0).unwrap();
    assert!(matches!(m.state, TrxState::Calling(_)));
    assert!(m.is_active());
    assert_eq!(m.id.branch, "z9hG4bK-inv");
    assert_eq!(m.id.method, Method::Invite);
}

#[test]
fn a_request_without_via_is_refused() {
    let req = Request { method: Method::Invite, uri: uri("192.0.2.9", 5060), headers: vec![] };
    assert!(TrxStateMachine::new(req, 0).is_err());
}

#[test]
fn retransmissions_double_until_t2() {
    let mut m = TrxStateMachine::new(invite(), 0).unwrap();
    // Too early: nothing happens.
    let effects = m.next(None, 499);
    assert!(effects.is_empty());
    // T1 after entry: the first retransmission.
    let effects = m.next(None, 500);
    assert_eq!(effects.len(), 1);
    assert!(matches!(effects[0], Effect::SendRequest(_)));
    // The next is due 2·T1 later, not T1 later.
    let effects = m.next(None, 900);
    assert!(effects.is_empty());
    let effects = m.next(None, 1500);
    assert_eq!(effects.len(), 1);
    assert!(matches!(effects[0], Effect::SendRequest(_)));
}

#[test]
fn timer_b_terminates_a_silent_call() {
    let mut m = TrxStateMachine::new(invite(), 0).unwrap();
    let effects = m.next(None, TIMER_B - 1);
    assert!(effects.len() <= 1);
    assert!(m.is_active());
    let effects = m.next(None, TIMER_B);
    assert!(effects.is_empty());
    assert!(matches!(m.state, TrxState::Terminated(_)));
    assert!(!m.is_active());
}

#[test]
fn ringing_then_ok_reaches_accepted_and_times_out_by_timer_m() {
    let mut m = TrxStateMachine::new(invite(), 0).unwrap();
    // The 180 at T1/2 suppresses the retransmission due at T1.
    let effects = m.next(Some(response(180)), 250);
    assert_eq!(effects.len(), 1);
    assert!(matches!(effects[0], Effect::NotifyTu(_)));
    assert!(matches!(m.state, TrxState::Proceeding(_)));
    let effects = m.next(None, 600);
    assert!(effects.is_empty());
    // The 200 accepts the transaction.
    let effects = m.next(Some(response(200)), 1000);
    assert_eq!(effects.len(), 1);
    assert!(matches!(effects[0], Effect::NotifyTu(_)));
    assert!(matches!(m.state, TrxState::Accepted(_)));
    // A 200 retransmission is forwarded again and absorbed.
    let effects = m.next(Some(response(200)), 1400);
    assert_eq!(effects.len(), 1);
    assert!(matches!(effects[0], Effect::NotifyTu(_)));
    assert!(matches!(m.state, TrxState::Accepted(_)));
    // Timer M, counted from entering Accepted, terminates it.
    let effects = m.next(None, 1000 + TIMER_M - 1);
    assert!(effects.is_empty());
    assert!(m.is_active());
    let effects = m.next(None, 1000 + TIMER_M);
    assert!(effects.is_empty());
    assert!(matches!(m.state, TrxState::Terminated(_)));
}

#[test]
fn busy_here_completes_with_exactly_one_ack_per_final_response() {
    let mut m = TrxStateMachine::new(invite(), 0).unwrap();
    let effects = m.next(Some(response(486)), 700);
    assert_eq!(effects.len(), 2);
    assert!(matches!(effects[0], Effect::NotifyTu(_)));
    assert_eq!(ack_count(&effects), 1);
    match &effects[1] {
        Effect::SendAck(ack) => {
            assert_eq!(ack.method, Method::Ack);
            assert_eq!(ack.uri.host_with_port.host, "192.0.2.9");
            // The ACK takes its To, tag included, from the response.
            let to = ack.headers.iter().find_map(|h| match h {
                Header::To(n) => Some(n),
                _ => None,
            });
            assert_eq!(to.unwrap().tag.as_deref(), Some("tt"));
            // The CSeq keeps the number, with the method ACK.
            let cseq = ack.headers.iter().find_map(|h| match h {
                Header::CSeq(c) => Some(*c),
                _ => None,
            });
            assert_eq!(cseq.unwrap(), CSeq { seq: 1, method: Method::Ack });
        },
        other => panic!("expected an ACK effect, got {:?}", other),
    }
    assert!(matches!(m.state, TrxState::Completed(_)));
    // One more 486 retransmission: forwarded to the TU again so it may
    // observe the duplicate, answered with exactly one more ACK, and
    // the machine stays Completed.
    let effects = m.next(Some(response(486)), 1700);
    assert_eq!(effects.len(), 2);
    assert!(matches!(effects[0], Effect::NotifyTu(_)));
    assert_eq!(ack_count(&effects), 1);
    assert!(matches!(m.state, TrxState::Completed(_)));
    // Timer D, counted from entering Completed, terminates it.
    let effects = m.next(None, 700 + TIMER_D);
    assert!(effects.is_empty());
    assert!(matches!(m.state, TrxState::Terminated(_)));
}

#[test]
fn terminal_states_absorb_everything() {
    let mut m = TrxStateMachine::new(invite(), 0).unwrap();
    let _ = m.next(None, TIMER_B);
    assert!(matches!(m.state, TrxState::Terminated(_)));
    let effects = m.next(Some(response(486)), TIMER_B + 10);
    assert!(effects.is_empty());
    assert!(matches!(m.state, TrxState::Terminated(_)));
    m.transport_error("socket closed".to_string(), TIMER_B + 20);
    assert!(matches!(m.state, TrxState::Terminated(_)));
}

#[test]
fn a_transport_error_moves_an_active_machine_to_errored() {
    let mut m = TrxStateMachine::new(invite(), 0).unwrap();
    m.transport_error("socket closed".to_string(), 10);
    assert!(matches!(m.state, TrxState::Errored(_)));
    assert!(!m.is_active());
    assert_eq!(m.state.name(), "Errored");
}

#[test]
fn an_unexpected_response_errors_the_machine() {
    let mut m = TrxStateMachine::new(invite(), 0).unwrap();
    let _ = m.next(Some(response(200)), 100);
    assert!(matches!(m.state, TrxState::Accepted(_)));
    // A provisional response has no transition out of Accepted.
    let effects = m.next(Some(response(180)), 200);
    assert!(effects.is_empty());
    assert!(matches!(m.state, TrxState::Errored(_)));
}

#[test]
fn a_retransmitted_request_keeps_its_transaction_id() {
    let original = invite();
    let retransmit = original.clone();
    let a = original.transaction_id(Role::Uac).unwrap();
    let b = retransmit.transaction_id(Role::Uac).unwrap();
    assert!(a.matches(&b));
}

#[test]
fn an_ack_matches_its_invite_transaction() {
    let m = TrxStateMachine::new(invite(), 0).unwrap();
    let mut m2 = TrxStateMachine::new(invite(), 0).unwrap();
    let effects = m2.next(Some(response(486)), 700);
    let ack = match &effects[1] {
        Effect::SendAck(ack) => ack.clone(),
        other => panic!("expected an ACK effect, got {:?}", other),
    };
    let ack_id = ack.transaction_id(Role::Uac).unwrap();
    assert!(ack_id.matches(&m.id));
    assert_eq!(ack_id.method, Method::Invite);
}
