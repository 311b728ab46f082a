use sipcore::message::{
    CSeq, Header, HostPort, Method, NamedHeader, Request, Response, Transport, Uri, Via,
};
use sipcore::status::StatusCode;
use sipcore::transaction_layer::TransactionLayer;
use sipcore::uac::{Effect, TrxState, TIMER_B};

fn host(h: &str, port: u16) -> HostPort {
    HostPort { host: h.to_string(), port }
}

fn uri(h: &str, port: u16) -> Uri {
    Uri { user: None, host_with_port: host(h, port) }
}

fn headers(branch: &str, to_tag: Option<&str>) -> Vec<Header> {
    vec![
        Header::Via(Via {
            sent_by: host("127.0.0.1", 5060),
            branch: branch.to_string(),
            transport: Transport::Udp,
        }),
        Header::From(NamedHeader { uri: uri("127.0.0.1", 5060), tag: Some("ft".to_string()) }),
        Header::To(NamedHeader { uri: uri("192.0.2.9", 5060), tag: to_tag.map(|t| t.to_string()) }),
        Header::CallId("call-l".to_string()),
        Header::CSeq(CSeq { seq: 1, method: Method::Invite }),
    ]
}

fn invite(branch: &str) -> Request {
    Request { method: Method::Invite, uri: uri("192.0.2.9", 5060), headers: headers(branch, None) }
}

fn response(branch: &str, code: u16) -> Response {
    Response { code: StatusCode::from(code), headers: headers(branch, Some("tt")) }
}

#[test]
fn a_sent_request_creates_one_machine_and_goes_out() {
    let mut layer = TransactionLayer::new();
    let effects = layer.send_request(invite("z9hG4bK-a"), 0).unwrap();
    assert_eq!(effects.len(), 1);
    assert!(matches!(&effects[0], Effect::SendRequest(r) if r.method == Method::Invite));
    assert_eq!(layer.len(), 1);
    // The same identifier cannot be in flight twice.
    let err = layer.send_request(invite("z9hG4bK-a"), 1).unwrap_err();
    assert!(matches!(err.kind, sipcore::ErrorKind::Internal(_)));
    assert_eq!(layer.len(), 1);
    // A different branch is a different transaction.
    layer.send_request(invite("z9hG4bK-b"), 2).unwrap();
    assert_eq!(layer.len(), 2);
}

#[test]
fn responses_are_routed_by_branch_and_strays_are_counted() {
    let mut layer = TransactionLayer::new();
    layer.send_request(invite("z9hG4bK-a"), 0).unwrap();
    layer.send_request(invite("z9hG4bK-b"), 0).unwrap();
    // The 486 reaches only the first machine.
    let effects = layer.process_response(response("z9hG4bK-a", 486), 100).unwrap();
    assert_eq!(effects.len(), 2);
    assert!(matches!(layer.machines[0].state, TrxState::Completed(_)));
    assert!(matches!(layer.machines[1].state, TrxState::Calling(_)));
    // A response matching no machine is dropped and counted.
    let effects = layer.process_response(response("z9hG4bK-zz", 200), 200).unwrap();
    assert!(effects.is_empty());
    assert_eq!(layer.dropped, 1);
    // A response without a Via cannot be matched at all.
    let bare = Response { code: StatusCode::OK, headers: vec![] };
    assert!(layer.process_response(bare, 300).is_err());
}

#[test]
fn ticking_fires_timers_and_eviction_removes_dead_machines() {
    let mut layer = TransactionLayer::new();
    layer.send_request(invite("z9hG4bK-a"), 0).unwrap();
    layer.send_request(invite("z9hG4bK-b"), 0).unwrap();
    // Answer the second so it survives the timeout of the first.
    layer.process_response(response("z9hG4bK-b", 180), 10).unwrap();
    // Timer B silences the first machine.
    let n = layer.len();
    for k in 0..n {
        let _ = layer.tick_at(k, TIMER_B);
    }
    assert!(matches!(layer.machines[0].state, TrxState::Terminated(_)));
    assert!(matches!(layer.machines[1].state, TrxState::Proceeding(_)));
    layer.evict();
    assert_eq!(layer.len(), 1);
    assert!(matches!(layer.machines[0].state, TrxState::Proceeding(_)));
    assert_eq!(layer.machines[0].id.branch, "z9hG4bK-b");
}
