use sipcore::message::{
    CSeq, Header, HostPort, Method, NamedHeader, Request, RequestMsg, Response, ResponseMsg,
    SipMessage, Transport, TransportMsg, Uri, Via,
};
use sipcore::presets::{create_404_from, create_405_from, create_unauthorized_from};
use sipcore::status::StatusCode;

fn host(h: &str, port: u16) -> HostPort {
    HostPort { host: h.to_string(), port }
}

fn uri(h: &str, port: u16) -> Uri {
    Uri { user: None, host_with_port: host(h, port) }
}

fn headers(to_tag: Option<&str>) -> Vec<Header> {
    vec![
        Header::Via(Via {
            sent_by: host("192.0.2.1", 5062),
            branch: "z9hG4bK-m".to_string(),
            transport: Transport::Udp,
        }),
        Header::From(NamedHeader { uri: uri("192.0.2.1", 5062), tag: Some("ft".to_string()) }),
        Header::To(NamedHeader { uri: uri("127.0.0.1", 5060), tag: to_tag.map(|t| t.to_string()) }),
        Header::CallId("call-m".to_string()),
        Header::CSeq(CSeq { seq: 9, method: Method::Register }),
    ]
}

fn request() -> Request {
    Request { method: Method::Register, uri: uri("127.0.0.1", 5060), headers: headers(None) }
}

#[test]
fn the_envelope_reports_its_payload_kind() {
    let msg = TransportMsg::from((
        SipMessage::Request(request()),
        host("192.0.2.1", 5062),
        Transport::Udp,
    ));
    assert!(msg.is_request());
    let resp = Response { code: StatusCode::OK, headers: headers(Some("tt")) };
    let msg = TransportMsg::from((
        SipMessage::Response(resp),
        host("192.0.2.1", 5062),
        Transport::Udp,
    ));
    assert!(!msg.is_request());
}

#[test]
fn narrowed_envelopes_convert_to_the_general_one() {
    let req_msg = RequestMsg {
        sip_request: request(),
        peer: host("192.0.2.1", 5062),
        transport: Transport::Udp,
    };
    let msg = TransportMsg::from(req_msg);
    assert!(msg.is_request());
    let resp_msg = ResponseMsg {
        sip_response: Response { code: StatusCode::OK, headers: headers(Some("tt")) },
        peer: host("192.0.2.1", 5062),
        transport: Transport::Udp,
    };
    let msg = TransportMsg::from(resp_msg);
    assert!(!msg.is_request());
}

#[test]
fn the_transaction_id_collapses_ack_to_invite() {
    let mut hs = headers(None);
    hs[4] = Header::CSeq(CSeq { seq: 9, method: Method::Ack });
    let msg = TransportMsg::from((
        SipMessage::Request(Request { method: Method::Ack, uri: uri("127.0.0.1", 5060), headers: hs }),
        host("192.0.2.1", 5062),
        Transport::Udp,
    ));
    let id = msg.transaction_id().unwrap().unwrap();
    assert_eq!(id.method, Method::Invite);
    assert_eq!(id.branch, "z9hG4bK-m");
    assert_eq!(id.host, "192.0.2.1");
    assert_eq!(id.port, 5062);
}

#[test]
fn the_dialog_id_orients_tags_by_message_kind() {
    // For an inbound request the local tag is the To tag.
    let msg = TransportMsg::from((
        SipMessage::Request(Request {
            method: Method::Register,
            uri: uri("127.0.0.1", 5060),
            headers: headers(Some("tt")),
        }),
        host("192.0.2.1", 5062),
        Transport::Udp,
    ));
    let d = msg.dialog_id().unwrap();
    assert_eq!(d.call_id, "call-m");
    assert_eq!(d.local_tag.as_deref(), Some("tt"));
    assert_eq!(d.remote_tag.as_deref(), Some("ft"));
    // For an inbound response the local tag is the From tag.
    let msg = TransportMsg::from((
        SipMessage::Response(Response { code: StatusCode::OK, headers: headers(Some("tt")) }),
        host("192.0.2.1", 5062),
        Transport::Udp,
    ));
    let d = msg.dialog_id().unwrap();
    assert_eq!(d.local_tag.as_deref(), Some("ft"));
    assert_eq!(d.remote_tag.as_deref(), Some("tt"));
}

#[test]
fn a_message_without_via_has_no_transaction_id() {
    let req = Request {
        method: Method::Register,
        uri: uri("127.0.0.1", 5060),
        headers: vec![Header::CallId("x".to_string())],
    };
    let msg = TransportMsg::from((
        SipMessage::Request(req),
        host("192.0.2.1", 5062),
        Transport::Udp,
    ));
    assert!(msg.transaction_id().is_err());
}

fn assert_echoed_prefix(resp: &Response) {
    assert!(matches!(&resp.headers[0], Header::Via(v) if v.branch == "z9hG4bK-m"));
    assert!(matches!(&resp.headers[1], Header::From(f) if f.tag.as_deref() == Some("ft")));
    assert!(matches!(&resp.headers[2], Header::To(t) if t.tag.as_ref().is_some_and(|x| x.len() == 36)));
    assert!(matches!(&resp.headers[3], Header::CallId(c) if c == "call-m"));
    assert!(matches!(&resp.headers[4], Header::CSeq(c) if c.seq == 9));
    assert!(matches!(&resp.headers[5], Header::ContentLength(0)));
    assert!(matches!(&resp.headers[6], Header::Server));
}

#[test]
fn the_404_echoes_the_request_and_adds_a_tag() {
    let resp = create_404_from(request()).unwrap();
    assert_eq!(resp.code, StatusCode::NotFound);
    assert_eq!(resp.headers.len(), 7);
    assert_echoed_prefix(&resp);
}

#[test]
fn the_405_adds_the_allow_list_to_the_echo() {
    let resp = create_405_from(request()).unwrap();
    assert_eq!(resp.code, StatusCode::MethodNotAllowed);
    assert_eq!(resp.headers.len(), 8);
    assert_echoed_prefix(&resp);
    assert!(matches!(&resp.headers[7], Header::Allow));
}

#[test]
fn an_existing_to_tag_is_kept_not_replaced() {
    let req = Request {
        method: Method::Register,
        uri: uri("127.0.0.1", 5060),
        headers: headers(Some("kept")),
    };
    let resp = create_404_from(req).unwrap();
    assert!(matches!(&resp.headers[2], Header::To(t) if t.tag.as_deref() == Some("kept")));
}

#[test]
fn the_challenge_carries_realm_and_a_fresh_nonce() {
    let resp = create_unauthorized_from(request()).unwrap();
    assert_eq!(resp.code, StatusCode::Unauthorized);
    assert_eq!(resp.headers.len(), 8);
    match &resp.headers[7] {
        Header::WwwAuthenticate(ch) => {
            assert_eq!(ch.realm, "127.0.0.1");
            assert_eq!(ch.nonce.len(), 36);
        },
        other => panic!("expected a challenge, got {:?}", other),
    }
}

#[test]
fn a_preset_for_a_bare_request_is_refused() {
    let req = Request { method: Method::Register, uri: uri("127.0.0.1", 5060), headers: vec![] };
    assert!(create_404_from(req).is_err());
}

#[test]
fn the_allow_list_names_every_method() {
    let methods = sipcore::message::allowed_methods();
    assert_eq!(methods.len(), 14);
    assert!(methods.contains(&Method::Invite));
    assert!(methods.contains(&Method::Register));
    assert!(methods.contains(&Method::Options));
    assert_eq!(methods[0], Method::Ack);
    assert_eq!(methods[13], Method::Update);
}
