use sipcore::message::{
    Authorization, CSeq, Header, HostPort, Method, NamedHeader, Request, RequestMsg, Transport,
    Uri, Via,
};
use sipcore::status::StatusCode;
use sipcore::tu::Tu;

fn host(h: &str, port: u16) -> HostPort {
    HostPort { host: h.to_string(), port }
}

fn uri(h: &str, port: u16) -> Uri {
    Uri { user: None, host_with_port: host(h, port) }
}

fn base_headers(method: Method) -> Vec<Header> {
    vec![
        Header::Via(Via {
            sent_by: host("192.0.2.1", 5062),
            branch: "z9hG4bK-1".to_string(),
            transport: Transport::Udp,
        }),
        Header::From(NamedHeader { uri: uri("192.0.2.1", 5062), tag: Some("ft".to_string()) }),
        Header::To(NamedHeader { uri: uri("127.0.0.1", 5060), tag: None }),
        Header::CallId("call-1".to_string()),
        Header::CSeq(CSeq { seq: 1, method }),
    ]
}

fn request(method: Method, target_host: &str) -> Request {
    Request { method, uri: uri(target_host, 5060), headers: base_headers(method) }
}

fn envelope(req: Request) -> RequestMsg {
    RequestMsg { sip_request: req, peer: host("192.0.2.1", 5062), transport: Transport::Udp }
}

fn md5_hex(s: &str) -> String {
    format!("{:x}", md5::compute(s.as_bytes()))
}

fn register_digest(username: &str, nonce: &str, digest_uri: &str) -> String {
    let ha1 = md5_hex(&format!("{}:127.0.0.1:123123123", username));
    let ha2 = md5_hex(&format!("REGISTER:{}", digest_uri));
    md5_hex(&format!("{}:{}:{}", ha1, nonce, ha2))
}

fn register_request(auth: Option<Authorization>) -> Request {
    let mut headers = base_headers(Method::Register);
    headers.push(Header::Contact(NamedHeader { uri: uri("192.0.2.1", 5062), tag: None }));
    if let Some(a) = auth {
        headers.push(Header::Authorization(a));
    }
    Request { method: Method::Register, uri: uri("127.0.0.1", 5060), headers }
}

fn find_challenge(headers: &[Header]) -> Option<(&str, &str)> {
    headers.iter().find_map(|h| match h {
        Header::WwwAuthenticate(c) => Some((c.realm.as_str(), c.nonce.as_str())),
        _ => None,
    })
}

#[test]
fn options_to_this_server_is_answered_busy_here() {
    let mut tu = Tu::new();
    let out = tu.process_request(envelope(request(Method::Options, "127.0.0.1")), 0).unwrap();
    let resp = out.sip_response;
    assert_eq!(resp.code, StatusCode::BusyHere);
    // Via echoed, To first and tagged, From echoed.
    assert!(matches!(&resp.headers[0], Header::Via(v) if v.branch == "z9hG4bK-1"));
    match &resp.headers[1] {
        Header::To(to) => {
            let tag = to.tag.as_ref().expect("the answer adds a To tag");
            assert_eq!(tag.len(), 36);
        },
        other => panic!("expected To, got {:?}", other),
    }
    assert!(matches!(&resp.headers[2], Header::From(f) if f.tag.as_deref() == Some("ft")));
    assert!(matches!(&resp.headers[3], Header::CallId(c) if c == "call-1"));
    assert!(matches!(&resp.headers[4], Header::CSeq(c) if c.seq == 1));
    assert!(matches!(&resp.headers[5], Header::ContentLength(0)));
    assert!(matches!(&resp.headers[6], Header::Server));
    assert!(matches!(&resp.headers[7], Header::Allow));
    assert!(matches!(&resp.headers[8], Header::Accept(a) if a == "application/sdp"));
    assert!(matches!(&resp.headers[9], Header::AcceptEncoding(e) if e == "gzip"));
    assert!(matches!(&resp.headers[10], Header::AcceptLanguage(l) if l == "en"));
    assert_eq!(resp.headers.len(), 11);
    // The answer goes back to the peer the request came from.
    assert_eq!(out.peer.host, "192.0.2.1");
    assert_eq!(out.peer.port, 5062);
}

#[test]
fn options_for_another_host_is_answered_not_found() {
    let mut tu = Tu::new();
    let out = tu.process_request(envelope(request(Method::Options, "10.0.0.2")), 0).unwrap();
    assert_eq!(out.sip_response.code, StatusCode::NotFound);
    // No transaction-user state was created.
    assert!(tu.registrar.registrations.rows.is_empty());
    assert!(tu.registrar.nonces.is_empty());
}

#[test]
fn an_unsupported_method_is_answered_405_with_allow() {
    let mut tu = Tu::new();
    let out = tu.process_request(envelope(request(Method::Message, "127.0.0.1")), 0).unwrap();
    assert_eq!(out.sip_response.code, StatusCode::MethodNotAllowed);
    // The 405 names what the server does support.
    assert!(out.sip_response.headers.iter().any(|h| matches!(h, Header::Allow)));
}

#[test]
fn register_without_credentials_is_challenged_and_the_nonce_kept() {
    let mut tu = Tu::new();
    let out = tu.process_request(envelope(register_request(None)), 50).unwrap();
    let resp = out.sip_response;
    assert_eq!(resp.code, StatusCode::Unauthorized);
    let (realm, nonce) = find_challenge(&resp.headers).expect("a 401 carries a challenge");
    assert_eq!(realm, "127.0.0.1");
    assert_eq!(nonce.len(), 36);
    // Exactly one nonce row, and it is the challenged one.
    assert_eq!(tu.registrar.nonces.len(), 1);
    assert_eq!(tu.registrar.nonces[0].nonce, nonce);
    assert_eq!(tu.registrar.nonces[0].realm, "127.0.0.1");
    assert_eq!(tu.registrar.nonces[0].created_at, 50);
    // No registration was written.
    assert!(tu.registrar.registrations.rows.is_empty());
}

#[test]
fn register_with_a_valid_digest_registers_once() {
    let mut tu = Tu::new();
    // First pass: the challenge.
    let out = tu.process_request(envelope(register_request(None)), 100).unwrap();
    let nonce = find_challenge(&out.sip_response.headers).unwrap().1.to_string();
    // Second pass: answer the challenge with a valid digest.
    let auth = Authorization {
        username: "alice".to_string(),
        realm: "127.0.0.1".to_string(),
        nonce: nonce.clone(),
        uri: "sip:127.0.0.1".to_string(),
        response: register_digest("alice", &nonce, "sip:127.0.0.1"),
    };
    let out = tu.process_request(envelope(register_request(Some(auth.clone()))), 100).unwrap();
    assert_eq!(out.sip_response.code, StatusCode::OK);
    assert_eq!(tu.registrar.registrations.rows.len(), 1);
    let row = &tu.registrar.registrations.rows[0];
    assert_eq!(row.expires_at, 100 + 3600);
    assert_eq!(row.username, "alice");
    assert_eq!(row.aor.host_with_port.host, "127.0.0.1");
    assert_eq!(row.contact.host_with_port.host, "192.0.2.1");
    let first_id = row.id;
    // Replaying the same REGISTER within the same second leaves a
    // single row with the same identity and expiry.
    let out = tu.process_request(envelope(register_request(Some(auth))), 100).unwrap();
    assert_eq!(out.sip_response.code, StatusCode::OK);
    assert_eq!(tu.registrar.registrations.rows.len(), 1);
    assert_eq!(tu.registrar.registrations.rows[0].id, first_id);
    assert_eq!(tu.registrar.registrations.rows[0].expires_at, 100 + 3600);
}

#[test]
fn register_with_a_wrong_digest_is_challenged_anew() {
    let mut tu = Tu::new();
    let out = tu.process_request(envelope(register_request(None)), 10).unwrap();
    let nonce = find_challenge(&out.sip_response.headers).unwrap().1.to_string();
    let auth = Authorization {
        username: "alice".to_string(),
        realm: "127.0.0.1".to_string(),
        nonce,
        uri: "sip:127.0.0.1".to_string(),
        response: "00000000000000000000000000000000".to_string(),
    };
    let out = tu.process_request(envelope(register_request(Some(auth))), 20).unwrap();
    assert_eq!(out.sip_response.code, StatusCode::Unauthorized);
    // A fresh nonce was minted and kept beside the first.
    assert_eq!(tu.registrar.nonces.len(), 2);
    assert_ne!(tu.registrar.nonces[0].nonce, tu.registrar.nonces[1].nonce);
    assert!(tu.registrar.registrations.rows.is_empty());
}

#[test]
fn an_expires_header_sets_the_registration_lifetime() {
    let mut tu = Tu::new();
    let out = tu.process_request(envelope(register_request(None)), 0).unwrap();
    let nonce = find_challenge(&out.sip_response.headers).unwrap().1.to_string();
    let auth = Authorization {
        username: "bob".to_string(),
        realm: "127.0.0.1".to_string(),
        nonce: nonce.clone(),
        uri: "sip:127.0.0.1".to_string(),
        response: register_digest("bob", &nonce, "sip:127.0.0.1"),
    };
    let mut req = register_request(Some(auth));
    req.headers.push(Header::Expires(60));
    let out = tu.process_request(envelope(req), 1000).unwrap();
    assert_eq!(out.sip_response.code, StatusCode::OK);
    assert_eq!(tu.registrar.registrations.rows[0].expires_at, 1060);
}

#[test]
fn is_authorized_accepts_exactly_the_stored_password() {
    let good = Authorization {
        username: "alice".to_string(),
        realm: "127.0.0.1".to_string(),
        nonce: "abc".to_string(),
        uri: "sip:127.0.0.1".to_string(),
        response: register_digest("alice", "abc", "sip:127.0.0.1"),
    };
    assert_eq!(sipcore::auth::is_authorized(good.clone()).unwrap(), true);
    let bad = Authorization { response: md5_hex("not the digest"), ..good };
    assert_eq!(sipcore::auth::is_authorized(bad).unwrap(), false);
}

#[test]
fn a_request_missing_core_headers_is_a_parse_error() {
    let mut tu = Tu::new();
    let req = Request {
        method: Method::Options,
        uri: uri("127.0.0.1", 5060),
        headers: vec![Header::CallId("x".to_string())],
    };
    let err = tu.process_request(envelope(req), 0).unwrap_err();
    assert!(matches!(err.kind, sipcore::ErrorKind::Parse(_)));
}
