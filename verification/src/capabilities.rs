//! Capability probing: the OPTIONS handler. The server answers 486
//! Busy Here — reachable, but declining calls — after checking that the
//! request names the endpoint it answers for.

use vstd::prelude::*;

use crate::errors::Error;
use crate::message::{
    call_id_of, cseq_of, from_of, spec_call_id, spec_cseq, spec_from, spec_to, spec_via, to_of,
    via_of, Header, HostPort, Method, Request, RequestMsg, Response, ResponseMsg, Uri,
};
use crate::presets::{core_headers_present, fresh_token, tagged_to};
use crate::status::StatusCode;

verus! {

/// Whether the URI names the endpoint this server answers for.
pub open spec fn is_default_request_uri(uri: Uri) -> bool {
    uri.host_with_port.host@ == "127.0.0.1"@ && uri.host_with_port.port == 5060
}

/// The endpoint this server answers for.
pub fn default_request_uri() -> (r: HostPort)
    ensures
        r.host@ == "127.0.0.1"@,
        r.port == 5060,
{
    HostPort { host: String::from_str("127.0.0.1"), port: 5060 }
}

/// Accepts a request URI exactly when it names the server's endpoint.
pub fn has_correct_request_uri(request_uri: &Uri) -> (r: Result<(), Error>)
    ensures
        r is Ok <==> is_default_request_uri(*request_uri),
        r is Err ==> r->Err_0.kind is Internal,
{
    let d = default_request_uri();
    if request_uri.host_with_port.host.eq(&d.host) && request_uri.host_with_port.port == d.port {
        Ok(())
    } else {
        Err(Error::custom(String::from_str("invalid request uri")))
    }
}

/// The checks every inbound request must pass before it is served.
pub fn apply_default_checks(request: &Request) -> (r: Result<(), Error>)
    ensures
        r is Ok <==> is_default_request_uri(request.uri),
        r is Err ==> r->Err_0.kind is Internal,
{
    has_correct_request_uri(&request.uri)
}

/// The headers of a 486 Busy Here, in order: the request's Via, tagged
/// To, From, Call-ID and CSeq, an empty Content-Length, the Server
/// token, and the advertised capabilities.
pub open spec fn busy_headers(
    req_hs: Seq<Header>,
    tag: String,
    accept: String,
    enc: String,
    lang: String,
) -> Seq<Header> {
    seq![
        Header::Via(spec_via(req_hs).unwrap()),
        Header::To(tagged_to(spec_to(req_hs).unwrap(), tag)),
        Header::From(spec_from(req_hs).unwrap()),
        Header::CallId(spec_call_id(req_hs).unwrap()),
        Header::CSeq(spec_cseq(req_hs).unwrap()),
        Header::ContentLength(0u32),
        Header::Server,
        Header::Allow,
        Header::Accept(accept),
        Header::AcceptEncoding(enc),
        Header::AcceptLanguage(lang),
    ]
}

/// The shape of a 486 Busy Here answer to an OPTIONS request: the
/// echoed headers with some To tag — a fresh 36-character token when
/// the request's To had none — and the fixed capability headers.
pub open spec fn is_busy_here_response(resp: Response, req_hs: Seq<Header>) -> bool {
    &&& resp.code == StatusCode::BusyHere
    &&& exists|tag: String, accept: String, enc: String, lang: String|
        #![trigger busy_headers(req_hs, tag, accept, enc, lang)]
        resp.headers@ == busy_headers(req_hs, tag, accept, enc, lang) && accept@
            == "application/sdp"@ && enc@ == "gzip"@ && lang@ == "en"@ && (spec_to(
            req_hs,
        ).unwrap().tag is None ==> tag@.len() == 36)
}

/// The 486 Busy Here answering an OPTIONS request; any other method is
/// an internal misuse, and a request missing a header to echo is a
/// parse error.
pub fn create_busy_here_from(request: Request) -> (r: Result<Response, Error>)
    ensures
        match r {
            Ok(resp) => request.method == Method::Options && core_headers_present(request.headers@)
                && is_busy_here_response(resp, request.headers@),
            Err(e) => ({
                ||| request.method != Method::Options && e.kind is Internal
                ||| request.method == Method::Options && !core_headers_present(request.headers@)
                    && e.kind is Parse
            }),
        },
{
    if request.method != Method::Options {
        return Err(Error::custom(String::from_str("the capability probe answers OPTIONS only")));
    }
    let via = match via_of(&request.headers) {
        Ok(v) => v,
        Err(e) => {
            return Err(e);
        },
    };
    let from = match from_of(&request.headers) {
        Ok(n) => n,
        Err(e) => {
            return Err(e);
        },
    };
    let to = match to_of(&request.headers) {
        Ok(n) => n,
        Err(e) => {
            return Err(e);
        },
    };
    let call_id = match call_id_of(&request.headers) {
        Ok(s) => s,
        Err(e) => {
            return Err(e);
        },
    };
    let cseq = match cseq_of(&request.headers) {
        Ok(c) => c,
        Err(e) => {
            return Err(e);
        },
    };
    let tag = fresh_token();
    let ghost tag_g = tag;
    let to_tagged = match &to.tag {
        Some(_) => to.clone(),
        None => crate::message::NamedHeader { uri: to.uri.clone(), tag: Some(tag) },
    };
    let accept = String::from_str("application/sdp");
    let enc = String::from_str("gzip");
    let lang = String::from_str("en");
    let ghost accept_g = accept;
    let ghost enc_g = enc;
    let ghost lang_g = lang;
    proof {
        reveal_strlit("application/sdp");
        reveal_strlit("gzip");
        reveal_strlit("en");
    }
    let mut hs: Vec<Header> = Vec::new();
    hs.push(Header::Via(via.clone()));
    hs.push(Header::To(to_tagged));
    hs.push(Header::From(from.clone()));
    hs.push(Header::CallId(call_id.clone()));
    hs.push(Header::CSeq(*cseq));
    hs.push(Header::ContentLength(0));
    hs.push(Header::Server);
    hs.push(Header::Allow);
    hs.push(Header::Accept(accept));
    hs.push(Header::AcceptEncoding(enc));
    hs.push(Header::AcceptLanguage(lang));
    assert(hs@ =~= busy_headers(request.headers@, tag_g, accept_g, enc_g, lang_g));
    Ok(Response { code: StatusCode::BusyHere, headers: hs })
}

/// The OPTIONS capability handler.
#[derive(Debug)]
pub struct Capabilities {}

impl Capabilities {
    /// A capability handler.
    pub fn new() -> Self {
        Capabilities {  }
    }

    /// The answer to an inbound OPTIONS request: a 486 Busy Here to the
    /// peer the request came from, once the request URI names this
    /// server's endpoint.
    pub fn process_incoming_request(&self, msg: RequestMsg) -> (r: Result<ResponseMsg, Error>)
        ensures
            match r {
                Ok(out) => is_default_request_uri(msg.sip_request.uri) && msg.sip_request.method
                    == Method::Options && core_headers_present(msg.sip_request.headers@)
                    && is_busy_here_response(out.sip_response, msg.sip_request.headers@)
                    && out.peer == msg.peer && out.transport == msg.transport,
                Err(e) => ({
                    ||| !is_default_request_uri(msg.sip_request.uri) && e.kind is Internal
                    ||| is_default_request_uri(msg.sip_request.uri) && msg.sip_request.method
                        != Method::Options && e.kind is Internal
                    ||| is_default_request_uri(msg.sip_request.uri) && msg.sip_request.method
                        == Method::Options && !core_headers_present(msg.sip_request.headers@)
                        && e.kind is Parse
                }),
            },
    {
        match apply_default_checks(&msg.sip_request) {
            Ok(()) => (),
            Err(e) => {
                return Err(e);
            },
        };
        let response = match create_busy_here_from(msg.sip_request.clone()) {
            Ok(resp) => resp,
            Err(e) => {
                return Err(e);
            },
        };
        Ok(ResponseMsg { sip_response: response, peer: msg.peer, transport: msg.transport })
    }
}

} // verus!
