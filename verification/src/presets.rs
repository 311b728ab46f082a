//! Response presets: the composed responses the transaction user sends,
//! each echoing the request's Via, From, To (with a tag added when it
//! has none), Call-ID and CSeq, with an empty body.

use vstd::prelude::*;

use crate::errors::Error;
use crate::message::{
    call_id_of, cseq_of, from_of, spec_call_id, spec_cseq, spec_from, spec_to, spec_via, to_of,
    via_of, Challenge, Header, NamedHeader, Request, Response,
};
use crate::status::StatusCode;

verus! {

/// Relies on uuid::Uuid::new_v4 and its hyphenated Display form: a
/// fresh random token of 36 ASCII characters.
#[verifier::external_body]
pub(crate) fn fresh_token() -> (r: String)
    ensures
        r@.len() == 36,
{
    uuid::Uuid::new_v4().to_string()
}

/// The digest realm advertised in challenges.
pub open spec fn realm_text() -> Seq<char> {
    "127.0.0.1"@
}

/// Whether the headers every preset echoes are all present.
pub open spec fn core_headers_present(hs: Seq<Header>) -> bool {
    &&& spec_via(hs) is Some
    &&& spec_from(hs) is Some
    &&& spec_to(hs) is Some
    &&& spec_call_id(hs) is Some
    &&& spec_cseq(hs) is Some
}

/// The To header augmented with the given tag when it has none.
pub open spec fn tagged_to(to: NamedHeader, tag: String) -> NamedHeader {
    if to.tag is Some {
        to
    } else {
        NamedHeader { uri: to.uri, tag: Some(tag) }
    }
}

/// The headers every preset response carries, in order: the request's
/// Via, From, tagged To, Call-ID and CSeq, then an empty Content-Length
/// and the Server token.
pub open spec fn echo_headers(req_hs: Seq<Header>, tag: String) -> Seq<Header> {
    seq![
        Header::Via(spec_via(req_hs).unwrap()),
        Header::From(spec_from(req_hs).unwrap()),
        Header::To(tagged_to(spec_to(req_hs).unwrap(), tag)),
        Header::CallId(spec_call_id(req_hs).unwrap()),
        Header::CSeq(spec_cseq(req_hs).unwrap()),
        Header::ContentLength(0u32),
        Header::Server,
    ]
}

/// The shape of a plain preset response: the echoed headers with some
/// To tag — a fresh 36-character token when the request's To had none —
/// and the given status code.
pub open spec fn is_preset_response(resp: Response, req_hs: Seq<Header>, code: StatusCode) -> bool {
    &&& resp.code == code
    &&& exists|tag: String|
        #![trigger echo_headers(req_hs, tag)]
        resp.headers@ == echo_headers(req_hs, tag) && (spec_to(req_hs).unwrap().tag is None
            ==> tag@.len() == 36)
}

/// The To header of the request, augmented with the given tag when it
/// has none.
fn tag_to(to: &NamedHeader, tag: String) -> (r: NamedHeader)
    ensures
        r == tagged_to(*to, tag),
{
    match &to.tag {
        Some(_) => to.clone(),
        None => NamedHeader { uri: to.uri.clone(), tag: Some(tag) },
    }
}

/// The echoed header prefix of a preset response for the request, with
/// the given To tag; a parse error when a header to echo is missing.
fn echoed_headers_of(request: &Request, tag: String) -> (r: Result<Vec<Header>, Error>)
    ensures
        match r {
            Ok(hs) => core_headers_present(request.headers@) && hs@ == echo_headers(
                request.headers@,
                tag,
            ),
            Err(e) => !core_headers_present(request.headers@) && e.kind is Parse,
        },
{
    let via = match via_of(&request.headers) {
        Ok(v) => v,
        Err(e) => {
            return Err(e);
        },
    };
    let from = match from_of(&request.headers) {
        Ok(n) => n,
        Err(e) => {
            return Err(e);
        },
    };
    let to = match to_of(&request.headers) {
        Ok(n) => n,
        Err(e) => {
            return Err(e);
        },
    };
    let call_id = match call_id_of(&request.headers) {
        Ok(s) => s,
        Err(e) => {
            return Err(e);
        },
    };
    let cseq = match cseq_of(&request.headers) {
        Ok(c) => c,
        Err(e) => {
            return Err(e);
        },
    };
    let mut hs: Vec<Header> = Vec::new();
    hs.push(Header::Via(via.clone()));
    hs.push(Header::From(from.clone()));
    hs.push(Header::To(tag_to(to, tag)));
    hs.push(Header::CallId(call_id.clone()));
    hs.push(Header::CSeq(*cseq));
    hs.push(Header::ContentLength(0));
    hs.push(Header::Server);
    assert(hs@ =~= echo_headers(request.headers@, tag));
    Ok(hs)
}

/// The preset response to the request with the given status code and
/// To tag.
pub fn build_preset_from(request: &Request, code: StatusCode, tag: String) -> (r: Result<
    Response,
    Error,
>)
    ensures
        match r {
            Ok(resp) => core_headers_present(request.headers@) && resp.code == code
                && resp.headers@ == echo_headers(request.headers@, tag),
            Err(e) => !core_headers_present(request.headers@) && e.kind is Parse,
        },
{
    let headers = match echoed_headers_of(request, tag) {
        Ok(hs) => hs,
        Err(e) => {
            return Err(e);
        },
    };
    Ok(Response { code, headers })
}

/// A 404 Not Found echoing the request.
pub fn create_404_from(request: Request) -> (r: Result<Response, Error>)
    ensures
        match r {
            Ok(resp) => core_headers_present(request.headers@) && is_preset_response(
                resp,
                request.headers@,
                StatusCode::NotFound,
            ),
            Err(e) => !core_headers_present(request.headers@) && e.kind is Parse,
        },
{
    let tag = fresh_token();
    build_preset_from(&request, StatusCode::NotFound, tag)
}

/// The shape of a 405 answer: a preset response followed by an Allow
/// header enumerating the supported methods.
pub open spec fn is_method_not_allowed_response(resp: Response, req_hs: Seq<Header>) -> bool {
    &&& resp.code == StatusCode::MethodNotAllowed
    &&& exists|tag: String|
        #![trigger echo_headers(req_hs, tag)]
        resp.headers@ == echo_headers(req_hs, tag).push(Header::Allow) && (spec_to(
            req_hs,
        ).unwrap().tag is None ==> tag@.len() == 36)
}

/// A 405 Method Not Allowed echoing the request, with Allow naming the
/// supported methods.
pub fn create_405_from(request: Request) -> (r: Result<Response, Error>)
    ensures
        match r {
            Ok(resp) => core_headers_present(request.headers@) && is_method_not_allowed_response(
                resp,
                request.headers@,
            ),
            Err(e) => !core_headers_present(request.headers@) && e.kind is Parse,
        },
{
    let tag = fresh_token();
    let ghost tag_g = tag;
    let mut headers = match echoed_headers_of(&request, tag) {
        Ok(hs) => hs,
        Err(e) => {
            return Err(e);
        },
    };
    headers.push(Header::Allow);
    assert(headers@ =~= echo_headers(request.headers@, tag_g).push(Header::Allow));
    Ok(Response { code: StatusCode::MethodNotAllowed, headers })
}

/// The shape of a 401 challenge: a preset response followed by one
/// WWW-Authenticate header carrying the advertised realm and a fresh
/// 36-character nonce.
pub open spec fn is_unauthorized_response(resp: Response, req_hs: Seq<Header>) -> bool {
    &&& resp.code == StatusCode::Unauthorized
    &&& exists|tag: String, ch: Challenge|
        #![trigger echo_headers(req_hs, tag).push(Header::WwwAuthenticate(ch))]
        resp.headers@ == echo_headers(req_hs, tag).push(Header::WwwAuthenticate(ch))
            && ch.realm@ == realm_text() && ch.nonce@.len() == 36 && (spec_to(
            req_hs,
        ).unwrap().tag is None ==> tag@.len() == 36)
}

/// The 401 challenge to the request with the given To tag and nonce.
pub fn build_unauthorized_from(request: &Request, tag: String, nonce: String) -> (r: Result<
    Response,
    Error,
>)
    ensures
        match r {
            Ok(resp) => ({
                &&& core_headers_present(request.headers@)
                &&& resp.code == StatusCode::Unauthorized
                &&& resp.headers@.len() == 8
                &&& resp.headers@.subrange(0, 7) == echo_headers(request.headers@, tag)
                &&& resp.headers@[7] is WwwAuthenticate
                &&& resp.headers@[7]->WwwAuthenticate_0.realm@ == realm_text()
                &&& resp.headers@[7]->WwwAuthenticate_0.nonce == nonce
            }),
            Err(e) => !core_headers_present(request.headers@) && e.kind is Parse,
        },
{
    let mut headers = match echoed_headers_of(request, tag) {
        Ok(hs) => hs,
        Err(e) => {
            return Err(e);
        },
    };
    let realm = String::from_str("127.0.0.1");
    headers.push(Header::WwwAuthenticate(Challenge { realm, nonce }));
    assert(headers@.subrange(0, 7) =~= echo_headers(request.headers@, tag));
    Ok(Response { code: StatusCode::Unauthorized, headers })
}

/// A 401 challenge echoing the request, with a fresh nonce.
pub fn create_unauthorized_from(request: Request) -> (r: Result<Response, Error>)
    ensures
        match r {
            Ok(resp) => core_headers_present(request.headers@) && is_unauthorized_response(
                resp,
                request.headers@,
            ),
            Err(e) => !core_headers_present(request.headers@) && e.kind is Parse,
        },
{
    let tag = fresh_token();
    let nonce = fresh_token();
    let ghost tag_spec = tag;
    let r = build_unauthorized_from(&request, tag, nonce);
    match r {
        Ok(resp) => {
            proof {
                let ch = resp.headers@[7]->WwwAuthenticate_0;
                assert(resp.headers@ =~= echo_headers(request.headers@, tag_spec).push(
                    Header::WwwAuthenticate(ch),
                ));
            }
            Ok(resp)
        },
        Err(e) => Err(e),
    }
}

} // verus!
