//! The transaction user: REGISTER handling with digest authentication,
//! OPTIONS capability probing, 404 for a request URI this server does
//! not answer for, and 405 for any other method.

use vstd::prelude::*;

use crate::auth::{is_authorized, register_digest, stored_password};
use crate::capabilities::{is_busy_here_response, is_default_request_uri, Capabilities};
use crate::errors::Error;
use crate::message::{
    authorization_of, contact_of, expires_of, spec_authorization, spec_contact, spec_expires,
    spec_to, to_of, Header, Method, Request, RequestMsg, ResponseMsg, Response, Transport,
};
use crate::presets::{
    build_preset_from, build_unauthorized_from, core_headers_present, create_404_from,
    create_405_from, fresh_token, is_method_not_allowed_response, is_preset_response,
    is_unauthorized_response, realm_text,
};
use crate::registration::{
    registration_table_wf, spec_upsert, AuthNonce, Registration, RegistrationTable,
};
use crate::status::StatusCode;

verus! {

/// The registration lifetime granted when a REGISTER names none, in
/// seconds.
pub const DEFAULT_EXPIRES: u32 = 3600;

/// The registrar: the registration table and the nonces outstanding
/// for digest challenges. The nonce rows record what was challenged;
/// digest verification checks the offered answer against the stored
/// password alone and does not look the offered nonce up or consume
/// the row.
#[derive(Debug)]
pub struct Registrar {
    pub registrations: RegistrationTable,
    pub nonces: Vec<AuthNonce>,
    pub next_nonce_id: i64,
}

/// The registrar's invariant.
pub open spec fn registrar_wf(r: Registrar) -> bool {
    &&& registration_table_wf(r.registrations)
    &&& 1 <= r.next_nonce_id
}

/// Whether the Authorization offered in the headers proves knowledge
/// of the stored password.
pub open spec fn offer_authorized(hs: Seq<Header>) -> bool {
    &&& spec_authorization(hs) is Some
    &&& spec_authorization(hs).unwrap().response@ == register_digest(
        spec_authorization(hs).unwrap(),
        stored_password(),
    )
}

/// The registration lifetime a REGISTER asks for: its Expires header,
/// or the default.
pub open spec fn requested_expiry(hs: Seq<Header>) -> u32 {
    match spec_expires(hs) {
        Some(e) => e,
        None => DEFAULT_EXPIRES,
    }
}

/// The row a successful REGISTER writes: the To URI registered at the
/// Contact URI until `now` plus the requested lifetime.
pub open spec fn registration_of(req: Request, now: u64, id: i64) -> Registration {
    Registration {
        id,
        aor: spec_to(req.headers@).unwrap().uri,
        contact: spec_contact(req.headers@).unwrap().uri,
        expires_at: (now + requested_expiry(req.headers@)) as u64,
        transport: Transport::Udp,
        username: spec_authorization(req.headers@).unwrap().username,
    }
}

/// What answering with a challenge did: a 401 carrying a fresh nonce,
/// and that same nonce persisted as one new row; registrations are
/// untouched.
pub open spec fn challenged_rel(
    pre: Registrar,
    post: Registrar,
    hs: Seq<Header>,
    now: u64,
    resp: Response,
) -> bool {
    &&& is_unauthorized_response(resp, hs)
    &&& resp.headers@.len() == 8
    &&& resp.headers@[7] is WwwAuthenticate
    &&& post.nonces@.len() == pre.nonces@.len() + 1
    &&& post.nonces@ == pre.nonces@.push(post.nonces@.last())
    &&& post.nonces@.last().nonce == resp.headers@[7]->WwwAuthenticate_0.nonce
    &&& post.nonces@.last().realm@ == realm_text()
    &&& post.nonces@.last().created_at == now
    &&& post.nonces@.last().id == pre.next_nonce_id
    &&& post.next_nonce_id == pre.next_nonce_id + 1
    &&& post.registrations == pre.registrations
}

/// What a successful REGISTER did: a 200 answer, and the binding
/// upserted; nonces are untouched.
pub open spec fn registered_rel(
    pre: Registrar,
    post: Registrar,
    req: Request,
    now: u64,
    resp: Response,
) -> bool {
    &&& is_preset_response(resp, req.headers@, StatusCode::OK)
    &&& spec_contact(req.headers@) is Some
    &&& post.registrations.rows@ == spec_upsert(
        pre.registrations.rows@,
        registration_of(req, now, pre.registrations.next_id),
    )
    &&& registration_table_wf(post.registrations)
    &&& post.nonces@ == pre.nonces@
    &&& post.next_nonce_id == pre.next_nonce_id
}

/// The whole outcome of handing a REGISTER to the registrar.
pub open spec fn register_rel(
    pre: Registrar,
    post: Registrar,
    req: Request,
    now: u64,
    r: Result<Response, Error>,
) -> bool {
    match r {
        Ok(resp) => core_headers_present(req.headers@) && (if offer_authorized(req.headers@) {
            registered_rel(pre, post, req, now, resp)
        } else {
            challenged_rel(pre, post, req.headers@, now, resp)
        }),
        Err(e) => ({
            &&& e.kind is Parse
            &&& post == pre
            &&& (!core_headers_present(req.headers@) || (offer_authorized(req.headers@)
                && spec_contact(req.headers@) is None))
        }),
    }
}

impl Registrar {
    /// A registrar with no bindings and no outstanding nonces.
    pub fn new() -> (r: Self)
        ensures
            r.registrations.rows@.len() == 0,
            r.nonces@.len() == 0,
            r.next_nonce_id == 1,
            registrar_wf(r),
    {
        Registrar { registrations: RegistrationTable::new(), nonces: Vec::new(), next_nonce_id: 1 }
    }

    /// Answers a REGISTER. Without credentials, or with a digest that
    /// does not prove the stored password, a 401 challenge whose nonce
    /// is minted and persisted; with a proving digest, the binding is
    /// upserted and answered 200. Handlers are idempotent: the same
    /// REGISTER again writes the same row.
    pub fn process_register(&mut self, req: &Request, now: u64) -> (r: Result<Response, Error>)
        requires
            registrar_wf(*old(self)),
            old(self).registrations.next_id < i64::MAX,
            old(self).next_nonce_id < i64::MAX,
            now + 0xffff_ffff <= u64::MAX,
        ensures
            register_rel(*old(self), *final(self), *req, now, r),
            registrar_wf(*final(self)),
    {
        let authorized = match authorization_of(&req.headers) {
            Some(offer) => {
                match is_authorized(offer.clone()) {
                    Ok(ok) => ok,
                    Err(e) => {
                        return Err(e);
                    },
                }
            },
            None => false,
        };
        if !authorized {
            let tag = fresh_token();
            let ghost tag_g = tag;
            let nonce = fresh_token();
            let resp = match build_unauthorized_from(req, tag, nonce.clone()) {
                Ok(resp) => resp,
                Err(e) => {
                    return Err(e);
                },
            };
            let record = AuthNonce {
                id: self.next_nonce_id,
                realm: String::from_str("127.0.0.1"),
                nonce,
                created_at: now,
            };
            self.nonces.push(record);
            self.next_nonce_id = self.next_nonce_id + 1;
            proof {
                let ghost ch = resp.headers@[7]->WwwAuthenticate_0;
                assert(resp.headers@ =~= crate::presets::echo_headers(req.headers@, tag_g).push(
                    Header::WwwAuthenticate(ch),
                ));
                assert(is_unauthorized_response(resp, req.headers@));
            }
            Ok(resp)
        } else {
            let to = match to_of(&req.headers) {
                Ok(n) => n,
                Err(e) => {
                    return Err(e);
                },
            };
            let contact = match contact_of(&req.headers) {
                Some(n) => n,
                None => {
                    return Err(Error {
                        kind: crate::errors::ErrorKind::Parse(
                            String::from_str("a REGISTER needs a Contact to bind"),
                        ),
                    });
                },
            };
            let username = match authorization_of(&req.headers) {
                Some(offer) => offer.username.clone(),
                None => {
                    return Err(Error {
                        kind: crate::errors::ErrorKind::Parse(
                            String::from_str("credentials vanished"),
                        ),
                    });
                },
            };
            let expiry: u32 = match expires_of(&req.headers) {
                Some(e) => e,
                None => DEFAULT_EXPIRES,
            };
            let aor = to.uri.clone();
            let contact_uri = contact.uri.clone();
            let tag = fresh_token();
            let resp = match build_preset_from(req, StatusCode::OK, tag) {
                Ok(resp) => resp,
                Err(e) => {
                    return Err(e);
                },
            };
            let expires_at: u64 = now + (expiry as u64);
            let _ = self.registrations.upsert(
                aor,
                contact_uri,
                expires_at,
                Transport::Udp,
                username,
            );
            Ok(resp)
        }
    }
}

/// The transaction user: capability probing and registration behind
/// one dispatch.
#[derive(Debug)]
pub struct Tu {
    pub registrar: Registrar,
    pub capabilities: Capabilities,
}

impl Tu {
    /// A transaction user with a fresh registrar.
    pub fn new() -> (r: Self)
        ensures
            r.registrar.registrations.rows@.len() == 0,
            r.registrar.nonces@.len() == 0,
            r.registrar.next_nonce_id == 1,
            registrar_wf(r.registrar),
    {
        Tu { registrar: Registrar::new(), capabilities: Capabilities::new() }
    }

    /// Answers an inbound request: 404 when the request URI is not this
    /// server's, else by method — OPTIONS is answered 486 Busy Here,
    /// REGISTER goes to the registrar, anything else is answered 405.
    /// The answer goes back to the peer the request came from.
    pub fn process_request(&mut self, msg: RequestMsg, now: u64) -> (r: Result<ResponseMsg, Error>)
        requires
            registrar_wf(old(self).registrar),
            old(self).registrar.registrations.next_id < i64::MAX,
            old(self).registrar.next_nonce_id < i64::MAX,
            now + 0xffff_ffff <= u64::MAX,
        ensures
            registrar_wf(final(self).registrar),
            match r {
                Ok(out) => out.peer == msg.peer && out.transport == msg.transport && ({
                    let hs = msg.sip_request.headers@;
                    if !is_default_request_uri(msg.sip_request.uri) {
                        &&& is_preset_response(out.sip_response, hs, StatusCode::NotFound)
                        &&& final(self).registrar == old(self).registrar
                    } else if msg.sip_request.method == Method::Options {
                        &&& is_busy_here_response(out.sip_response, hs)
                        &&& final(self).registrar == old(self).registrar
                    } else if msg.sip_request.method == Method::Register {
                        register_rel(
                            old(self).registrar,
                            final(self).registrar,
                            msg.sip_request,
                            now,
                            Ok(out.sip_response),
                        )
                    } else {
                        &&& is_method_not_allowed_response(out.sip_response, hs)
                        &&& final(self).registrar == old(self).registrar
                    }
                }),
                Err(e) => ({
                    &&& e.kind is Parse
                    &&& final(self).registrar == old(self).registrar
                    &&& (!core_headers_present(msg.sip_request.headers@) || (msg.sip_request.method
                        == Method::Register && offer_authorized(msg.sip_request.headers@)
                        && spec_contact(msg.sip_request.headers@) is None))
                }),
            },
    {
        let RequestMsg { sip_request, peer, transport } = msg;
        if let Err(_) = crate::capabilities::has_correct_request_uri(&sip_request.uri) {
            let resp = match create_404_from(sip_request) {
                Ok(resp) => resp,
                Err(e) => {
                    return Err(e);
                },
            };
            return Ok(ResponseMsg { sip_response: resp, peer, transport });
        }
        if sip_request.method == Method::Options {
            let resp = match crate::capabilities::create_busy_here_from(sip_request.clone()) {
                Ok(resp) => resp,
                Err(e) => {
                    return Err(e);
                },
            };
            return Ok(ResponseMsg { sip_response: resp, peer, transport });
        }
        if sip_request.method == Method::Register {
            let resp = match self.registrar.process_register(&sip_request, now) {
                Ok(resp) => resp,
                Err(e) => {
                    return Err(e);
                },
            };
            return Ok(ResponseMsg { sip_response: resp, peer, transport });
        }
        let resp = match create_405_from(sip_request) {
            Ok(resp) => resp,
            Err(e) => {
                return Err(e);
            },
        };
        Ok(ResponseMsg { sip_response: resp, peer, transport })
    }
}

} // verus!
