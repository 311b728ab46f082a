//! The message model: typed envelopes for parsed SIP requests and
//! responses, with accessors for the header-derived identifiers that
//! transaction and dialog matching rest on.

use vstd::prelude::*;

use crate::errors::{Error, ErrorKind};
use crate::status::StatusCode;

verus! {

/// The transport a message travelled on.
#[derive(Clone, Copy, Debug, PartialEq, Eq, Structural)]
pub enum Transport {
    Udp,
    Tcp,
    Tls,
    Ws,
}

/// The SIP request methods.
#[derive(Clone, Copy, Debug, PartialEq, Eq, Structural)]
pub enum Method {
    Ack,
    Bye,
    Cancel,
    Info,
    Invite,
    Message,
    Notify,
    Options,
    Prack,
    Publish,
    Refer,
    Register,
    Subscribe,
    Update,
}

/// The role a transaction plays for a message.
#[derive(Clone, Copy, Debug, PartialEq, Eq, Structural)]
pub enum Role {
    Uac,
    Uas,
}

/// A host and port pair, as it appears in a URI or a Via sent-by.
#[derive(Debug)]
pub struct HostPort {
    pub host: String,
    pub port: u16,
}

impl Clone for HostPort {
    fn clone(&self) -> (res: Self)
        ensures
            res == *self,
    {
        HostPort { host: self.host.clone(), port: self.port }
    }
}

/// A SIP URI, narrowed to the parts the core reads: an optional user
/// part and the host with port.
#[derive(Debug)]
pub struct Uri {
    pub user: Option<String>,
    pub host_with_port: HostPort,
}

/// A copy of an optional string, equal to its source.
pub fn clone_opt_string(o: &Option<String>) -> (r: Option<String>)
    ensures
        r == *o,
{
    match o {
        Some(s) => Some(s.clone()),
        None => None,
    }
}

impl Clone for Uri {
    fn clone(&self) -> (res: Self)
        ensures
            res == *self,
    {
        Uri { user: clone_opt_string(&self.user), host_with_port: self.host_with_port.clone() }
    }
}

/// Whether two URIs name the same endpoint, comparing text contents.
pub open spec fn uri_eq(a: Uri, b: Uri) -> bool {
    &&& match (a.user, b.user) {
        (Some(ua), Some(ub)) => ua@ == ub@,
        (None, None) => true,
        _ => false,
    }
    &&& a.host_with_port.host@ == b.host_with_port.host@
    &&& a.host_with_port.port == b.host_with_port.port
}

/// A Via header: the sent-by endpoint, the branch token that names the
/// transaction, and the transport.
#[derive(Debug)]
pub struct Via {
    pub sent_by: HostPort,
    pub branch: String,
    pub transport: Transport,
}

impl Clone for Via {
    fn clone(&self) -> (res: Self)
        ensures
            res == *self,
    {
        Via { sent_by: self.sent_by.clone(), branch: self.branch.clone(), transport: self.transport }
    }
}

/// A From or To header: a URI with an optional tag parameter.
#[derive(Debug)]
pub struct NamedHeader {
    pub uri: Uri,
    pub tag: Option<String>,
}

impl Clone for NamedHeader {
    fn clone(&self) -> (res: Self)
        ensures
            res == *self,
    {
        NamedHeader { uri: self.uri.clone(), tag: clone_opt_string(&self.tag) }
    }
}

/// A CSeq header: sequence number and method.
#[derive(Clone, Copy, Debug, PartialEq, Eq, Structural)]
pub struct CSeq {
    pub seq: u32,
    pub method: Method,
}

/// A digest challenge, as carried in WWW-Authenticate.
#[derive(Debug)]
pub struct Challenge {
    pub realm: String,
    pub nonce: String,
}

impl Clone for Challenge {
    fn clone(&self) -> (res: Self)
        ensures
            res == *self,
    {
        Challenge { realm: self.realm.clone(), nonce: self.nonce.clone() }
    }
}

/// A digest answer, as carried in an Authorization header.
#[derive(Debug)]
pub struct Authorization {
    pub username: String,
    pub realm: String,
    pub nonce: String,
    pub uri: String,
    pub response: String,
}

impl Clone for Authorization {
    fn clone(&self) -> (res: Self)
        ensures
            res == *self,
    {
        Authorization {
            username: self.username.clone(),
            realm: self.realm.clone(),
            nonce: self.nonce.clone(),
            uri: self.uri.clone(),
            response: self.response.clone(),
        }
    }
}

/// A SIP header. Unknown headers are kept verbatim as name and value.
#[derive(Debug)]
pub enum Header {
    Via(Via),
    From(NamedHeader),
    To(NamedHeader),
    CallId(String),
    CSeq(CSeq),
    Contact(NamedHeader),
    ContentLength(u32),
    Expires(u32),
    MaxForwards(u32),
    /// Identifies the server; the product token is fixed.
    Server,
    UserAgent(String),
    /// Advertises the methods the server supports; the list is fixed.
    Allow,
    Accept(String),
    AcceptEncoding(String),
    AcceptLanguage(String),
    WwwAuthenticate(Challenge),
    Authorization(Authorization),
    Other(String, String),
}

impl Clone for Header {
    fn clone(&self) -> (res: Self)
        ensures
            res == *self,
    {
        match self {
            Header::Via(v) => Header::Via(v.clone()),
            Header::From(n) => Header::From(n.clone()),
            Header::To(n) => Header::To(n.clone()),
            Header::CallId(s) => Header::CallId(s.clone()),
            Header::CSeq(c) => Header::CSeq(*c),
            Header::Contact(n) => Header::Contact(n.clone()),
            Header::ContentLength(n) => Header::ContentLength(*n),
            Header::Expires(n) => Header::Expires(*n),
            Header::MaxForwards(n) => Header::MaxForwards(*n),
            Header::Server => Header::Server,
            Header::UserAgent(s) => Header::UserAgent(s.clone()),
            Header::Allow => Header::Allow,
            Header::Accept(s) => Header::Accept(s.clone()),
            Header::AcceptEncoding(s) => Header::AcceptEncoding(s.clone()),
            Header::AcceptLanguage(s) => Header::AcceptLanguage(s.clone()),
            Header::WwwAuthenticate(c) => Header::WwwAuthenticate(c.clone()),
            Header::Authorization(a) => Header::Authorization(a.clone()),
            Header::Other(n, v) => Header::Other(n.clone(), v.clone()),
        }
    }
}

/// The methods the Allow header advertises: every method the model
/// knows, in canonical order.
pub fn allowed_methods() -> (r: Vec<Method>)
    ensures
        r@ == seq![
            Method::Ack,
            Method::Bye,
            Method::Cancel,
            Method::Info,
            Method::Invite,
            Method::Message,
            Method::Notify,
            Method::Options,
            Method::Prack,
            Method::Publish,
            Method::Refer,
            Method::Register,
            Method::Subscribe,
            Method::Update,
        ],
{
    let mut r: Vec<Method> = Vec::new();
    r.push(Method::Ack);
    r.push(Method::Bye);
    r.push(Method::Cancel);
    r.push(Method::Info);
    r.push(Method::Invite);
    r.push(Method::Message);
    r.push(Method::Notify);
    r.push(Method::Options);
    r.push(Method::Prack);
    r.push(Method::Publish);
    r.push(Method::Refer);
    r.push(Method::Register);
    r.push(Method::Subscribe);
    r.push(Method::Update);
    assert(r@ =~= seq![
        Method::Ack,
        Method::Bye,
        Method::Cancel,
        Method::Info,
        Method::Invite,
        Method::Message,
        Method::Notify,
        Method::Options,
        Method::Prack,
        Method::Publish,
        Method::Refer,
        Method::Register,
        Method::Subscribe,
        Method::Update,
    ]);
    r
}

/// The kind of a header, for matching by position-independent lookup.
#[derive(Clone, Copy, Debug, PartialEq, Eq, Structural)]
pub enum HeaderKind {
    Via,
    From,
    To,
    CallId,
    CSeq,
    Contact,
    ContentLength,
    Expires,
    MaxForwards,
    Server,
    UserAgent,
    Allow,
    Accept,
    AcceptEncoding,
    AcceptLanguage,
    WwwAuthenticate,
    Authorization,
    Other,
}

/// The kind of a header value.
pub open spec fn kind_of(h: Header) -> HeaderKind {
    match h {
        Header::Via(_) => HeaderKind::Via,
        Header::From(_) => HeaderKind::From,
        Header::To(_) => HeaderKind::To,
        Header::CallId(_) => HeaderKind::CallId,
        Header::CSeq(_) => HeaderKind::CSeq,
        Header::Contact(_) => HeaderKind::Contact,
        Header::ContentLength(_) => HeaderKind::ContentLength,
        Header::Expires(_) => HeaderKind::Expires,
        Header::MaxForwards(_) => HeaderKind::MaxForwards,
        Header::Server => HeaderKind::Server,
        Header::UserAgent(_) => HeaderKind::UserAgent,
        Header::Allow => HeaderKind::Allow,
        Header::Accept(_) => HeaderKind::Accept,
        Header::AcceptEncoding(_) => HeaderKind::AcceptEncoding,
        Header::AcceptLanguage(_) => HeaderKind::AcceptLanguage,
        Header::WwwAuthenticate(_) => HeaderKind::WwwAuthenticate,
        Header::Authorization(_) => HeaderKind::Authorization,
        Header::Other(_, _) => HeaderKind::Other,
    }
}

impl Header {
    /// The kind of this header.
    pub fn kind(&self) -> (k: HeaderKind)
        ensures
            k == kind_of(*self),
    {
        match self {
            Header::Via(_) => HeaderKind::Via,
            Header::From(_) => HeaderKind::From,
            Header::To(_) => HeaderKind::To,
            Header::CallId(_) => HeaderKind::CallId,
            Header::CSeq(_) => HeaderKind::CSeq,
            Header::Contact(_) => HeaderKind::Contact,
            Header::ContentLength(_) => HeaderKind::ContentLength,
            Header::Expires(_) => HeaderKind::Expires,
            Header::MaxForwards(_) => HeaderKind::MaxForwards,
            Header::Server => HeaderKind::Server,
            Header::UserAgent(_) => HeaderKind::UserAgent,
            Header::Allow => HeaderKind::Allow,
            Header::Accept(_) => HeaderKind::Accept,
            Header::AcceptEncoding(_) => HeaderKind::AcceptEncoding,
            Header::AcceptLanguage(_) => HeaderKind::AcceptLanguage,
            Header::WwwAuthenticate(_) => HeaderKind::WwwAuthenticate,
            Header::Authorization(_) => HeaderKind::Authorization,
            Header::Other(_, _) => HeaderKind::Other,
        }
    }
}

/// The first header of the given kind at or after position `i`.
pub open spec fn first_of_kind_from(hs: Seq<Header>, k: HeaderKind, i: int) -> Option<Header>
    decreases hs.len() - i,
{
    if i < 0 || i >= hs.len() {
        None
    } else if kind_of(hs[i]) == k {
        Some(hs[i])
    } else {
        first_of_kind_from(hs, k, i + 1)
    }
}

/// The first header of the given kind.
pub open spec fn first_of_kind(hs: Seq<Header>, k: HeaderKind) -> Option<Header> {
    first_of_kind_from(hs, k, 0)
}

/// The first header of the given kind in the list, if any.
pub fn find_header<'a>(hs: &'a Vec<Header>, k: HeaderKind) -> (r: Option<&'a Header>)
    ensures
        match r {
            Some(h) => first_of_kind(hs@, k) == Some(*h) && kind_of(*h) == k,
            None => first_of_kind(hs@, k) is None,
        },
{
    let mut i: usize = 0;
    while i < hs.len()
        invariant
            0 <= i <= hs@.len(),
            first_of_kind(hs@, k) == first_of_kind_from(hs@, k, i as int),
        decreases hs@.len() - i,
    {
        if hs[i].kind() == k {
            assert(first_of_kind_from(hs@, k, i as int) == Some(hs@[i as int]));
            return Some(&hs[i]);
        }
        assert(first_of_kind_from(hs@, k, i as int) == first_of_kind_from(hs@, k, i + 1 as int));
        i = i + 1;
    }
    None
}

/// The first Via header's value.
pub open spec fn spec_via(hs: Seq<Header>) -> Option<Via> {
    match first_of_kind(hs, HeaderKind::Via) {
        Some(h) => match h {
            Header::Via(v) => Some(v),
            _ => None,
        },
        None => None,
    }
}

/// The first From header's value.
pub open spec fn spec_from(hs: Seq<Header>) -> Option<NamedHeader> {
    match first_of_kind(hs, HeaderKind::From) {
        Some(h) => match h {
            Header::From(n) => Some(n),
            _ => None,
        },
        None => None,
    }
}

/// The first To header's value.
pub open spec fn spec_to(hs: Seq<Header>) -> Option<NamedHeader> {
    match first_of_kind(hs, HeaderKind::To) {
        Some(h) => match h {
            Header::To(n) => Some(n),
            _ => None,
        },
        None => None,
    }
}

/// The first Call-ID header's value.
pub open spec fn spec_call_id(hs: Seq<Header>) -> Option<String> {
    match first_of_kind(hs, HeaderKind::CallId) {
        Some(h) => match h {
            Header::CallId(s) => Some(s),
            _ => None,
        },
        None => None,
    }
}

/// The first CSeq header's value.
pub open spec fn spec_cseq(hs: Seq<Header>) -> Option<CSeq> {
    match first_of_kind(hs, HeaderKind::CSeq) {
        Some(h) => match h {
            Header::CSeq(c) => Some(c),
            _ => None,
        },
        None => None,
    }
}

/// The first Contact header's value.
pub open spec fn spec_contact(hs: Seq<Header>) -> Option<NamedHeader> {
    match first_of_kind(hs, HeaderKind::Contact) {
        Some(h) => match h {
            Header::Contact(n) => Some(n),
            _ => None,
        },
        None => None,
    }
}

/// The first Expires header's value.
pub open spec fn spec_expires(hs: Seq<Header>) -> Option<u32> {
    match first_of_kind(hs, HeaderKind::Expires) {
        Some(h) => match h {
            Header::Expires(n) => Some(n),
            _ => None,
        },
        None => None,
    }
}

/// The first Authorization header's value.
pub open spec fn spec_authorization(hs: Seq<Header>) -> Option<Authorization> {
    match first_of_kind(hs, HeaderKind::Authorization) {
        Some(h) => match h {
            Header::Authorization(a) => Some(a),
            _ => None,
        },
        None => None,
    }
}

/// A parse error for a header the message should carry but does not.
fn missing_header_error() -> (r: Error)
    ensures
        r.kind is Parse,
{
    Error { kind: ErrorKind::Parse(String::from_str("missing mandatory header")) }
}

/// The first Via header, or a parse error when there is none.
pub fn via_of<'a>(hs: &'a Vec<Header>) -> (r: Result<&'a Via, Error>)
    ensures
        match r {
            Ok(v) => spec_via(hs@) == Some(*v),
            Err(e) => spec_via(hs@) is None && e.kind is Parse,
        },
{
    match find_header(hs, HeaderKind::Via) {
        Some(h) => match h {
            Header::Via(v) => Ok(v),
            _ => Err(missing_header_error()),
        },
        None => Err(missing_header_error()),
    }
}

/// The first From header, or a parse error when there is none.
pub fn from_of<'a>(hs: &'a Vec<Header>) -> (r: Result<&'a NamedHeader, Error>)
    ensures
        match r {
            Ok(n) => spec_from(hs@) == Some(*n),
            Err(e) => spec_from(hs@) is None && e.kind is Parse,
        },
{
    match find_header(hs, HeaderKind::From) {
        Some(h) => match h {
            Header::From(n) => Ok(n),
            _ => Err(missing_header_error()),
        },
        None => Err(missing_header_error()),
    }
}

/// The first To header, or a parse error when there is none.
pub fn to_of<'a>(hs: &'a Vec<Header>) -> (r: Result<&'a NamedHeader, Error>)
    ensures
        match r {
            Ok(n) => spec_to(hs@) == Some(*n),
            Err(e) => spec_to(hs@) is None && e.kind is Parse,
        },
{
    match find_header(hs, HeaderKind::To) {
        Some(h) => match h {
            Header::To(n) => Ok(n),
            _ => Err(missing_header_error()),
        },
        None => Err(missing_header_error()),
    }
}

/// The first Call-ID header, or a parse error when there is none.
pub fn call_id_of<'a>(hs: &'a Vec<Header>) -> (r: Result<&'a String, Error>)
    ensures
        match r {
            Ok(s) => spec_call_id(hs@) == Some(*s),
            Err(e) => spec_call_id(hs@) is None && e.kind is Parse,
        },
{
    match find_header(hs, HeaderKind::CallId) {
        Some(h) => match h {
            Header::CallId(s) => Ok(s),
            _ => Err(missing_header_error()),
        },
        None => Err(missing_header_error()),
    }
}

/// The first CSeq header, or a parse error when there is none.
pub fn cseq_of<'a>(hs: &'a Vec<Header>) -> (r: Result<&'a CSeq, Error>)
    ensures
        match r {
            Ok(c) => spec_cseq(hs@) == Some(*c),
            Err(e) => spec_cseq(hs@) is None && e.kind is Parse,
        },
{
    match find_header(hs, HeaderKind::CSeq) {
        Some(h) => match h {
            Header::CSeq(c) => Ok(c),
            _ => Err(missing_header_error()),
        },
        None => Err(missing_header_error()),
    }
}

/// The first Contact header, if any.
pub fn contact_of<'a>(hs: &'a Vec<Header>) -> (r: Option<&'a NamedHeader>)
    ensures
        match r {
            Some(n) => spec_contact(hs@) == Some(*n),
            None => spec_contact(hs@) is None,
        },
{
    match find_header(hs, HeaderKind::Contact) {
        Some(h) => match h {
            Header::Contact(n) => Some(n),
            _ => None,
        },
        None => None,
    }
}

/// The first Expires header's value, if any.
pub fn expires_of(hs: &Vec<Header>) -> (r: Option<u32>)
    ensures
        r == spec_expires(hs@),
{
    match find_header(hs, HeaderKind::Expires) {
        Some(h) => match h {
            Header::Expires(n) => Some(*n),
            _ => None,
        },
        None => None,
    }
}

/// The first Authorization header, if any.
pub fn authorization_of<'a>(hs: &'a Vec<Header>) -> (r: Option<&'a Authorization>)
    ensures
        match r {
            Some(a) => spec_authorization(hs@) == Some(*a),
            None => spec_authorization(hs@) is None,
        },
{
    match find_header(hs, HeaderKind::Authorization) {
        Some(h) => match h {
            Header::Authorization(a) => Some(a),
            _ => None,
        },
        None => None,
    }
}

/// A copy of a header list, equal to its source element by element.
pub fn clone_headers(hs: &Vec<Header>) -> (r: Vec<Header>)
    ensures
        r@ == hs@,
{
    let mut r: Vec<Header> = Vec::new();
    let mut i: usize = 0;
    while i < hs.len()
        invariant
            0 <= i <= hs@.len(),
            r@ =~= hs@.subrange(0, i as int),
        decreases hs@.len() - i,
    {
        r.push(hs[i].clone());
        i = i + 1;
    }
    assert(r@ =~= hs@);
    r
}

/// A parsed SIP request.
#[derive(Debug)]
pub struct Request {
    pub method: Method,
    pub uri: Uri,
    pub headers: Vec<Header>,
}

impl Clone for Request {
    fn clone(&self) -> (res: Self)
        ensures
            res.method == self.method,
            res.uri == self.uri,
            res.headers@ == self.headers@,
    {
        Request { method: self.method, uri: self.uri.clone(), headers: clone_headers(&self.headers) }
    }
}

/// A parsed SIP response.
#[derive(Debug)]
pub struct Response {
    pub code: StatusCode,
    pub headers: Vec<Header>,
}

impl Clone for Response {
    fn clone(&self) -> (res: Self)
        ensures
            res.code == self.code,
            res.headers@ == self.headers@,
    {
        Response { code: self.code, headers: clone_headers(&self.headers) }
    }
}

/// Whether two requests carry the same message: a retransmission is a
/// request related to its original exactly by this.
pub open spec fn req_like(a: Request, b: Request) -> bool {
    a.method == b.method && a.uri == b.uri && a.headers@ == b.headers@
}

/// Whether two responses carry the same message.
pub open spec fn resp_like(a: Response, b: Response) -> bool {
    a.code == b.code && a.headers@ == b.headers@
}

/// The identifier that matches messages to a transaction, derived from
/// the top Via branch, the Via sent-by endpoint, the CSeq method with
/// ACK collapsed to INVITE, and the transaction's role.
#[derive(Debug)]
pub struct TransactionId {
    pub branch: String,
    pub host: String,
    pub port: u16,
    pub method: Method,
    pub role: Role,
}

impl Clone for TransactionId {
    fn clone(&self) -> (res: Self)
        ensures
            res == *self,
    {
        TransactionId {
            branch: self.branch.clone(),
            host: self.host.clone(),
            port: self.port,
            method: self.method,
            role: self.role,
        }
    }
}

/// ACK matches the INVITE transaction it acknowledges.
pub open spec fn collapse_method(m: Method) -> Method {
    if m is Ack {
        Method::Invite
    } else {
        m
    }
}

/// The transaction identifier carried by a header list, if the Via and
/// CSeq headers that define it are present.
pub open spec fn spec_transaction_id(hs: Seq<Header>, role: Role) -> Option<TransactionId> {
    match (spec_via(hs), spec_cseq(hs)) {
        (Some(v), Some(c)) => Some(
            TransactionId {
                branch: v.branch,
                host: v.sent_by.host,
                port: v.sent_by.port,
                method: collapse_method(c.method),
                role,
            },
        ),
        _ => None,
    }
}

/// Whether two transaction identifiers match, comparing text contents.
pub open spec fn id_eq(a: TransactionId, b: TransactionId) -> bool {
    &&& a.branch@ == b.branch@
    &&& a.host@ == b.host@
    &&& a.port == b.port
    &&& a.method == b.method
    &&& a.role == b.role
}

impl TransactionId {
    /// Whether two messages with these identifiers belong to the same
    /// transaction.
    pub fn matches(&self, other: &TransactionId) -> (r: bool)
        ensures
            r == id_eq(*self, *other),
    {
        self.branch.eq(&other.branch) && self.host.eq(&other.host) && self.port == other.port
            && self.method == other.method && self.role == other.role
    }
}

/// The identifier of a dialog: Call-ID, local tag, remote tag. A tag
/// still unknown — the remote tag of an early dialog — is `None`.
#[derive(Debug)]
pub struct DialogId {
    pub call_id: String,
    pub local_tag: Option<String>,
    pub remote_tag: Option<String>,
}

impl Clone for DialogId {
    fn clone(&self) -> (res: Self)
        ensures
            res == *self,
    {
        DialogId {
            call_id: self.call_id.clone(),
            local_tag: clone_opt_string(&self.local_tag),
            remote_tag: clone_opt_string(&self.remote_tag),
        }
    }
}

/// The dialog identifier of an inbound request, seen as its server:
/// the local tag is the To tag, the remote tag the From tag.
pub open spec fn spec_dialog_id_request(hs: Seq<Header>) -> Option<DialogId> {
    match (spec_call_id(hs), spec_from(hs), spec_to(hs)) {
        (Some(ci), Some(f), Some(t)) => Some(
            DialogId { call_id: ci, local_tag: t.tag, remote_tag: f.tag },
        ),
        _ => None,
    }
}

/// The dialog identifier of an inbound response, seen as its client:
/// the local tag is the From tag, the remote tag the To tag.
pub open spec fn spec_dialog_id_response(hs: Seq<Header>) -> Option<DialogId> {
    match (spec_call_id(hs), spec_from(hs), spec_to(hs)) {
        (Some(ci), Some(f), Some(t)) => Some(
            DialogId { call_id: ci, local_tag: f.tag, remote_tag: t.tag },
        ),
        _ => None,
    }
}

/// A parsed SIP message, request or response.
#[derive(Debug)]
pub enum SipMessage {
    Request(Request),
    Response(Response),
}

impl SipMessage {
    /// The message's header list.
    pub open spec fn spec_headers(self) -> Seq<Header> {
        match self {
            SipMessage::Request(r) => r.headers@,
            SipMessage::Response(r) => r.headers@,
        }
    }

    /// Whether the message is a request.
    pub open spec fn spec_is_request(self) -> bool {
        self is Request
    }

    /// The role of the transaction an inbound message belongs to: a
    /// request is handled by a server transaction, a response by the
    /// client transaction that sent the request.
    pub open spec fn spec_role(self) -> Role {
        if self is Request {
            Role::Uas
        } else {
            Role::Uac
        }
    }
}

/// The envelope a datagram becomes: a parsed message, the remote peer
/// it came from or goes to, and the transport. The peer is always the
/// remote endpoint, never the local bound address.
#[derive(Debug)]
pub struct TransportMsg {
    pub sip_message: SipMessage,
    pub peer: HostPort,
    pub transport: Transport,
}

impl TransportMsg {
    /// The transaction identifier of the carried message.
    pub fn transaction_id(&self) -> (r: Result<Option<TransactionId>, Error>)
        ensures
            match r {
                Ok(o) => o is Some && spec_transaction_id(
                    self.sip_message.spec_headers(),
                    self.sip_message.spec_role(),
                ) == Some(o.unwrap()),
                Err(e) => spec_transaction_id(
                    self.sip_message.spec_headers(),
                    self.sip_message.spec_role(),
                ) is None && e.kind is Parse,
            },
    {
        let (headers, role) = match &self.sip_message {
            SipMessage::Request(req) => (&req.headers, Role::Uas),
            SipMessage::Response(resp) => (&resp.headers, Role::Uac),
        };
        let via = match via_of(headers) {
            Ok(v) => v,
            Err(e) => {
                return Err(e);
            },
        };
        let cseq = match cseq_of(headers) {
            Ok(c) => c,
            Err(e) => {
                return Err(e);
            },
        };
        let method = if cseq.method == Method::Ack {
            Method::Invite
        } else {
            cseq.method
        };
        Ok(Some(TransactionId {
            branch: via.branch.clone(),
            host: via.sent_by.host.clone(),
            port: via.sent_by.port,
            method,
            role,
        }))
    }

    /// Whether the carried message is a request.
    pub fn is_request(&self) -> (r: bool)
        ensures
            r == self.sip_message.spec_is_request(),
    {
        match &self.sip_message {
            SipMessage::Request(_) => true,
            SipMessage::Response(_) => false,
        }
    }

    /// The dialog identifier of the carried message.
    pub fn dialog_id(&self) -> (r: Result<DialogId, Error>)
        ensures
            match r {
                Ok(d) => ({
                    let spec_id = if self.sip_message.spec_is_request() {
                        spec_dialog_id_request(self.sip_message.spec_headers())
                    } else {
                        spec_dialog_id_response(self.sip_message.spec_headers())
                    };
                    spec_id == Some(d)
                }),
                Err(e) => ({
                    let spec_id = if self.sip_message.spec_is_request() {
                        spec_dialog_id_request(self.sip_message.spec_headers())
                    } else {
                        spec_dialog_id_response(self.sip_message.spec_headers())
                    };
                    spec_id is None && e.kind is Parse
                }),
            },
    {
        let (headers, local_is_to) = match &self.sip_message {
            SipMessage::Request(req) => (&req.headers, true),
            SipMessage::Response(resp) => (&resp.headers, false),
        };
        let call_id = match call_id_of(headers) {
            Ok(s) => s,
            Err(e) => {
                return Err(e);
            },
        };
        let from = match from_of(headers) {
            Ok(n) => n,
            Err(e) => {
                return Err(e);
            },
        };
        let to = match to_of(headers) {
            Ok(n) => n,
            Err(e) => {
                return Err(e);
            },
        };
        if local_is_to {
            Ok(DialogId {
                call_id: call_id.clone(),
                local_tag: clone_opt_string(&to.tag),
                remote_tag: clone_opt_string(&from.tag),
            })
        } else {
            Ok(DialogId {
                call_id: call_id.clone(),
                local_tag: clone_opt_string(&from.tag),
                remote_tag: clone_opt_string(&to.tag),
            })
        }
    }
}

/// A narrowed envelope whose payload is known to be a request.
#[derive(Debug)]
pub struct RequestMsg {
    pub sip_request: Request,
    pub peer: HostPort,
    pub transport: Transport,
}

/// A narrowed envelope whose payload is known to be a response.
#[derive(Debug)]
pub struct ResponseMsg {
    pub sip_response: Response,
    pub peer: HostPort,
    pub transport: Transport,
}

impl vstd::std_specs::convert::FromSpecImpl<(SipMessage, HostPort, Transport)> for TransportMsg {
    open spec fn obeys_from_spec() -> bool {
        true
    }

    open spec fn from_spec(triple: (SipMessage, HostPort, Transport)) -> TransportMsg {
        TransportMsg { sip_message: triple.0, peer: triple.1, transport: triple.2 }
    }
}

impl From<(SipMessage, HostPort, Transport)> for TransportMsg {
    /// The envelope of a (message, peer, transport) triple.
    fn from(triple: (SipMessage, HostPort, Transport)) -> (r: TransportMsg)
        ensures
            r == (TransportMsg { sip_message: triple.0, peer: triple.1, transport: triple.2 }),
    {
        let (sip_message, peer, transport) = triple;
        TransportMsg { sip_message, peer, transport }
    }
}

impl vstd::std_specs::convert::FromSpecImpl<RequestMsg> for TransportMsg {
    open spec fn obeys_from_spec() -> bool {
        true
    }

    open spec fn from_spec(m: RequestMsg) -> TransportMsg {
        TransportMsg {
            sip_message: SipMessage::Request(m.sip_request),
            peer: m.peer,
            transport: m.transport,
        }
    }
}

impl From<RequestMsg> for TransportMsg {
    /// The general envelope of a request envelope.
    fn from(m: RequestMsg) -> (r: TransportMsg)
        ensures
            r == (TransportMsg {
                sip_message: SipMessage::Request(m.sip_request),
                peer: m.peer,
                transport: m.transport,
            }),
    {
        TransportMsg {
            sip_message: SipMessage::Request(m.sip_request),
            peer: m.peer,
            transport: m.transport,
        }
    }
}

impl vstd::std_specs::convert::FromSpecImpl<ResponseMsg> for TransportMsg {
    open spec fn obeys_from_spec() -> bool {
        true
    }

    open spec fn from_spec(m: ResponseMsg) -> TransportMsg {
        TransportMsg {
            sip_message: SipMessage::Response(m.sip_response),
            peer: m.peer,
            transport: m.transport,
        }
    }
}

impl From<ResponseMsg> for TransportMsg {
    /// The general envelope of a response envelope.
    fn from(m: ResponseMsg) -> (r: TransportMsg)
        ensures
            r == (TransportMsg {
                sip_message: SipMessage::Response(m.sip_response),
                peer: m.peer,
                transport: m.transport,
            }),
    {
        TransportMsg {
            sip_message: SipMessage::Response(m.sip_response),
            peer: m.peer,
            transport: m.transport,
        }
    }
}

impl Request {
    /// The first Via header, or a parse error when there is none.
    pub fn via_header<'a>(&'a self) -> (r: Result<&'a Via, Error>)
        ensures
            match r {
                Ok(v) => spec_via(self.headers@) == Some(*v),
                Err(e) => spec_via(self.headers@) is None && e.kind is Parse,
            },
    {
        via_of(&self.headers)
    }

    /// The first From header, or a parse error when there is none.
    pub fn from_header<'a>(&'a self) -> (r: Result<&'a NamedHeader, Error>)
        ensures
            match r {
                Ok(n) => spec_from(self.headers@) == Some(*n),
                Err(e) => spec_from(self.headers@) is None && e.kind is Parse,
            },
    {
        from_of(&self.headers)
    }

    /// The first To header, or a parse error when there is none.
    pub fn to_header<'a>(&'a self) -> (r: Result<&'a NamedHeader, Error>)
        ensures
            match r {
                Ok(n) => spec_to(self.headers@) == Some(*n),
                Err(e) => spec_to(self.headers@) is None && e.kind is Parse,
            },
    {
        to_of(&self.headers)
    }

    /// The first Call-ID header, or a parse error when there is none.
    pub fn call_id_header<'a>(&'a self) -> (r: Result<&'a String, Error>)
        ensures
            match r {
                Ok(s) => spec_call_id(self.headers@) == Some(*s),
                Err(e) => spec_call_id(self.headers@) is None && e.kind is Parse,
            },
    {
        call_id_of(&self.headers)
    }

    /// The first CSeq header, or a parse error when there is none.
    pub fn cseq_header<'a>(&'a self) -> (r: Result<&'a CSeq, Error>)
        ensures
            match r {
                Ok(c) => spec_cseq(self.headers@) == Some(*c),
                Err(e) => spec_cseq(self.headers@) is None && e.kind is Parse,
            },
    {
        cseq_of(&self.headers)
    }

    /// The transaction identifier of this request for the given role.
    pub fn transaction_id(&self, role: Role) -> (r: Result<TransactionId, Error>)
        ensures
            match r {
                Ok(id) => spec_transaction_id(self.headers@, role) == Some(id),
                Err(e) => spec_transaction_id(self.headers@, role) is None && e.kind is Parse,
            },
    {
        let via = match via_of(&self.headers) {
            Ok(v) => v,
            Err(e) => {
                return Err(e);
            },
        };
        let cseq = match cseq_of(&self.headers) {
            Ok(c) => c,
            Err(e) => {
                return Err(e);
            },
        };
        let method = if cseq.method == Method::Ack {
            Method::Invite
        } else {
            cseq.method
        };
        Ok(TransactionId {
            branch: via.branch.clone(),
            host: via.sent_by.host.clone(),
            port: via.sent_by.port,
            method,
            role,
        })
    }

    /// The ACK for a final response to this request, per RFC 3261
    /// §17.1.1.3: the request's URI, Via, From, Call-ID and CSeq number,
    /// the response's To, and the method ACK.
    pub fn ack_request_from(&self, response: &Response) -> (r: Result<Request, Error>)
        ensures
            match r {
                Ok(ack) => ({
                    &&& spec_via(self.headers@) is Some
                    &&& spec_from(self.headers@) is Some
                    &&& spec_call_id(self.headers@) is Some
                    &&& spec_cseq(self.headers@) is Some
                    &&& spec_to(response.headers@) is Some
                    &&& ack.method == Method::Ack
                    &&& ack.uri == self.uri
                    &&& ack.headers@ == ack_headers(self.headers@, response.headers@)
                }),
                Err(e) => ({
                    &&& (spec_via(self.headers@) is None || spec_from(self.headers@) is None
                        || spec_call_id(self.headers@) is None || spec_cseq(self.headers@) is None
                        || spec_to(response.headers@) is None)
                    &&& e.kind is Parse
                }),
            },
    {
        let via = match via_of(&self.headers) {
            Ok(v) => v,
            Err(e) => {
                return Err(e);
            },
        };
        let from = match from_of(&self.headers) {
            Ok(n) => n,
            Err(e) => {
                return Err(e);
            },
        };
        let call_id = match call_id_of(&self.headers) {
            Ok(s) => s,
            Err(e) => {
                return Err(e);
            },
        };
        let cseq = match cseq_of(&self.headers) {
            Ok(c) => c,
            Err(e) => {
                return Err(e);
            },
        };
        let to = match to_of(&response.headers) {
            Ok(n) => n,
            Err(e) => {
                return Err(e);
            },
        };
        let mut headers: Vec<Header> = Vec::new();
        headers.push(Header::Via(via.clone()));
        headers.push(Header::From(from.clone()));
        headers.push(Header::To(to.clone()));
        headers.push(Header::CallId(call_id.clone()));
        headers.push(Header::CSeq(CSeq { seq: cseq.seq, method: Method::Ack }));
        assert(headers@ =~= ack_headers(self.headers@, response.headers@));
        Ok(Request { method: Method::Ack, uri: self.uri.clone(), headers })
    }
}

impl Response {
    /// The first To header, or a parse error when there is none.
    pub fn to_header<'a>(&'a self) -> (r: Result<&'a NamedHeader, Error>)
        ensures
            match r {
                Ok(n) => spec_to(self.headers@) == Some(*n),
                Err(e) => spec_to(self.headers@) is None && e.kind is Parse,
            },
    {
        to_of(&self.headers)
    }

    /// The transaction identifier of this response; a response always
    /// belongs to a client transaction.
    pub fn transaction_id(&self) -> (r: Result<TransactionId, Error>)
        ensures
            match r {
                Ok(id) => spec_transaction_id(self.headers@, Role::Uac) == Some(id),
                Err(e) => spec_transaction_id(self.headers@, Role::Uac) is None && e.kind is Parse,
            },
    {
        let via = match via_of(&self.headers) {
            Ok(v) => v,
            Err(e) => {
                return Err(e);
            },
        };
        let cseq = match cseq_of(&self.headers) {
            Ok(c) => c,
            Err(e) => {
                return Err(e);
            },
        };
        let method = if cseq.method == Method::Ack {
            Method::Invite
        } else {
            cseq.method
        };
        Ok(TransactionId {
            branch: via.branch.clone(),
            host: via.sent_by.host.clone(),
            port: via.sent_by.port,
            method,
            role: Role::Uac,
        })
    }
}

/// The headers of the ACK for a final response: the request's Via,
/// From, Call-ID and CSeq number, the response's To, the method ACK.
pub open spec fn ack_headers(req_hs: Seq<Header>, resp_hs: Seq<Header>) -> Seq<Header> {
    seq![
        Header::Via(spec_via(req_hs).unwrap()),
        Header::From(spec_from(req_hs).unwrap()),
        Header::To(spec_to(resp_hs).unwrap()),
        Header::CallId(spec_call_id(req_hs).unwrap()),
        Header::CSeq(CSeq { seq: spec_cseq(req_hs).unwrap().seq, method: Method::Ack }),
    ]
}

/// A retransmission carries the same message, so it carries the same
/// transaction identifier: requests related by `req_like` have equal
/// identifiers for either role.
pub proof fn lemma_transaction_id_of_retransmit(a: Request, b: Request, role: Role)
    requires
        req_like(a, b),
    ensures
        spec_transaction_id(a.headers@, role) == spec_transaction_id(b.headers@, role),
{
}

} // verus!

