//! Digest authentication: verifying the answer a REGISTER carries in
//! its Authorization header against the stored password.

use vstd::prelude::*;

use crate::errors::Error;
use crate::message::Authorization;

verus! {

/// The MD5 digest of a string, written as lowercase hexadecimal; a
/// function of the input alone.
pub uninterp spec fn md5_hex_of(s: Seq<char>) -> Seq<char>;

/// Relies on md5::compute and the crate's LowerHex formatting: the
/// digest of the input bytes alone, written as 32 hex digits.
#[verifier::external_body]
fn md5_hex(s: &str) -> (r: String)
    ensures
        r@ == md5_hex_of(s@),
        r@.len() == 32,
{
    format!("{:x}", md5::compute(s.as_bytes()))
}

/// A colon, the separator of every digest input field.
pub open spec fn colon() -> Seq<char> {
    seq![':']
}

/// The digest a credential holder offers, per RFC 2617 without qop:
/// md5(md5(username:realm:password) : nonce : md5(method:uri)).
pub open spec fn expected_digest(
    username: Seq<char>,
    realm: Seq<char>,
    password: Seq<char>,
    nonce: Seq<char>,
    method: Seq<char>,
    uri: Seq<char>,
) -> Seq<char> {
    md5_hex_of(
        md5_hex_of(username + colon() + realm + colon() + password) + colon() + nonce + colon()
            + md5_hex_of(method + colon() + uri),
    )
}

/// The method name a registration digest covers.
pub open spec fn register_method_text() -> Seq<char> {
    "REGISTER"@
}

/// The digest expected of a REGISTER's Authorization header for the
/// given password.
pub open spec fn register_digest(offer: Authorization, password: Seq<char>) -> Seq<char> {
    expected_digest(
        offer.username@,
        offer.realm@,
        password,
        offer.nonce@,
        register_method_text(),
        offer.uri@,
    )
}

/// The password registrations are verified against.
pub open spec fn stored_password() -> Seq<char> {
    "123123123"@
}

/// Whether an offered digest answer equals the computed digest.
pub fn digest_matches(offered: &String, computed: &String) -> (r: bool)
    ensures
        r == (offered@ == computed@),
{
    offered.eq(computed)
}

/// The digest expected of a REGISTER offer for the given password.
fn compute_register_digest(offer: &Authorization, password: &str) -> (r: String)
    ensures
        r@ == register_digest(*offer, password@),
{
    let a1 = join_fields(&offer.username, &offer.realm, password);
    let ha1 = md5_hex(a1.as_str());
    proof {
        reveal_strlit(":");
        assert(":"@ =~= colon());
        assert(a1@ =~= offer.username@ + colon() + offer.realm@ + colon() + password@);
    }
    let a2 = String::from_str("REGISTER").concat(":").concat(offer.uri.as_str());
    proof {
        reveal_strlit(":");
        assert(a2@ =~= register_method_text() + colon() + offer.uri@);
    }
    let ha2 = md5_hex(a2.as_str());
    let kd = ha1.concat(":").concat(offer.nonce.as_str()).concat(":").concat(ha2.as_str());
    proof {
        reveal_strlit(":");
        assert(kd@ =~= md5_hex_of(offer.username@ + colon() + offer.realm@ + colon() + password@)
            + colon() + offer.nonce@ + colon() + md5_hex_of(
            register_method_text() + colon() + offer.uri@,
        ));
    }
    md5_hex(kd.as_str())
}

/// Three fields joined by colons.
fn join_fields(a: &String, b: &String, c: &str) -> (r: String)
    ensures
        r@ == a@ + ":"@ + b@ + ":"@ + c@,
{
    let r = a.clone().concat(":").concat(b.as_str()).concat(":").concat(c);
    proof {
        assert(r@ =~= a@ + ":"@ + b@ + ":"@ + c@);
    }
    r
}

/// Whether the offered Authorization proves knowledge of the stored
/// password: true exactly when its answer equals the digest computed
/// over its own fields and that password.
pub fn is_authorized(offer: Authorization) -> (r: Result<bool, Error>)
    ensures
        r is Ok,
        r.unwrap() == (offer.response@ == register_digest(offer, stored_password())),
{
    let password = String::from_str("123123123");
    proof {
        reveal_strlit("123123123");
    }
    let computed = compute_register_digest(&offer, password.as_str());
    Ok(digest_matches(&offer.response, &computed))
}

} // verus!
