//! Message authentication of delivered bodies.
//!
//! When a secret token is configured, each delivery carries the HMAC-SHA1
//! of the exact body bytes, keyed by the token and sent as upper-case hex
//! in a signature header.

use crate::hexcode::{hex_encode, hex_upper_of};
use vstd::prelude::*;

verus! {

/// The HMAC-SHA1 tag over `msg` keyed by `key`.  A function of its two
/// arguments alone; its value is not stated here.
pub uninterp spec fn hmac_sha1_of(key: Seq<u8>, msg: Seq<u8>) -> Seq<u8>;

/// Relies on `ring::hmac::sign` with `HMAC_SHA1_FOR_LEGACY_USE_ONLY`: the
/// tag is a deterministic function of the key and message bytes alone,
/// and is one SHA-1 digest long (20 bytes).
#[verifier::external_body]
fn hmac_sha1(key: &Vec<u8>, msg: &Vec<u8>) -> (r: Vec<u8>)
    ensures
        r@ == hmac_sha1_of(key@, msg@),
        r@.len() == 20,
{
    let k = ring::hmac::Key::new(ring::hmac::HMAC_SHA1_FOR_LEGACY_USE_ONLY, key.as_slice());
    let tag = ring::hmac::sign(&k, msg.as_slice());
    tag.as_ref().to_vec()
}

/// The signature attached to a delivery: the upper-case hex form of the
/// HMAC-SHA1 tag over the body, keyed by the secret token.
pub fn compute_signature(token: &Vec<u8>, body: &Vec<u8>) -> (r: String)
    ensures
        r@ == hex_upper_of(hmac_sha1_of(token@, body@)),
{
    let tag = hmac_sha1(token, body);
    hex_encode(&tag)
}

/// The same secret token and the same body bytes always yield the same
/// hex signature; it cannot vary between runs or deliveries.
pub proof fn lemma_signature_deterministic(
    token1: Seq<u8>,
    body1: Seq<u8>,
    token2: Seq<u8>,
    body2: Seq<u8>,
)
    requires
        token1 == token2,
        body1 == body2,
    ensures
        hex_upper_of(hmac_sha1_of(token1, body1)) == hex_upper_of(hmac_sha1_of(token2, body2)),
{
}

} // verus!
