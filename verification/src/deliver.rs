//! Assembly of one outbound delivery and the per-response verdict.
//!
//! The body bytes, content-type header value and optional signature are
//! fixed here; the surrounding program only posts them to each hook URL
//! in configured order and stops at the first failure.

use crate::config::{Config, ConfigContentType};
use crate::form::form_payload;
use crate::hexcode::hex_upper_of;
use crate::json::json_payload;
use crate::payload::Payload;
use crate::sign::{compute_signature, hmac_sha1_of};
use vstd::prelude::*;
use vstd::string::StringExecFns;

verus! {

/// Everything one HTTP POST carries: the body, the `Content-Type` header
/// value, and the hex HMAC-SHA1 signature when a secret token is
/// configured.
#[derive(Debug)]
pub struct DeliveryRequest {
    pub body: Vec<u8>,
    pub content_type: String,
    pub signature: Option<String>,
}

/// Builds the delivery for a push event: the body in the configured
/// encoding, the matching content-type header value, and the signature
/// over exactly those body bytes when a secret token is configured.
pub fn prepare_delivery(config: &Config, payload: &Payload) -> (r: DeliveryRequest)
    ensures
        config.content_type == ConfigContentType::Json ==> r.body@ == json_payload(*payload)
            && r.content_type@ == "application/json"@,
        config.content_type == ConfigContentType::UrlEncoded ==> r.body@ == form_payload(*payload)
            && r.content_type@ == "application/x-www-form-urlencoded"@,
        config.secret_token is None ==> r.signature is None,
        config.secret_token matches Some(t) ==> (r.signature matches Some(s) && s@
            == hex_upper_of(hmac_sha1_of(t@, r.body@))),
{
    let (body, content_type) = match config.content_type {
        ConfigContentType::Json => (
            crate::json::to_json(payload),
            String::from_str("application/json"),
        ),
        ConfigContentType::UrlEncoded => (
            crate::form::to_urlencoded(payload),
            String::from_str("application/x-www-form-urlencoded"),
        ),
    };
    let signature = match &config.secret_token {
        Some(t) => Some(compute_signature(t, &body)),
        None => None,
    };
    DeliveryRequest { body, content_type, signature }
}

/// The verdict on one hook URL's HTTP response: any status outside the
/// success range fails the delivery, and a failed delivery aborts the
/// remaining hook URLs for this push event.
pub fn delivery_aborts(status: u16) -> (r: bool)
    ensures
        r == (status >= 400),
{
    status >= 400
}

/// Rendering is deterministic in either encoding: equal payload values
/// yield equal body bytes, so a signature computed over them cannot vary
/// between runs.
pub proof fn lemma_serialization_deterministic(a: Payload, b: Payload)
    requires
        a == b,
    ensures
        json_payload(a) == json_payload(b),
        form_payload(a) == form_payload(b),
{
}

} // verus!
