//! Checking the signature that Twitch puts on each EventSub message.
//!
//! Twitch signs the concatenation of the message id, the message timestamp
//! and the raw body with HMAC-SHA256 under the subscription's secret, and
//! sends `sha256=` followed by the lowercase hexadecimal tag.

use hmac::{Hmac, KeyInit, Mac};
use sha2::Sha256;
use vstd::prelude::*;
use vstd::utf8::encode_utf8;

use crate::notifications::TwitchHeaders;
use crate::text::{hex_lower, hex_lower_injective, push_hex_lower};

verus! {

/// The HMAC-SHA256 tag of `message` under `key` (RFC 2104 over SHA-256).
pub uninterp spec fn hmac_sha256(key: Seq<u8>, message: Seq<u8>) -> Seq<u8>;

/// Computes an HMAC-SHA256 tag with the `hmac` and `sha2` crates
/// (`Hmac::<Sha256>::new_from_slice`, `update`, `finalize`). Trusted: the tag
/// equals `hmac_sha256` of the key and message bytes and is 32 bytes long.
/// `new_from_slice` accepts keys of any length, so its error arm is never taken.
#[verifier::external_body]
fn compute_hmac_sha256(key: &[u8], message: &[u8]) -> (tag: Vec<u8>)
    ensures
        tag@ == hmac_sha256(key@, message@),
        tag@.len() == 32,
{
    match <Hmac<Sha256> as KeyInit>::new_from_slice(key) {
        Ok(mut mac) => {
            mac.update(message);
            mac.finalize().into_bytes().to_vec()
        },
        Err(_) => Vec::new(),
    }
}

/// The text that Twitch signs: message id, then timestamp, then body.
pub open spec fn signed_text(id: Seq<char>, timestamp: Seq<char>, body: Seq<char>) -> Seq<char> {
    id + timestamp + body
}

/// The signature header value that a genuine message carries.
pub open spec fn expected_signature(
    secret: Seq<char>,
    id: Seq<char>,
    timestamp: Seq<char>,
    body: Seq<char>,
) -> Seq<char> {
    "sha256="@ + hex_lower(
        hmac_sha256(encode_utf8(secret), encode_utf8(signed_text(id, timestamp, body))),
    )
}

/// Whether the headers carry the signature that `secret` gives to `body`.
pub open spec fn signature_matches(secret: Seq<char>, headers: TwitchHeaders, body: Seq<char>) -> bool {
    headers.signature@ == expected_signature(secret, headers.id@, headers.timestamp@, body)
}

/// Computes the signature header value that `secret` gives to a message.
pub fn message_signature(secret: &str, id: &str, timestamp: &str, body: &str) -> (sig: String)
    ensures
        sig@ == expected_signature(secret@, id@, timestamp@, body@),
{
    let mut text = String::from_str(id);
    text.append(timestamp);
    text.append(body);
    let tag = compute_hmac_sha256(secret.as_bytes(), text.as_str().as_bytes());
    let mut sig = String::from_str("sha256=");
    push_hex_lower(&mut sig, tag.as_slice());
    sig
}

/// Whether an EventSub message carries the signature that `secret` gives it.
pub fn good_signature(secret: &str, headers: &TwitchHeaders, body: &str) -> (ok: bool)
    ensures
        ok == signature_matches(secret@, *headers, body@),
{
    let expected = message_signature(
        secret,
        headers.id.as_str(),
        headers.timestamp.as_str(),
        body,
    );
    expected == headers.signature
}

/// The placeholder check kept beside `good_signature`: it accepts every message.
pub fn good_hmac(secret: String, headers: TwitchHeaders) -> (ok: bool)
    ensures
        ok,
{
    true
}

/// Comparing signature headers is comparing HMAC tags: two messages get the
/// same expected signature exactly when their tags are equal.
pub proof fn signatures_equal_iff_tags_equal(
    secret1: Seq<char>,
    id1: Seq<char>,
    timestamp1: Seq<char>,
    body1: Seq<char>,
    secret2: Seq<char>,
    id2: Seq<char>,
    timestamp2: Seq<char>,
    body2: Seq<char>,
)
    ensures
        expected_signature(secret1, id1, timestamp1, body1) == expected_signature(
            secret2,
            id2,
            timestamp2,
            body2,
        ) <==> hmac_sha256(encode_utf8(secret1), encode_utf8(signed_text(id1, timestamp1, body1)))
            == hmac_sha256(encode_utf8(secret2), encode_utf8(signed_text(id2, timestamp2, body2))),
{
    let tag1 = hmac_sha256(encode_utf8(secret1), encode_utf8(signed_text(id1, timestamp1, body1)));
    let tag2 = hmac_sha256(encode_utf8(secret2), encode_utf8(signed_text(id2, timestamp2, body2)));
    let prefix = "sha256="@;
    let sig1 = expected_signature(secret1, id1, timestamp1, body1);
    let sig2 = expected_signature(secret2, id2, timestamp2, body2);
    if sig1 == sig2 {
        assert(sig1.subrange(prefix.len() as int, sig1.len() as int) =~= hex_lower(tag1));
        assert(sig2.subrange(prefix.len() as int, sig2.len() as int) =~= hex_lower(tag2));
        hex_lower_injective(tag1, tag2);
    }
}

/// The signature of a message is `sha256=` followed by the lowercase hex of
/// the HMAC-SHA256, under the UTF-8 secret, of the UTF-8 text that is exactly
/// the message id, then the timestamp, then the body, with nothing dropped or
/// rewritten; and a message is accepted exactly when its signature header is
/// that value.
pub proof fn signature_is_hmac_of_id_timestamp_body(
    secret: Seq<char>,
    headers: TwitchHeaders,
    id: Seq<char>,
    timestamp: Seq<char>,
    body: Seq<char>,
)
    ensures
        expected_signature(secret, id, timestamp, body) == "sha256="@ + hex_lower(
            hmac_sha256(encode_utf8(secret), encode_utf8(id + timestamp + body)),
        ),
        signature_matches(secret, headers, body) <==> headers.signature@ == "sha256="@
            + hex_lower(
            hmac_sha256(
                encode_utf8(secret),
                encode_utf8(headers.id@ + headers.timestamp@ + body),
            ),
        ),
{
}

} // verus!
