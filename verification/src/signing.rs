//! The TC3-HMAC-SHA256 signature of a request.
//!
//! A request is reduced to a canonical text; the hash of that text, the time
//! and the credential scope make the string to sign; a key derived from the
//! secret by three chained HMAC steps signs it; the `Authorization` header
//! carries the result.

use crate::digest::{hex_encode, hmac_sha256, hmac_sha256_code, sha256_hex, sha256_hex_digest};
use crate::http_profile::{is_get_method, is_post, is_post_method, lemma_get_is_not_post};
use crate::text::{decimal, decimal_text, hex_lower, lemma_hex_lower_is_injective};
use vstd::prelude::*;
use vstd::utf8::encode_utf8;

verus! {

/// The two signed headers, each on a line of its own: content type, then host.
pub open spec fn canonical_headers_text(content_type: Seq<char>, host: Seq<char>) -> Seq<char> {
    "content-type:"@ + content_type + "\nhost:"@ + host + "\n"@
}

/// The payload field of the canonical request: the SHA-256 digest of the body
/// in hexadecimal for POST, empty for every other method.
pub open spec fn hashed_payload_text(method: Seq<char>, body: Seq<u8>) -> Seq<char> {
    if is_post_method(method) {
        sha256_hex(body)
    } else {
        Seq::empty()
    }
}

/// The canonical request: six fields joined by newlines. They are the method,
/// the path `/`, the empty query string, the canonical headers, the names of
/// the signed headers, and the hashed payload.
pub open spec fn canonical_request_text(
    method: Seq<char>,
    content_type: Seq<char>,
    host: Seq<char>,
    hashed_payload: Seq<char>,
) -> Seq<char> {
    method + "\n"@ + "/"@ + "\n"@ + "\n"@ + canonical_headers_text(content_type, host) + "\n"@
        + "content-type;host"@ + "\n"@ + hashed_payload
}

/// The canonical request of a method, content type, host and body.
pub open spec fn canonical_request_of(
    method: Seq<char>,
    content_type: Seq<char>,
    host: Seq<char>,
    body: Seq<u8>,
) -> Seq<char> {
    canonical_request_text(method, content_type, host, hashed_payload_text(method, body))
}

/// The hexadecimal SHA-256 digest of a text's UTF-8 bytes.
pub open spec fn text_digest(text: Seq<char>) -> Seq<char> {
    sha256_hex(encode_utf8(text))
}

/// The scope of a signature: date, service and the closing word `tc3_request`.
pub open spec fn credential_scope_text(date: Seq<char>, service: Seq<char>) -> Seq<char> {
    date + "/"@ + service + "/tc3_request"@
}

/// The string to sign: algorithm, timestamp in decimal, credential scope and
/// the digest of the canonical request, joined by newlines.
pub open spec fn string_to_sign_text(
    algorithm: Seq<char>,
    timestamp: int,
    credential_scope: Seq<char>,
    hashed_request: Seq<char>,
) -> Seq<char> {
    algorithm + "\n"@ + decimal_text(timestamp) + "\n"@ + credential_scope + "\n"@ + hashed_request
}

/// One step of the key chain: the HMAC-SHA256 code of a text under a key.
pub open spec fn chain_step_bytes(key: Seq<u8>, message: Seq<char>) -> Seq<u8> {
    hmac_sha256(key, encode_utf8(message))
}

/// The signing key, the end of a chain of three steps: the secret behind the
/// letters `TC3` is the key for the date, the code of the date is the key for
/// the service, and the code of the service is the key for the word
/// `tc3_request`.
pub open spec fn signing_key_bytes(
    secret_key: Seq<char>,
    date: Seq<char>,
    service: Seq<char>,
) -> Seq<u8> {
    let secret_date = chain_step_bytes(encode_utf8("TC3"@ + secret_key), date);
    let secret_service = chain_step_bytes(secret_date, service);
    chain_step_bytes(secret_service, "tc3_request"@)
}

/// The signature: the code of the string to sign under the signing key, in
/// lowercase hexadecimal.
pub open spec fn signature_text(
    secret_key: Seq<char>,
    date: Seq<char>,
    service: Seq<char>,
    string_to_sign: Seq<char>,
) -> Seq<char> {
    hex_lower(chain_step_bytes(signing_key_bytes(secret_key, date, service), string_to_sign))
}

/// The value of the `Authorization` header.
pub open spec fn authorization_header_text(
    algorithm: Seq<char>,
    secret_id: Seq<char>,
    credential_scope: Seq<char>,
    signature: Seq<char>,
) -> Seq<char> {
    algorithm + " Credential="@ + secret_id + "/"@ + credential_scope
        + ", SignedHeaders=content-type;host, Signature="@ + signature
}

/// Two texts that begin alike and end differently are different.
proof fn lemma_prefix_keeps_difference(prefix: Seq<char>, a: Seq<char>, b: Seq<char>)
    requires
        a != b,
    ensures
        prefix + a != prefix + b,
{
    if prefix + a == prefix + b {
        let n = prefix.len() as int;
        assert(a =~= (prefix + a).subrange(n, n + a.len()));
        assert((prefix + a).len() == (prefix + b).len());
        assert(b =~= (prefix + b).subrange(n, n + b.len()));
    }
}

/// The canonical request is a function of method, content type, host and
/// body: equal inputs give the same text, and so the same bytes.
pub proof fn lemma_canonical_request_repeats(
    method: Seq<char>,
    content_type: Seq<char>,
    host: Seq<char>,
    body: Seq<u8>,
    method_again: Seq<char>,
    content_type_again: Seq<char>,
    host_again: Seq<char>,
    body_again: Seq<u8>,
)
    requires
        method =~= method_again,
        content_type =~= content_type_again,
        host =~= host_again,
        body =~= body_again,
    ensures
        canonical_request_of(method, content_type, host, body) == canonical_request_of(
            method_again,
            content_type_again,
            host_again,
            body_again,
        ),
        encode_utf8(canonical_request_of(method, content_type, host, body)) == encode_utf8(
            canonical_request_of(method_again, content_type_again, host_again, body_again),
        ),
{
}

/// A GET request has an empty payload field, whatever its body.
pub proof fn lemma_get_payload_is_empty(method: Seq<char>, body: Seq<u8>)
    requires
        is_get_method(method),
    ensures
        hashed_payload_text(method, body) == Seq::<char>::empty(),
{
    lemma_get_is_not_post(method);
}

/// Two payload fields that differ give canonical requests that differ.
pub proof fn lemma_payload_field_shows_in_request(
    method: Seq<char>,
    content_type: Seq<char>,
    host: Seq<char>,
    hashed_payload: Seq<char>,
    other_payload: Seq<char>,
)
    requires
        hashed_payload != other_payload,
    ensures
        canonical_request_text(method, content_type, host, hashed_payload)
            != canonical_request_text(method, content_type, host, other_payload),
{
    let prefix = method + "\n"@ + "/"@ + "\n"@ + "\n"@ + canonical_headers_text(content_type, host)
        + "\n"@ + "content-type;host"@ + "\n"@;
    lemma_prefix_keeps_difference(prefix, hashed_payload, other_payload);
}

/// Two request digests that differ give strings to sign that differ.
pub proof fn lemma_request_digest_shows_in_string_to_sign(
    algorithm: Seq<char>,
    timestamp: int,
    credential_scope: Seq<char>,
    hashed_request: Seq<char>,
    other_request: Seq<char>,
)
    requires
        hashed_request != other_request,
    ensures
        string_to_sign_text(algorithm, timestamp, credential_scope, hashed_request)
            != string_to_sign_text(algorithm, timestamp, credential_scope, other_request),
{
    let prefix = algorithm + "\n"@ + decimal_text(timestamp) + "\n"@ + credential_scope + "\n"@;
    lemma_prefix_keeps_difference(prefix, hashed_request, other_request);
}

/// Two authentication codes that differ give signatures that differ.
pub proof fn lemma_code_shows_in_signature(code: Seq<u8>, other_code: Seq<u8>)
    requires
        code != other_code,
    ensures
        hex_lower(code) != hex_lower(other_code),
{
    if hex_lower(code) == hex_lower(other_code) {
        lemma_hex_lower_is_injective(code, other_code);
    }
}

/// Two signatures that differ give `Authorization` headers that differ.
pub proof fn lemma_signature_shows_in_header(
    algorithm: Seq<char>,
    secret_id: Seq<char>,
    credential_scope: Seq<char>,
    signature: Seq<char>,
    other_signature: Seq<char>,
)
    requires
        signature != other_signature,
    ensures
        authorization_header_text(algorithm, secret_id, credential_scope, signature)
            != authorization_header_text(algorithm, secret_id, credential_scope, other_signature),
{
    let prefix = algorithm + " Credential="@ + secret_id + "/"@ + credential_scope
        + ", SignedHeaders=content-type;host, Signature="@;
    lemma_prefix_keeps_difference(prefix, signature, other_signature);
}

/// Builds the canonical headers.
pub fn canonical_headers(content_type: &str, host: &str) -> (headers: String)
    ensures
        headers@ == canonical_headers_text(content_type@, host@),
{
    let mut headers = "content-type:".to_owned();
    headers.append(content_type);
    headers.append("\nhost:");
    headers.append(host);
    headers.append("\n");
    headers
}

/// Computes the payload field of the canonical request.
///
/// A GET request has an empty field; a POST request never has, whatever its
/// body.
pub fn hashed_payload(method: &str, body: &[u8]) -> (hashed: String)
    ensures
        hashed@ == hashed_payload_text(method@, body@),
        is_get_method(method@) ==> hashed@.len() == 0,
        is_post_method(method@) ==> hashed@.len() == 64,
{
    proof {
        lemma_get_is_not_post(method@);
    }
    if is_post(method) {
        sha256_hex_digest(body)
    } else {
        String::new()
    }
}

/// Builds the canonical request from its parts, the payload already hashed.
pub fn canonical_request(
    method: &str,
    content_type: &str,
    host: &str,
    hashed_payload: &str,
) -> (request: String)
    ensures
        request@ == canonical_request_text(method@, content_type@, host@, hashed_payload@),
{
    let headers = canonical_headers(content_type, host);
    let mut request = method.to_owned();
    request.append("\n");
    request.append("/");
    request.append("\n");
    request.append("\n");
    request.append(headers.as_str());
    request.append("\n");
    request.append("content-type;host");
    request.append("\n");
    request.append(hashed_payload);
    request
}

/// Builds the canonical request of a body: the same text for the same method,
/// content type, host and body, however often it is computed.
pub fn canonical_request_for(method: &str, content_type: &str, host: &str, body: &[u8]) -> (request:
    String)
    ensures
        request@ == canonical_request_of(method@, content_type@, host@, body@),
{
    let hashed = hashed_payload(method, body);
    canonical_request(method, content_type, host, hashed.as_str())
}

/// Hashes a text: the hexadecimal SHA-256 digest of its UTF-8 bytes.
pub fn hash_text(text: &str) -> (digest: String)
    ensures
        digest@ == text_digest(text@),
        digest@.len() == 64,
{
    sha256_hex_digest(text.as_bytes())
}

/// Builds the credential scope.
pub fn credential_scope(date: &str, service: &str) -> (scope: String)
    ensures
        scope@ == credential_scope_text(date@, service@),
{
    let mut scope = date.to_owned();
    scope.append("/");
    scope.append(service);
    scope.append("/tc3_request");
    scope
}

/// Builds the string to sign.
pub fn string_to_sign(
    algorithm: &str,
    timestamp: i64,
    credential_scope: &str,
    hashed_request: &str,
) -> (text: String)
    ensures
        text@ == string_to_sign_text(algorithm@, timestamp as int, credential_scope@, hashed_request@),
{
    let seconds = decimal(timestamp);
    let mut text = algorithm.to_owned();
    text.append("\n");
    text.append(seconds.as_str());
    text.append("\n");
    text.append(credential_scope);
    text.append("\n");
    text.append(hashed_request);
    text
}

/// Takes one step of the key chain.
pub fn chain_step(key: &[u8], message: &str) -> (code: Vec<u8>)
    ensures
        code@ == chain_step_bytes(key@, message@),
{
    hmac_sha256_code(key, message.as_bytes())
}

/// Derives the signing key of a secret for one date and one service.
pub fn signing_key(secret_key: &str, date: &str, service: &str) -> (key: Vec<u8>)
    ensures
        key@ == signing_key_bytes(secret_key@, date@, service@),
{
    let mut prefixed = "TC3".to_owned();
    prefixed.append(secret_key);
    let secret_date = chain_step(prefixed.as_str().as_bytes(), date);
    let secret_service = chain_step(secret_date.as_slice(), service);
    chain_step(secret_service.as_slice(), "tc3_request")
}

/// Signs a string with the key derived from the secret, the date and the
/// service.
pub fn signature(secret_key: &str, date: &str, service: &str, string_to_sign: &str) -> (hex:
    String)
    ensures
        hex@ == signature_text(secret_key@, date@, service@, string_to_sign@),
{
    let key = signing_key(secret_key, date, service);
    let code = chain_step(key.as_slice(), string_to_sign);
    hex_encode(code.as_slice())
}

/// Builds the value of the `Authorization` header.
pub fn authorization_header(
    algorithm: &str,
    secret_id: &str,
    credential_scope: &str,
    signature: &str,
) -> (header: String)
    ensures
        header@ == authorization_header_text(
            algorithm@,
            secret_id@,
            credential_scope@,
            signature@,
        ),
{
    let mut header = algorithm.to_owned();
    header.append(" Credential=");
    header.append(secret_id);
    header.append("/");
    header.append(credential_scope);
    header.append(", SignedHeaders=content-type;host, Signature=");
    header.append(signature);
    header
}

} // verus!
