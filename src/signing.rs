//! RSA-PSS request signing: the headers that authenticate one request.
use crate::decimal::{decimal_of, decimal_string, is_decimal_digit, lemma_decimal_is_digits};
use crate::encoding::{base64_of, base64_standard};
use openssl::error::ErrorStack;
use openssl::hash::MessageDigest;
use openssl::pkey::{PKey, Private};
use openssl::rsa::Padding;
use openssl::sign::{RsaPssSaltlen, Signer};
use reqwest::Method;
use std::time::SystemTime;
use vstd::prelude::*;

verus! {

#[verifier::external_type_specification]
#[verifier::external_body]
#[verifier::reject_recursive_types(T)]
pub struct ExPKey<T>(PKey<T>);

#[verifier::external_type_specification]
#[verifier::external_body]
pub struct ExPrivate(Private);

#[verifier::external_type_specification]
#[verifier::external_body]
pub struct ExSigner<'a>(Signer<'a>);

#[verifier::external_type_specification]
#[verifier::external_body]
pub struct ExErrorStack(ErrorStack);

#[verifier::external_type_specification]
#[verifier::external_body]
pub struct ExMethod(Method);

#[verifier::external_type_specification]
#[verifier::external_body]
pub struct ExSystemTime(SystemTime);

/// Why no header set was produced.
#[derive(Debug)]
pub enum SignError {
    /// The wall clock read earlier than the Unix epoch.
    Clock,
    /// The cryptographic backend failed to set up or to sign.
    Signing(ErrorStack),
}

/// Relies on openssl's `Signer::new` with `MessageDigest::sha256()`: a new
/// signing context over `key`, hashing with SHA-256.
#[verifier::external_body]
fn sha256_signer<'a>(key: &'a PKey<Private>) -> (r: Result<Signer<'a>, ErrorStack>) {
    Signer::new(MessageDigest::sha256(), key)
}

/// Relies on openssl's `Signer::set_rsa_padding`: selects PSS padding.
#[verifier::external_body]
fn use_pss_padding(signer: &mut Signer) -> (r: Result<(), ErrorStack>) {
    signer.set_rsa_padding(Padding::PKCS1_PSS)
}

/// Relies on openssl's `Signer::set_rsa_pss_saltlen`: a PSS salt as long as
/// the digest.
#[verifier::external_body]
fn use_digest_length_salt(signer: &mut Signer) -> (r: Result<(), ErrorStack>) {
    signer.set_rsa_pss_saltlen(RsaPssSaltlen::DIGEST_LENGTH)
}

/// Relies on openssl's `Signer::sign_oneshot_to_vec`: the raw signature of
/// `data`, signed in one pass.
#[verifier::external_body]
fn sign_in_one_pass(signer: &mut Signer, data: &[u8]) -> (r: Result<Vec<u8>, ErrorStack>) {
    signer.sign_oneshot_to_vec(data)
}

/// Relies on `http::Method::as_str` (re-exported by reqwest): the method's name.
#[verifier::external_body]
fn method_name(method: &Method) -> (r: &str) {
    method.as_str()
}

/// Relies on `SystemTime::now`: the current wall-clock time.
#[verifier::external_body]
fn wall_clock_now() -> (r: SystemTime) {
    SystemTime::now()
}

/// Relies on `SystemTime::duration_since(UNIX_EPOCH)`: the whole milliseconds
/// from the epoch to `t`, or `None` where `t` is earlier than the epoch.
#[verifier::external_body]
fn millis_since_epoch(t: &SystemTime) -> (r: Option<u128>) {
    match t.duration_since(std::time::UNIX_EPOCH) {
        Ok(d) => Some(d.as_millis()),
        Err(_) => None,
    }
}

/// The text that is signed for a request: the timestamp in decimal, the method
/// and the path, with no separators.
pub open spec fn message_of(timestamp_ms: nat, method: Seq<char>, path: Seq<char>) -> Seq<char> {
    decimal_of(timestamp_ms) + method + path
}

/// The header pairs, as text, that carry a key id, a raw signature and a
/// timestamp.
pub open spec fn header_set(key_id: Seq<char>, signature: Seq<u8>, timestamp_ms: nat) -> Seq<
    (Seq<char>, Seq<char>),
> {
    seq![
        ("KALSHI-ACCESS-KEY"@, key_id),
        ("KALSHI-ACCESS-SIGNATURE"@, base64_of(signature)),
        ("KALSHI-ACCESS-TIMESTAMP"@, decimal_of(timestamp_ms)),
    ]
}

/// The header pairs of `h`, as text.
pub open spec fn pairs_of(h: Seq<(&'static str, String)>) -> Seq<(Seq<char>, Seq<char>)> {
    h.map_values(|p: (&'static str, String)| (p.0@, p.1@))
}

/// Whether `h` has the three header names, in order, and a timestamp value
/// that is a non-empty run of decimal digits.
pub open spec fn well_formed_headers(h: Seq<(Seq<char>, Seq<char>)>) -> bool {
    &&& h.len() == 3
    &&& h[0].0 == "KALSHI-ACCESS-KEY"@
    &&& h[1].0 == "KALSHI-ACCESS-SIGNATURE"@
    &&& h[2].0 == "KALSHI-ACCESS-TIMESTAMP"@
    &&& h[2].1.len() > 0
    &&& forall|i: int| 0 <= i < h[2].1.len() ==> is_decimal_digit(#[trigger] h[2].1[i])
}

/// Every header set has exactly the three header names, in order, and a
/// timestamp value that reads as a non-negative decimal integer.
pub proof fn lemma_header_set_well_formed(key_id: Seq<char>, signature: Seq<u8>, timestamp_ms: nat)
    ensures
        well_formed_headers(header_set(key_id, signature, timestamp_ms)),
{
    lemma_decimal_is_digits(timestamp_ms);
}

/// Returns the text signed for a request at `timestamp_ms` with `method` and `path`.
pub fn canonical_message(timestamp_ms: u128, method: &str, path: &str) -> (r: String)
    ensures
        r@ == message_of(timestamp_ms as nat, method@, path@),
{
    let mut msg = decimal_string(timestamp_ms);
    msg.append(method);
    msg.append(path);
    msg
}

/// Returns the three headers for `key_id`, the raw `signature` and `timestamp_ms`.
pub fn assemble_headers(key_id: &str, signature: &[u8], timestamp_ms: u128) -> (r: Vec<
    (&'static str, String),
>)
    ensures
        pairs_of(r@) == header_set(key_id@, signature@, timestamp_ms as nat),
{
    let mut headers: Vec<(&'static str, String)> = Vec::new();
    headers.push(("KALSHI-ACCESS-KEY", String::from_str(key_id)));
    headers.push(("KALSHI-ACCESS-SIGNATURE", base64_standard(signature)));
    headers.push(("KALSHI-ACCESS-TIMESTAMP", decimal_string(timestamp_ms)));
    assert(pairs_of(headers@) =~= header_set(key_id@, signature@, timestamp_ms as nat));
    headers
}

/// Signs `message` with `p_key` under RSA-PSS with SHA-256 and a salt as long
/// as the digest. Each call sets up a signing context of its own; the first
/// failure of the backend is returned as it came.
pub fn sign_pss_sha256(p_key: &PKey<Private>, message: &[u8]) -> (r: Result<Vec<u8>, ErrorStack>) {
    let mut signer = match sha256_signer(p_key) {
        Ok(s) => s,
        Err(e) => return Err(e),
    };
    match use_pss_padding(&mut signer) {
        Ok(()) => {},
        Err(e) => return Err(e),
    }
    match use_digest_length_salt(&mut signer) {
        Ok(()) => {},
        Err(e) => return Err(e),
    }
    sign_in_one_pass(&mut signer, message)
}

/// Builds the headers for a request whose clock reading is `now_ms`
/// (milliseconds since the epoch; `None` where the clock read earlier).
pub fn api_key_headers_at(
    key_id: &str,
    p_key: &PKey<Private>,
    path: &str,
    method: &str,
    now_ms: Option<u128>,
) -> (r: Result<Vec<(&'static str, String)>, SignError>)
    ensures
        now_ms is None <==> r matches Err(SignError::Clock),
        r matches Err(SignError::Signing(_)) ==> now_ms is Some,
        r matches Ok(h) ==> exists|signature: Seq<u8>|
            pairs_of(h@) == header_set(key_id@, signature, now_ms->Some_0 as nat),
        r matches Ok(h) ==> well_formed_headers(pairs_of(h@)),
{
    let ts = match now_ms {
        Some(t) => t,
        None => return Err(SignError::Clock),
    };
    let msg = canonical_message(ts, method, path);
    match sign_pss_sha256(p_key, msg.as_str().as_bytes()) {
        Ok(sig) => {
            let headers = assemble_headers(key_id, sig.as_slice(), ts);
            proof {
                lemma_header_set_well_formed(key_id@, sig@, ts as nat);
            }
            Ok(headers)
        },
        Err(e) => Err(SignError::Signing(e)),
    }
}

/// Builds the headers that authenticate a `method` request to `path` now.
pub fn api_key_headers(key_id: &str, p_key: &PKey<Private>, path: &str, method: Method) -> (r:
    Result<Vec<(&'static str, String)>, SignError>)
    ensures
        r matches Ok(h) ==> exists|signature: Seq<u8>, timestamp_ms: nat|
            pairs_of(h@) == header_set(key_id@, signature, timestamp_ms),
        r matches Ok(h) ==> well_formed_headers(pairs_of(h@)),
{
    let now = wall_clock_now();
    let now_ms = millis_since_epoch(&now);
    api_key_headers_at(key_id, p_key, path, method_name(&method), now_ms)
}

} // verus!
