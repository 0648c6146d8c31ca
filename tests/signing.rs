use base64::Engine;
use kalshi::signing::{api_key_headers, api_key_headers_at, canonical_message, sign_pss_sha256, SignError};
use openssl::ec::{EcGroup, EcKey};
use openssl::hash::MessageDigest;
use openssl::nid::Nid;
use openssl::pkey::{PKey, Private};
use openssl::rsa::{Padding, Rsa};
use openssl::sign::{RsaPssSaltlen, Verifier};
use reqwest::Method;

fn rsa_key() -> PKey<Private> {
    PKey::from_rsa(Rsa::generate(2048).unwrap()).unwrap()
}

fn verifies(key: &PKey<Private>, message: &[u8], signature_b64: &str) -> bool {
    let sig = base64::engine::general_purpose::STANDARD.decode(signature_b64).unwrap();
    let mut v = Verifier::new(MessageDigest::sha256(), key).unwrap();
    v.set_rsa_padding(Padding::PKCS1_PSS).unwrap();
    v.set_rsa_pss_saltlen(RsaPssSaltlen::DIGEST_LENGTH).unwrap();
    v.verify_oneshot(&sig, message).unwrap_or(false)
}

#[test]
fn clock_before_epoch_gives_clock_error() {
    let key = rsa_key();
    let r = api_key_headers_at("id", &key, "/markets", "GET", None);
    assert!(matches!(r, Err(SignError::Clock)));
}

#[test]
fn signature_round_trips_and_detects_changes() {
    let key = rsa_key();
    let other = rsa_key();
    let h = api_key_headers_at("id", &key, "/markets", "GET", Some(1700000000000)).unwrap();
    assert_eq!(h[2].1, "1700000000000");
    assert!(verifies(&key, b"1700000000000GET/markets", &h[1].1));
    assert!(!verifies(&key, b"1700000000000GET/markets2", &h[1].1));
    assert!(!verifies(&other, b"1700000000000GET/markets", &h[1].1));
}

#[test]
fn two_signatures_of_one_request_both_verify() {
    let key = rsa_key();
    let a = api_key_headers_at("id", &key, "/markets", "GET", Some(1700000000000)).unwrap();
    let b = api_key_headers_at("id", &key, "/markets", "GET", Some(1700000000000)).unwrap();
    assert!(verifies(&key, b"1700000000000GET/markets", &a[1].1));
    assert!(verifies(&key, b"1700000000000GET/markets", &b[1].1));
}

#[test]
fn sign_pss_sha256_signs_the_message_bytes() {
    let key = rsa_key();
    let msg = canonical_message(5, "DELETE", "/orders/1");
    let sig = sign_pss_sha256(&key, msg.as_bytes()).unwrap();
    assert_eq!(sig.len(), 256);
    let b64 = base64::engine::general_purpose::STANDARD.encode(&sig);
    assert!(verifies(&key, b"5DELETE/orders/1", &b64));
}

#[test]
fn live_headers_have_fixed_names_and_numeric_timestamp() {
    let key = rsa_key();
    let h = api_key_headers("my-key-id", &key, "/portfolio/balance", Method::GET).unwrap();
    assert_eq!(h.len(), 3);
    assert_eq!(h[0].0, "KALSHI-ACCESS-KEY");
    assert_eq!(h[1].0, "KALSHI-ACCESS-SIGNATURE");
    assert_eq!(h[2].0, "KALSHI-ACCESS-TIMESTAMP");
    assert_eq!(h[0].1, "my-key-id");
    let ts: u128 = h[2].1.parse().unwrap();
    let msg = format!("{ts}GET/portfolio/balance");
    assert!(verifies(&key, msg.as_bytes(), &h[1].1));
}

#[test]
fn non_rsa_key_gives_signing_error() {
    let group = EcGroup::from_curve_name(Nid::X9_62_PRIME256V1).unwrap();
    let key = PKey::from_ec_key(EcKey::generate(&group).unwrap()).unwrap();
    let r = api_key_headers_at("id", &key, "/markets", "GET", Some(1));
    assert!(matches!(r, Err(SignError::Signing(_))));
}
