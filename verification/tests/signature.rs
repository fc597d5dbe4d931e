use discordant::hex::{decode_hex, HexError};
use discordant::signature::{
    discord_verify, verify, verify_signature, verify_signature_with_key, DiscordVerify, Headers,
    State, VerifyError,
};
use ed25519_dalek::{Keypair, PublicKey, SecretKey, Signer};
use http::header::{HeaderName, HeaderValue};
use http::HeaderMap;

fn hex(bytes: &[u8]) -> String {
    let mut out = String::new();
    for b in bytes {
        out.push_str(&format!("{:02x}", b));
    }
    out
}

fn keypair() -> Keypair {
    let secret = SecretKey::from_bytes(&[7u8; 32]).unwrap();
    let public = PublicKey::from(&secret);
    Keypair { secret, public }
}

fn sign(timestamp: &str, body: &str) -> Vec<u8> {
    let message = format!("{}{}", timestamp, body);
    keypair().sign(message.as_bytes()).to_bytes().to_vec()
}

fn key_hex() -> String {
    hex(keypair().public.as_bytes())
}

fn headers(timestamp: &str, signature: &str) -> Headers {
    let mut h = Headers::new();
    h.insert("x-signature-ed25519", signature);
    h.insert("x-signature-timestamp", timestamp);
    h
}

#[test]
fn decode_hex_reads_two_digits_per_byte() {
    assert_eq!(decode_hex("00ff1A").unwrap(), vec![0x00, 0xff, 0x1a]);
    assert_eq!(decode_hex("").unwrap(), Vec::<u8>::new());
    assert_eq!(decode_hex("0123456789abcdefABCDEF").unwrap().len(), 11);
}

#[test]
fn decode_hex_rejects_odd_length() {
    assert_eq!(decode_hex("abc"), Err(HexError::OddLength));
    assert_eq!(decode_hex("f"), Err(HexError::OddLength));
}

#[test]
fn decode_hex_rejects_what_is_no_digit() {
    assert_eq!(decode_hex("0g"), Err(HexError::InvalidDigit(1)));
    assert_eq!(decode_hex("zz00"), Err(HexError::InvalidDigit(0)));
    assert_eq!(decode_hex("+f"), Err(HexError::InvalidDigit(0)));
    assert_eq!(decode_hex("00 1"), Err(HexError::InvalidDigit(2)));
    assert_eq!(decode_hex("é"), Err(HexError::InvalidDigit(0)));
}

#[test]
fn a_signed_request_is_valid() {
    let body = "{\"type\":1}";
    let timestamp = "1700000000";
    let h = headers(timestamp, &hex(&sign(timestamp, body)));
    assert_eq!(verify_signature(&h, body, &key_hex()), Ok(true));
}

#[test]
fn the_message_is_the_timestamp_then_the_body() {
    // The same bytes split elsewhere between timestamp and body sign alike.
    let h = headers("17000", &hex(&sign("1700", "0abc")));
    assert_eq!(verify_signature(&h, "abc", &key_hex()), Ok(true));
    // Nothing stands between the two, and their order matters.
    let h = headers("17000", &hex(&sign("17000", " abc")));
    assert_eq!(verify_signature(&h, "abc", &key_hex()), Ok(false));
    let h = headers("17000", &hex(&sign("abc", "17000")));
    assert_eq!(verify_signature(&h, "abc", &key_hex()), Ok(false));
    let h = headers("17000", &hex(&sign("17000", "abc")));
    assert_eq!(verify_signature(&h, "abc", &key_hex()), Ok(true));
    let h = headers("1700", &hex(&sign("17000", "abc")));
    assert_eq!(verify_signature(&h, "0abc", &key_hex()), Ok(true));
}

#[test]
fn a_changed_body_is_invalid() {
    let timestamp = "1700000000";
    let h = headers(timestamp, &hex(&sign(timestamp, "{\"type\":1}")));
    assert_eq!(verify_signature(&h, "{\"type\":2}", &key_hex()), Ok(false));
    assert_eq!(verify_signature(&h, "{\"type\":1} ", &key_hex()), Ok(false));
}

#[test]
fn a_changed_timestamp_is_invalid() {
    let body = "{\"type\":1}";
    let h = headers("1700000001", &hex(&sign("1700000000", body)));
    assert_eq!(verify_signature(&h, body, &key_hex()), Ok(false));
}

#[test]
fn every_flipped_bit_of_body_or_timestamp_is_refused() {
    let body = "{\"type\":1}";
    let timestamp = "1700000000";
    let h = headers(timestamp, &hex(&sign(timestamp, body)));
    assert_eq!(verify_signature(&h, body, &key_hex()), Ok(true));
    // The seven low bits of each byte: what stays a text.
    for byte in 0..body.len() {
        for bit in 0..7 {
            let mut changed = body.as_bytes().to_vec();
            changed[byte] ^= 1 << bit;
            let changed = String::from_utf8(changed).unwrap();
            assert_eq!(verify_signature(&h, &changed, &key_hex()), Ok(false), "{}", changed);
        }
    }
    for byte in 0..timestamp.len() {
        for bit in 0..7 {
            let mut changed = timestamp.as_bytes().to_vec();
            changed[byte] ^= 1 << bit;
            let changed = String::from_utf8(changed).unwrap();
            let h = headers(&changed, &hex(&sign(timestamp, body)));
            assert_eq!(verify_signature(&h, body, &key_hex()), Ok(false), "{}", changed);
        }
    }
}

#[test]
fn every_flipped_bit_of_the_signature_is_refused() {
    let body = "{\"type\":1}";
    let timestamp = "1700000000";
    let good = sign(timestamp, body);
    for byte in 0..64 {
        for bit in 0..8 {
            let mut bad = good.clone();
            bad[byte] ^= 1 << bit;
            let h = headers(timestamp, &hex(&bad));
            let outcome = verify_signature(&h, body, &key_hex());
            assert!(
                outcome == Ok(false) || outcome == Err(VerifyError::SignatureFromBytes),
                "byte {} bit {}: {:?}",
                byte,
                bit,
                outcome
            );
            let state = State { public_key: key_hex(), application_id: String::from("1") };
            assert_eq!(verify(&state, body, &h), DiscordVerify::Invalid);
        }
    }
}

#[test]
fn a_missing_header_is_not_an_error() {
    let body = "{}";
    let signature = hex(&sign("1", body));
    let mut only_signature = Headers::new();
    only_signature.insert("x-signature-ed25519", &signature);
    assert_eq!(verify_signature(&only_signature, body, &key_hex()), Ok(false));
    let mut only_timestamp = Headers::new();
    only_timestamp.insert("x-signature-timestamp", "1");
    assert_eq!(verify_signature(&only_timestamp, body, &key_hex()), Ok(false));
    assert_eq!(verify_signature(&Headers::new(), body, &key_hex()), Ok(false));
    // A missing header is found before a malformed key.
    assert_eq!(verify_signature(&Headers::new(), body, "zz"), Ok(false));
}

#[test]
fn each_malformed_field_has_its_error() {
    let body = "{}";
    let good = hex(&sign("1", body));
    assert_eq!(
        verify_signature(&headers("1", "abc"), body, &key_hex()),
        Err(VerifyError::SignatureDecode)
    );
    assert_eq!(
        verify_signature(&headers("1", "zz"), body, &key_hex()),
        Err(VerifyError::SignatureDecode)
    );
    assert_eq!(
        verify_signature(&headers("1", "00ff"), body, &key_hex()),
        Err(VerifyError::SignatureFromBytes)
    );
    assert_eq!(
        verify_signature(&headers("1", &hex(&[0xffu8; 64])), body, &key_hex()),
        Err(VerifyError::SignatureFromBytes)
    );
    assert_eq!(
        verify_signature(&headers("1", &good), body, "abc"),
        Err(VerifyError::PublicKeyDecode)
    );
    assert_eq!(
        verify_signature(&headers("1", &good), body, "xy"),
        Err(VerifyError::PublicKeyDecode)
    );
    assert_eq!(
        verify_signature(&headers("1", &good), body, "00ff"),
        Err(VerifyError::PublicKeyFromBytes)
    );
    // The signature is looked at before the key.
    assert_eq!(
        verify_signature(&headers("1", "abc"), body, "abc"),
        Err(VerifyError::SignatureDecode)
    );
}

#[test]
fn every_malformed_request_is_invalid() {
    let body = "{}";
    let good = hex(&sign("1", body));
    let state = State { public_key: key_hex(), application_id: String::from("1") };
    assert_eq!(verify(&state, body, &headers("1", &good)), DiscordVerify::Valid);
    assert_eq!(verify(&state, body, &headers("1", "abc")), DiscordVerify::Invalid);
    assert_eq!(verify(&state, body, &headers("1", "nothex!!")), DiscordVerify::Invalid);
    assert_eq!(verify(&state, body, &Headers::new()), DiscordVerify::Invalid);
    let odd_key = State { public_key: String::from("abc"), application_id: String::from("1") };
    assert_eq!(verify(&odd_key, body, &headers("1", &good)), DiscordVerify::Invalid);
    let bad_key = State { public_key: String::from("gg"), application_id: String::from("1") };
    assert_eq!(verify(&bad_key, body, &headers("1", &good)), DiscordVerify::Invalid);
}

#[test]
fn a_key_counts_the_same_as_text_and_as_bytes() {
    let body = "{\"type\":1}";
    let good = hex(&sign("1", body));
    let key = keypair().public.to_bytes();
    assert_eq!(verify_signature_with_key(&headers("1", &good), body, &key), Ok(true));
    assert_eq!(verify_signature_with_key(&headers("2", &good), body, &key), Ok(false));
    assert_eq!(verify_signature_with_key(&Headers::new(), body, &key), Ok(false));
    assert_eq!(
        verify_signature_with_key(&headers("1", &good), body, &key[..31]),
        Err(VerifyError::PublicKeyFromBytes)
    );
    assert_eq!(
        verify_signature_with_key(&headers("1", "zz"), body, &key[..31]),
        Err(VerifyError::SignatureDecode)
    );
    assert_eq!(
        verify_signature_with_key(&headers("1", "00"), body, &key),
        Err(VerifyError::SignatureFromBytes)
    );
}

#[test]
fn another_key_does_not_verify() {
    let body = "{}";
    let good = hex(&sign("1", body));
    let other = PublicKey::from(&SecretKey::from_bytes(&[8u8; 32]).unwrap());
    assert_eq!(verify_signature(&headers("1", &good), body, &hex(other.as_bytes())), Ok(false));
}

#[test]
fn header_names_ignore_case_and_the_last_value_counts() {
    let mut h = Headers::new();
    assert_eq!(h.len(), 0);
    h.insert("X-Signature-Timestamp", "1");
    h.insert("other", "x");
    h.insert("x-signature-timestamp", "2");
    assert_eq!(h.len(), 3);
    assert_eq!(h.get("x-signature-timestamp"), Some("2"));
    assert_eq!(h.get("X-SIGNATURE-TIMESTAMP"), Some("2"));
    assert_eq!(h.get("OTHER"), Some("x"));
    assert_eq!(h.get("absent"), None);
    assert_eq!(h.get("othe"), None);
}

#[test]
fn uppercase_header_names_are_found() {
    let body = "{\"type\":1}";
    let mut h = Headers::new();
    h.insert("X-Signature-Ed25519", &hex(&sign("5", body)));
    h.insert("X-Signature-Timestamp", "5");
    assert_eq!(verify_signature(&h, body, &key_hex()), Ok(true));
}

#[test]
fn a_header_map_is_read_for_the_two_headers() {
    let body = "{\"type\":1}";
    let timestamp = "1700000000";
    let state = State { public_key: key_hex(), application_id: String::from("1") };
    let mut map = HeaderMap::new();
    map.insert(
        HeaderName::from_static("x-signature-ed25519"),
        HeaderValue::from_str(&hex(&sign(timestamp, body))).unwrap(),
    );
    map.insert(
        HeaderName::from_static("x-signature-timestamp"),
        HeaderValue::from_str(timestamp).unwrap(),
    );
    map.insert(HeaderName::from_static("content-type"), HeaderValue::from_static("text/json"));
    assert_eq!(discord_verify(&state, body, map.clone()), DiscordVerify::Valid);
    assert_eq!(discord_verify(&state, "{}", map.clone()), DiscordVerify::Invalid);
    let picked = Headers::from_header_map(&map);
    assert_eq!(picked.len(), 2);
    assert_eq!(picked.get("x-signature-timestamp"), Some(timestamp));
    assert_eq!(picked.get("content-type"), None);
    assert_eq!(discord_verify(&state, body, HeaderMap::new()), DiscordVerify::Invalid);
}

#[test]
fn header_values_that_are_no_text_are_passed_over() {
    let body = "{}";
    let state = State { public_key: key_hex(), application_id: String::from("1") };
    let mut map = HeaderMap::new();
    map.append(
        HeaderName::from_static("x-signature-ed25519"),
        HeaderValue::from_str(&hex(&sign("9", body))).unwrap(),
    );
    map.append(
        HeaderName::from_static("x-signature-ed25519"),
        HeaderValue::from_bytes(&[0xc3, 0xa9]).unwrap(),
    );
    map.append(HeaderName::from_static("x-signature-timestamp"), HeaderValue::from_static("8"));
    map.append(HeaderName::from_static("x-signature-timestamp"), HeaderValue::from_static("9"));
    let picked = Headers::from_header_map(&map);
    assert_eq!(picked.len(), 3);
    assert_eq!(picked.get("x-signature-timestamp"), Some("9"));
    assert_eq!(discord_verify(&state, body, map), DiscordVerify::Valid);
}
