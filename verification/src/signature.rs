//! Authentication of inbound webhook requests.
//!
//! The platform signs every request with Ed25519: the signed message is the
//! timestamp header's text immediately followed by the raw body, and the
//! signature travels in a second header, in hexadecimal.

use crate::hex::{decode_hex, hex_decoding, is_hex, lemma_hex_decoding_ok};
use crate::text::{bytes_eq_ignore_ascii_case, concat_bytes, eq_ignore_ascii_case};
use vstd::prelude::*;
use vstd::string::*;
use vstd::utf8::*;

verus! {

/// Name of the header that carries the time at which the request was signed.
pub const TIMESTAMP_HEADER: &'static str = "x-signature-timestamp";

/// Name of the header that carries the signature, in hexadecimal.
pub const SIGNATURE_HEADER: &'static str = "x-signature-ed25519";

/// Makes `ed25519_dalek::Signature` known to the verifier, as an opaque type.
#[verifier::external_type_specification]
#[verifier::external_body]
pub struct ExSignature(ed25519_dalek::Signature);

/// Makes `ed25519_dalek::PublicKey` known to the verifier, as an opaque type.
#[verifier::external_type_specification]
#[verifier::external_body]
pub struct ExPublicKey(ed25519_dalek::PublicKey);

/// The 64 bytes that a signature value holds.
pub uninterp spec fn signature_bytes(signature: ed25519_dalek::Signature) -> Seq<u8>;

/// The 32 bytes that a public key value holds.
pub uninterp spec fn public_key_bytes(key: ed25519_dalek::PublicKey) -> Seq<u8>;

/// Whether `bytes` are accepted as an Ed25519 public key: 32 bytes that
/// decompress to a point of the curve.
pub uninterp spec fn is_public_key(bytes: Seq<u8>) -> bool;

/// Whether Ed25519 verification accepts `signature` for `message` under the
/// public key `key`.
pub uninterp spec fn ed25519_accepts(key: Seq<u8>, message: Seq<u8>, signature: Seq<u8>) -> bool;

/// Whether `bytes` have the form of a signature: 64 bytes, the three highest
/// bits of the last one clear.
pub open spec fn is_signature(bytes: Seq<u8>) -> bool {
    bytes.len() == 64 && bytes[63] & 0xe0 == 0
}

/// `ed25519_dalek::Signature::from_bytes`. It accepts exactly the byte
/// strings of length 64 whose last byte has its three highest bits clear,
/// and the value it returns holds those bytes.
#[verifier::external_body]
fn signature_from_bytes(bytes: &[u8]) -> (r: Option<ed25519_dalek::Signature>)
    ensures
        r is Some <==> is_signature(bytes@),
        r matches Some(s) ==> signature_bytes(s) == bytes@,
{
    ed25519_dalek::Signature::from_bytes(bytes).ok()
}

/// `ed25519_dalek::PublicKey::from_bytes`. It accepts only byte strings of
/// length 32, and of those the ones that are the compressed form of a curve
/// point; the value it returns holds those bytes.
#[verifier::external_body]
fn public_key_from_bytes(bytes: &[u8]) -> (r: Option<ed25519_dalek::PublicKey>)
    ensures
        r is Some <==> is_public_key(bytes@),
        r is Some ==> bytes@.len() == 32,
        r matches Some(k) ==> public_key_bytes(k) == bytes@,
{
    ed25519_dalek::PublicKey::from_bytes(bytes).ok()
}

/// `ed25519_dalek::Verifier::verify` on a public key. Whether it accepts
/// depends on the key's bytes, the message and the signature's bytes alone.
#[verifier::external_body]
fn public_key_verify(
    key: &ed25519_dalek::PublicKey,
    message: &[u8],
    signature: &ed25519_dalek::Signature,
) -> (ok: bool)
    ensures
        ok == ed25519_accepts(public_key_bytes(*key), message@, signature_bytes(*signature)),
{
    ed25519_dalek::Verifier::verify(key, message, signature).is_ok()
}

/// The step at which a signature check broke off.
#[derive(Debug, Clone, Copy, PartialEq, Eq, Structural)]
pub enum VerifyError {
    /// The public key is not hexadecimal text.
    PublicKeyDecode,
    /// The public key's bytes are no Ed25519 public key.
    PublicKeyFromBytes,
    /// The signature header is not hexadecimal text.
    SignatureDecode,
    /// The signature's bytes do not have the form of a signature.
    SignatureFromBytes,
}

/// The verdict on an inbound request.
#[derive(Debug, Clone, Copy, PartialEq, Eq, Structural)]
pub enum DiscordVerify {
    /// The request was signed by the holder of the platform's private key.
    Valid,
    /// Anything else: a header is missing, a field is malformed, or the
    /// signature does not match.
    Invalid,
}

/// The headers of one request: names with their values, in the order in
/// which they were added. Names are matched without regard to ASCII case,
/// and of several values under one name the one added last counts.
pub struct Headers {
    entries: Vec<(String, String)>,
}

/// The value that `entries` hold under `name`: that of the last entry whose
/// name equals `name` up to ASCII case.
pub open spec fn header_value(entries: Seq<(Seq<char>, Seq<char>)>, name: Seq<char>) -> Option<
    Seq<char>,
>
    decreases entries.len(),
{
    if entries.len() == 0 {
        None
    } else if eq_ignore_ascii_case(encode_utf8(entries.last().0), encode_utf8(name)) {
        Some(entries.last().1)
    } else {
        header_value(entries.drop_last(), name)
    }
}

impl View for Headers {
    type V = Seq<(Seq<char>, Seq<char>)>;

    closed spec fn view(&self) -> Seq<(Seq<char>, Seq<char>)> {
        Seq::new(self.entries@.len(), |i: int| (self.entries@[i].0@, self.entries@[i].1@))
    }
}

impl Headers {
    /// No headers.
    pub fn new() -> (r: Headers)
        ensures
            r@ == Seq::<(Seq<char>, Seq<char>)>::empty(),
    {
        let r = Headers { entries: Vec::new() };
        assert(r@ =~= Seq::<(Seq<char>, Seq<char>)>::empty());
        r
    }

    /// Adds a header after those already present, so that it takes
    /// precedence over earlier ones of the same name.
    pub fn insert(&mut self, name: &str, value: &str)
        ensures
            final(self)@ == old(self)@.push((name@, value@)),
    {
        self.entries.push((name.to_owned(), value.to_owned()));
        assert(self@ =~= old(self)@.push((name@, value@)));
    }

    /// The number of headers, counting repeated names.
    pub fn len(&self) -> (n: usize)
        ensures
            n == self@.len(),
    {
        self.entries.len()
    }

    /// The value under `name`, compared without regard to ASCII case.
    pub fn get(&self, name: &str) -> (r: Option<&str>)
        ensures
            match r {
                Some(v) => header_value(self@, name@) == Some(v@),
                None => header_value(self@, name@) is None,
            },
    {
        let mut i: usize = self.entries.len();
        assert(self@.subrange(0, i as int) =~= self@);
        while i > 0
            invariant
                i <= self.entries@.len(),
                header_value(self@, name@) == header_value(self@.subrange(0, i as int), name@),
            decreases i,
        {
            let ghost prefix = self@.subrange(0, i as int);
            i -= 1;
            assert(prefix.last() == self@[i as int]);
            assert(prefix.drop_last() =~= self@.subrange(0, i as int));
            if bytes_eq_ignore_ascii_case(self.entries[i].0.as_str().as_bytes(), name.as_bytes()) {
                return Some(self.entries[i].1.as_str());
            }
        }
        assert(self@.subrange(0, 0) =~= Seq::<(Seq<char>, Seq<char>)>::empty());
        None
    }
}

/// Makes `http::HeaderMap` known to the verifier, as an opaque type.
#[verifier::external_type_specification]
#[verifier::external_body]
#[verifier::reject_recursive_types(T)]
pub struct ExHeaderMap<T>(http::HeaderMap<T>);

/// Makes `http::HeaderValue` known to the verifier, as an opaque type.
#[verifier::external_type_specification]
#[verifier::external_body]
pub struct ExHeaderValue(http::HeaderValue);

/// The values that a header map holds under `name`, in the order in which
/// they were added: each as its text, or `None` where it holds a byte that
/// is neither visible ASCII nor a tab.
pub uninterp spec fn header_map_texts(headers: http::HeaderMap, name: Seq<char>) -> Seq<
    Option<Seq<char>>,
>;

/// `http::HeaderMap::get_all`, with `http::HeaderValue::to_str` on each
/// value that it hands out.
#[verifier::external_body]
fn header_texts(headers: &http::HeaderMap, name: &str) -> (r: Vec<Option<String>>)
    ensures
        r.deep_view() == header_map_texts(*headers, name@),
{
    headers.get_all(name).iter().map(|v| v.to_str().ok().map(|s| s.to_owned())).collect()
}

/// The headers that `texts` give under `name`: one for each value that is
/// a text, in their order.
pub open spec fn readable_headers(name: Seq<char>, texts: Seq<Option<Seq<char>>>) -> Seq<
    (Seq<char>, Seq<char>),
>
    decreases texts.len(),
{
    if texts.len() == 0 {
        Seq::empty()
    } else {
        match texts.last() {
            Some(text) => readable_headers(name, texts.drop_last()).push((name, text)),
            None => readable_headers(name, texts.drop_last()),
        }
    }
}

/// The two headers of a request that its signature rests on, with every
/// value of theirs that is a text.
pub open spec fn signature_headers(headers: http::HeaderMap) -> Seq<(Seq<char>, Seq<char>)> {
    readable_headers(SIGNATURE_HEADER@, header_map_texts(headers, SIGNATURE_HEADER@))
        + readable_headers(TIMESTAMP_HEADER@, header_map_texts(headers, TIMESTAMP_HEADER@))
}

impl Headers {
    /// Adds what `headers` hold under `name`, leaving out values that are
    /// no text.
    fn take(&mut self, headers: &http::HeaderMap, name: &str)
        ensures
            final(self)@ == old(self)@ + readable_headers(name@, header_map_texts(*headers, name@)),
    {
        let texts = header_texts(headers, name);
        let ghost all = texts.deep_view();
        let mut i: usize = 0;
        assert(all.subrange(0, 0) =~= Seq::<Option<Seq<char>>>::empty());
        assert(self@ =~= old(self)@ + Seq::<(Seq<char>, Seq<char>)>::empty());
        while i < texts.len()
            invariant
                i <= texts@.len(),
                all == texts.deep_view(),
                self@ == old(self)@ + readable_headers(name@, all.subrange(0, i as int)),
            decreases texts@.len() - i,
        {
            let ghost next = all.subrange(0, i + 1);
            let ghost before = readable_headers(name@, all.subrange(0, i as int));
            assert(next.drop_last() =~= all.subrange(0, i as int));
            assert(next.last() == texts@[i as int].deep_view());
            match &texts[i] {
                Some(text) => {
                    self.insert(name, text.as_str());
                    assert(self@ =~= old(self)@ + before.push((name@, text@)));
                },
                None => {},
            }
            i += 1;
        }
        assert(all.subrange(0, i as int) =~= all);
    }

    /// The two headers of a request that its signature rests on.
    pub fn from_header_map(headers: &http::HeaderMap) -> (r: Headers)
        ensures
            r@ == signature_headers(*headers),
    {
        let mut r = Headers::new();
        r.take(headers, SIGNATURE_HEADER);
        r.take(headers, TIMESTAMP_HEADER);
        assert(r@ =~= signature_headers(*headers));
        r
    }
}

/// The bytes that the platform signed: the timestamp's text, then the body,
/// with nothing between them.
pub open spec fn signed_message(timestamp: Seq<char>, body: Seq<char>) -> Seq<u8> {
    encode_utf8(timestamp) + encode_utf8(body)
}

/// The outcome of checking a request's signature.
///
/// A request that lacks the timestamp or the signature header is not
/// signed: `Ok(false)`. Otherwise the signature header and the key are read
/// as hexadecimal text and as Ed25519 values, in that order, and the first
/// step that fails is reported. If none fails the outcome is whether the
/// signature is accepted for the timestamp followed by the body.
pub open spec fn signature_check(
    headers: Seq<(Seq<char>, Seq<char>)>,
    body: Seq<char>,
    key: Seq<char>,
) -> Result<bool, VerifyError> {
    let timestamp = header_value(headers, TIMESTAMP_HEADER@);
    let signature = header_value(headers, SIGNATURE_HEADER@);
    if timestamp is None || signature is None {
        Ok(false)
    } else {
        match hex_decoding(encode_utf8(signature.unwrap())) {
            Err(_) => Err(VerifyError::SignatureDecode),
            Ok(signature_bytes) => if !is_signature(signature_bytes) {
                Err(VerifyError::SignatureFromBytes)
            } else {
                match hex_decoding(encode_utf8(key)) {
                    Err(_) => Err(VerifyError::PublicKeyDecode),
                    Ok(key_bytes) => if !is_public_key(key_bytes) {
                        Err(VerifyError::PublicKeyFromBytes)
                    } else {
                        Ok(
                            ed25519_accepts(
                                key_bytes,
                                signed_message(timestamp.unwrap(), body),
                                signature_bytes,
                            ),
                        )
                    },
                }
            },
        }
    }
}

/// Checks the signature of a request against the platform's public key,
/// given in hexadecimal.
pub fn verify_signature(headers: &Headers, body: &str, discord_key: &str) -> (r: Result<
    bool,
    VerifyError,
>)
    ensures
        r == signature_check(headers@, body@, discord_key@),
{
    let timestamp = match headers.get(TIMESTAMP_HEADER) {
        Some(t) => t,
        None => {
            return Ok(false);
        },
    };
    let signature_text = match headers.get(SIGNATURE_HEADER) {
        Some(s) => s,
        None => {
            return Ok(false);
        },
    };
    let message = concat_bytes(timestamp.as_bytes(), body.as_bytes());
    let signature = match decode_hex(signature_text) {
        Err(_) => {
            return Err(VerifyError::SignatureDecode);
        },
        Ok(bytes) => match signature_from_bytes(bytes.as_slice()) {
            None => {
                return Err(VerifyError::SignatureFromBytes);
            },
            Some(s) => s,
        },
    };
    let public_key = match decode_hex(discord_key) {
        Err(_) => {
            return Err(VerifyError::PublicKeyDecode);
        },
        Ok(bytes) => match public_key_from_bytes(bytes.as_slice()) {
            None => {
                return Err(VerifyError::PublicKeyFromBytes);
            },
            Some(k) => k,
        },
    };
    Ok(public_key_verify(&public_key, message.as_slice(), &signature))
}

/// The outcome of checking a request's signature against a key that is
/// given as its bytes: as `signature_check`, without the step that reads
/// the key as hexadecimal text.
pub open spec fn signature_check_with_key(
    headers: Seq<(Seq<char>, Seq<char>)>,
    body: Seq<char>,
    key: Seq<u8>,
) -> Result<bool, VerifyError> {
    let timestamp = header_value(headers, TIMESTAMP_HEADER@);
    let signature = header_value(headers, SIGNATURE_HEADER@);
    if timestamp is None || signature is None {
        Ok(false)
    } else {
        match hex_decoding(encode_utf8(signature.unwrap())) {
            Err(_) => Err(VerifyError::SignatureDecode),
            Ok(signature_bytes) => if !is_signature(signature_bytes) {
                Err(VerifyError::SignatureFromBytes)
            } else if !is_public_key(key) {
                Err(VerifyError::PublicKeyFromBytes)
            } else {
                Ok(
                    ed25519_accepts(
                        key,
                        signed_message(timestamp.unwrap(), body),
                        signature_bytes,
                    ),
                )
            },
        }
    }
}

/// Checks the signature of a request against the platform's public key,
/// given as its bytes.
pub fn verify_signature_with_key(headers: &Headers, body: &str, discord_key: &[u8]) -> (r: Result<
    bool,
    VerifyError,
>)
    ensures
        r == signature_check_with_key(headers@, body@, discord_key@),
{
    let timestamp = match headers.get(TIMESTAMP_HEADER) {
        Some(t) => t,
        None => {
            return Ok(false);
        },
    };
    let signature_text = match headers.get(SIGNATURE_HEADER) {
        Some(s) => s,
        None => {
            return Ok(false);
        },
    };
    let message = concat_bytes(timestamp.as_bytes(), body.as_bytes());
    let signature = match decode_hex(signature_text) {
        Err(_) => {
            return Err(VerifyError::SignatureDecode);
        },
        Ok(bytes) => match signature_from_bytes(bytes.as_slice()) {
            None => {
                return Err(VerifyError::SignatureFromBytes);
            },
            Some(s) => s,
        },
    };
    let public_key = match public_key_from_bytes(discord_key) {
        None => {
            return Err(VerifyError::PublicKeyFromBytes);
        },
        Some(k) => k,
    };
    Ok(public_key_verify(&public_key, message.as_slice(), &signature))
}

/// A key counts the same as hexadecimal text and as the bytes that the
/// text spells.
pub proof fn lemma_key_as_text_or_bytes(
    headers: Seq<(Seq<char>, Seq<char>)>,
    body: Seq<char>,
    key: Seq<char>,
)
    requires
        hex_decoding(encode_utf8(key)) is Ok,
    ensures
        signature_check(headers, body, key) == signature_check_with_key(
            headers,
            body,
            hex_decoding(encode_utf8(key))->Ok_0,
        ),
{
}

/// A request is valid exactly if it has both headers, the signature header
/// and the key are hexadecimal texts whose bytes have the form of a
/// signature and of a public key, and Ed25519 accepts the signature for the
/// timestamp followed by the body.
pub proof fn lemma_valid_exactly_if_accepted(
    headers: Seq<(Seq<char>, Seq<char>)>,
    body: Seq<char>,
    key: Seq<char>,
)
    ensures
        verdict(signature_check(headers, body, key)) == DiscordVerify::Valid <==> {
            &&& header_value(headers, TIMESTAMP_HEADER@) is Some
            &&& header_value(headers, SIGNATURE_HEADER@) is Some
            &&& is_hex(encode_utf8(header_value(headers, SIGNATURE_HEADER@)->0))
            &&& is_hex(encode_utf8(key))
            &&& is_signature(
                hex_decoding(encode_utf8(header_value(headers, SIGNATURE_HEADER@)->0))->Ok_0,
            )
            &&& is_public_key(hex_decoding(encode_utf8(key))->Ok_0)
            &&& ed25519_accepts(
                hex_decoding(encode_utf8(key))->Ok_0,
                signed_message(header_value(headers, TIMESTAMP_HEADER@)->0, body),
                hex_decoding(encode_utf8(header_value(headers, SIGNATURE_HEADER@)->0))->Ok_0,
            )
        },
{
    lemma_hex_decoding_ok(encode_utf8(key));
    if header_value(headers, SIGNATURE_HEADER@) is Some {
        lemma_hex_decoding_ok(encode_utf8(header_value(headers, SIGNATURE_HEADER@)->0));
    }
}

/// A request that lacks the timestamp or the signature header, or whose
/// signature header or key has an odd length or holds anything but
/// hexadecimal digits, is invalid.
pub proof fn lemma_malformed_is_invalid(
    headers: Seq<(Seq<char>, Seq<char>)>,
    body: Seq<char>,
    key: Seq<char>,
)
    requires
        header_value(headers, TIMESTAMP_HEADER@) is None || header_value(
            headers,
            SIGNATURE_HEADER@,
        ) is None || !is_hex(encode_utf8(header_value(headers, SIGNATURE_HEADER@)->0)) || !is_hex(
            encode_utf8(key),
        ),
    ensures
        verdict(signature_check(headers, body, key)) == DiscordVerify::Invalid,
{
    lemma_valid_exactly_if_accepted(headers, body, key);
}

/// Timestamp and body count only joined: two requests with the same
/// signature header and key, whose timestamps followed by their bodies are
/// the same bytes, get the same verdict.
pub proof fn lemma_only_the_joined_message_counts(
    first: Seq<(Seq<char>, Seq<char>)>,
    first_body: Seq<char>,
    second: Seq<(Seq<char>, Seq<char>)>,
    second_body: Seq<char>,
    key: Seq<char>,
)
    requires
        header_value(first, SIGNATURE_HEADER@) == header_value(second, SIGNATURE_HEADER@),
        header_value(first, TIMESTAMP_HEADER@) is Some,
        header_value(second, TIMESTAMP_HEADER@) is Some,
        signed_message(header_value(first, TIMESTAMP_HEADER@)->0, first_body) == signed_message(
            header_value(second, TIMESTAMP_HEADER@)->0,
            second_body,
        ),
    ensures
        signature_check(first, first_body, key) == signature_check(second, second_body, key),
{
}

/// The configuration of an application: what the platform issued to it.
pub trait DiscordState {
    /// The platform's public key, in hexadecimal.
    spec fn spec_public_key(&self) -> Seq<char>;

    /// The application's identifier.
    spec fn spec_application_id(&self) -> Seq<char>;

    /// The platform's public key, in hexadecimal.
    fn public_key(&self) -> (r: String)
        ensures
            r@ == self.spec_public_key(),
    ;

    /// The application's identifier.
    fn application_id(&self) -> (r: String)
        ensures
            r@ == self.spec_application_id(),
    ;
}

/// A configuration held in memory.
#[derive(Debug, Clone)]
pub struct State {
    pub public_key: String,
    pub application_id: String,
}

impl DiscordState for State {
    open spec fn spec_public_key(&self) -> Seq<char> {
        self.public_key@
    }

    open spec fn spec_application_id(&self) -> Seq<char> {
        self.application_id@
    }

    fn public_key(&self) -> (r: String) {
        self.public_key.clone()
    }

    fn application_id(&self) -> (r: String) {
        self.application_id.clone()
    }
}

/// The verdict that the outcome of a signature check amounts to: only a
/// signature that was accepted makes a request valid.
pub open spec fn verdict(outcome: Result<bool, VerifyError>) -> DiscordVerify {
    match outcome {
        Ok(true) => DiscordVerify::Valid,
        _ => DiscordVerify::Invalid,
    }
}

/// Decides whether a request with the given headers and body was signed by
/// the platform.
pub fn verify<S: DiscordState>(state: &S, body: &str, headers: &Headers) -> (r: DiscordVerify)
    ensures
        r == verdict(signature_check(headers@, body@, state.spec_public_key())),
{
    let key = state.public_key();
    match verify_signature(headers, body, key.as_str()) {
        Ok(true) => DiscordVerify::Valid,
        _ => DiscordVerify::Invalid,
    }
}

/// Decides whether a request was signed by the platform, reading the two
/// signature headers out of the request's header map.
pub fn discord_verify<S: DiscordState>(state: &S, body: &str, headers: http::HeaderMap) -> (r:
    DiscordVerify)
    ensures
        r == verdict(signature_check(signature_headers(headers), body@, state.spec_public_key())),
{
    let picked = Headers::from_header_map(&headers);
    verify(state, body, &picked)
}

} // verus!
