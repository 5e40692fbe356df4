//! Request signing: a timestamp, a random nonce, and an HMAC-SHA256 tag over
//! `token ++ timestamp ++ nonce` keyed by the shared secret, base64-encoded.

use base64::Engine;
use hmac::{Hmac, Mac};
use rand::Rng;
use sha2::Sha256;
use vstd::prelude::*;
use vstd::string::*;

use crate::error::SigningError;
use crate::text::{decimal_of, push_char, push_decimal};

verus! {

pub const NONCE_LEN: usize = 16;

/// The HMAC-SHA256 tag of the UTF-8 bytes of `message` under the UTF-8
/// bytes of `key`.
pub uninterp spec fn hmac_sha256_of(key: Seq<char>, message: Seq<char>) -> Seq<u8>;

/// The padded base64 encoding of `bytes` in the standard alphabet.
pub uninterp spec fn base64_of(bytes: Seq<u8>) -> Seq<char>;

/// Relies on hmac's `Hmac::<Sha256>::new_from_slice`, `Mac::update` and
/// `Mac::finalize`: the 32-byte HMAC-SHA256 tag. `new_from_slice` accepts a
/// key of any length (it hashes or pads it to the block size), so the
/// result is always `Some`.
#[verifier::external_body]
fn hmac_sha256(key: &str, message: &str) -> (r: Option<Vec<u8>>)
    ensures
        r is Some,
        r matches Some(tag) ==> tag@ == hmac_sha256_of(key@, message@) && tag@.len() == 32,
{
    let mut mac = Hmac::<Sha256>::new_from_slice(key.as_bytes()).ok()?;
    mac.update(message.as_bytes());
    Some(mac.finalize().into_bytes().to_vec())
}

/// Relies on base64's `general_purpose::STANDARD.encode`: padded standard
/// base64, four characters for each started group of three bytes. The
/// bound keeps the output length from overflowing, on which `encode`
/// panics.
#[verifier::external_body]
fn base64_standard(bytes: &[u8]) -> (r: String)
    requires
        bytes@.len() <= 0x1000_0000,
    ensures
        r@ == base64_of(bytes@),
        r@.len() == 4 * ((bytes@.len() + 2) / 3),
{
    base64::engine::general_purpose::STANDARD.encode(bytes)
}

/// std's wall-clock instant, carried opaquely from `system_now` to
/// `since_unix_epoch`.
#[verifier::external_type_specification]
#[verifier::external_body]
pub struct ExSystemTime(std::time::SystemTime);

/// Relies on `SystemTime::now`: the current wall-clock time.
#[verifier::external_body]
fn system_now() -> (r: std::time::SystemTime) {
    std::time::SystemTime::now()
}

/// Relies on `SystemTime::duration_since(UNIX_EPOCH)`: the time elapsed
/// since the Unix epoch, `None` where `t` lies before it.
#[verifier::external_body]
fn since_unix_epoch(t: &std::time::SystemTime) -> (r: Option<std::time::Duration>) {
    t.duration_since(std::time::UNIX_EPOCH).ok()
}

/// Relies on `Duration::as_millis`: the whole milliseconds of `d`.
#[verifier::external_body]
fn whole_millis(d: &std::time::Duration) -> (r: u128) {
    d.as_millis()
}

/// An ASCII letter or digit.
pub open spec fn is_ascii_alphanumeric(c: char) -> bool {
    ('A' <= c <= 'Z') || ('a' <= c <= 'z') || ('0' <= c <= '9')
}

/// Relies on rand's `Alphanumeric` distribution sampled from `thread_rng`:
/// one byte drawn from `A-Z`, `a-z` and `0-9`.
#[verifier::external_body]
fn random_alphanumeric() -> (r: char)
    ensures
        is_ascii_alphanumeric(r),
{
    rand::thread_rng().sample(rand::distributions::Alphanumeric) as char
}

/// The text that is signed.
pub open spec fn signing_payload(token: Seq<char>, timestamp: Seq<char>, nonce: Seq<char>) -> Seq<
    char,
> {
    token + timestamp + nonce
}

/// The signature of a request.
pub open spec fn signature_of(
    token: Seq<char>,
    secret: Seq<char>,
    timestamp: Seq<char>,
    nonce: Seq<char>,
) -> Seq<char> {
    base64_of(hmac_sha256_of(secret, signing_payload(token, timestamp, nonce)))
}

/// The material that authenticates one request.
#[derive(Debug, Clone)]
pub struct Signature {
    pub timestamp: String,
    pub nonce: String,
    pub sign: String,
}

/// Whether `s` signs a request of `token` under `secret`: its sign is the
/// base64 of the 32-byte tag over its own timestamp and nonce.
pub open spec fn signs(s: Signature, token: Seq<char>, secret: Seq<char>) -> bool {
    &&& s.sign@ == signature_of(token, secret, s.timestamp@, s.nonce@)
    &&& hmac_sha256_of(secret, signing_payload(token, s.timestamp@, s.nonce@)).len() == 32
    &&& s.sign@.len() == 44
}

/// A fresh nonce of sixteen ASCII letters and digits.
pub fn random_nonce() -> (r: String)
    ensures
        r@.len() == NONCE_LEN,
        forall|i: int| 0 <= i < r@.len() ==> is_ascii_alphanumeric(#[trigger] r@[i]),
{
    let mut nonce = String::new();
    let mut i: usize = 0;
    while i < NONCE_LEN
        invariant
            i <= NONCE_LEN,
            nonce@.len() == i,
            forall|j: int| 0 <= j < i ==> is_ascii_alphanumeric(#[trigger] nonce@[j]),
        decreases NONCE_LEN - i,
    {
        push_char(&mut nonce, random_alphanumeric());
        i = i + 1;
    }
    nonce
}

/// Signs a request of `token` under `secret` with the given time and nonce.
pub fn sign_with(token: &str, secret: &str, timestamp_ms: u128, nonce: String) -> (r: Signature)
    ensures
        r.timestamp@ == decimal_of(timestamp_ms as nat),
        r.nonce@ == nonce@,
        signs(r, token@, secret@),
{
    let mut timestamp = String::new();
    push_decimal(&mut timestamp, timestamp_ms);
    let mut payload = String::from_str(token);
    payload.append(timestamp.as_str());
    payload.append(nonce.as_str());
    let tag = hmac_sha256(secret, payload.as_str()).unwrap();
    let sign = base64_standard(tag.as_slice());
    Signature { timestamp, nonce, sign }
}

/// Signs a request of `token` under `secret` with the current time and a
/// fresh nonce. Fails only where the clock is set before the Unix epoch.
pub fn generate_signature(token: &str, secret: &str) -> (r: Result<Signature, SigningError>)
    ensures
        r matches Ok(s) ==> {
            &&& exists|ms: nat| s.timestamp@ == decimal_of(ms)
            &&& s.nonce@.len() == NONCE_LEN
            &&& forall|i: int| 0 <= i < s.nonce@.len() ==> is_ascii_alphanumeric(#[trigger] s.nonce@[i])
            &&& signs(s, token@, secret@)
        },
        r matches Err(e) ==> e == SigningError::ClockUnavailable,
{
    let elapsed = match since_unix_epoch(&system_now()) {
        Some(d) => d,
        None => return Err(SigningError::ClockUnavailable),
    };
    let ms = whole_millis(&elapsed);
    let nonce = random_nonce();
    Ok(sign_with(token, secret, ms, nonce))
}

} // verus!
