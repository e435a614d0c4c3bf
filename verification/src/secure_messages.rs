//! Legacy messages: messages an owner leaves for a beneficiary, sealed with
//! AES-256-GCM under a data key that is itself sealed under a key derived
//! from the service's wrapping secret, and delivered once their unlock time
//! has come.
//!
//! What is sealed is opened again: `seal_message` and `open_message`, and
//! `wrap_data_key` and `unwrap_data_key`, undo each other.
use vstd::prelude::*;
use vstd::utf8::{decode_utf8, encode_utf8, encode_utf8_decode_utf8, encode_utf8_valid_utf8, valid_utf8};
use crate::error::{is_bad_request, is_internal, ApiError};
use crate::text::{is_blank, trimmed};
use ring::aead::{Aad, LessSafeKey, Nonce, UnboundKey, AES_256_GCM};
use ring::hkdf::{Salt, HKDF_SHA256};
use ring::rand::{SecureRandom, SystemRandom};

verus! {

/// Length of an AES-GCM nonce, in bytes.
pub const NONCE_LEN: usize = 12;

/// Length of the AES-GCM authentication tag appended to a ciphertext, in
/// bytes.
pub const TAG_LEN: usize = 16;

/// Length of a data key, in bytes.
pub const KEY_LEN: usize = 32;

/// Most messages delivered per sweep.
pub const DELIVERY_BATCH: i64 = 100;

/// Interval of the delivery sweep, in seconds.
pub const DELIVERY_INTERVAL_SECS: u64 = 30;

/// The salt of every key derivation.
pub const HKDF_SALT: &'static str = "inheritx-message-encryption";

/// The derivation context of the key that wraps data keys.
pub const WRAP_CONTEXT: &'static str = "wrap-message-data-key";

/// The derivation context of the key that seals message payloads.
pub const PAYLOAD_CONTEXT: &'static str = "legacy-message-payload-key";

// ── The cryptographic primitives ───────────────────────────────────────────

/// The 32-byte AES-256-GCM key HKDF-SHA256 derives from `secret` with `salt`
/// and `info`.
pub uninterp spec fn hkdf_sha256_key(salt: Seq<u8>, secret: Seq<u8>, info: Seq<u8>) -> Seq<u8>;

/// What AES-256-GCM sealing of `plaintext` under `key` and `nonce` with no
/// associated data gives: the ciphertext with its tag appended, or nothing
/// when the key or the nonce has the wrong length.
pub uninterp spec fn aes_gcm_seal(key: Seq<u8>, nonce: Seq<u8>, plaintext: Seq<u8>) -> Option<Seq<u8>>;

/// What AES-256-GCM opening of `ciphertext` under `key` and `nonce` with no
/// associated data gives: the plaintext, or nothing when the ciphertext does
/// not authenticate.
pub uninterp spec fn aes_gcm_open(key: Seq<u8>, nonce: Seq<u8>, ciphertext: Seq<u8>) -> Option<Seq<u8>>;

/// The view of optional bytes.
pub open spec fn bytes_view(v: Option<Vec<u8>>) -> Option<Seq<u8>> {
    match v {
        Some(b) => Some(b@),
        None => None,
    }
}

/// `ring::hkdf`: `Salt::new(HKDF_SHA256, salt).extract(secret)`, expanded
/// with `info` for `AES_256_GCM` and filled into 32 bytes. The key is the
/// named derivation. `Prk::expand` fails only for an output longer than 255
/// digests and `Okm::fill` only for a buffer of another length than the one
/// expanded; 32 bytes into a 32-byte buffer is neither, so a key is always
/// given.
#[verifier::external_body]
fn hkdf_expand_key(salt: &[u8], secret: &[u8], info: &[u8]) -> (r: Option<Vec<u8>>)
    ensures
        r is Some,
        r matches Some(k) ==> k@ == hkdf_sha256_key(salt@, secret@, info@) && k@.len() == KEY_LEN,
{
    let prk = Salt::new(HKDF_SHA256, salt).extract(secret);
    let info = [info];
    let okm = prk.expand(&info, &AES_256_GCM).ok()?;
    let mut key = [0u8; 32];
    okm.fill(&mut key).ok()?;
    Some(key.to_vec())
}

/// The longest input AES-GCM seals, in bytes: as many 16-byte blocks as its
/// 32-bit block counter reaches, less the two it keeps for itself.
pub open spec fn aes_gcm_max_input() -> int {
    68_719_476_704
}

/// `ring::aead::LessSafeKey::seal_in_place_append_tag` with AES-256-GCM and
/// no associated data: the sealed bytes are the named sealing, and opening
/// them under the same key and nonce gives the plaintext back. The sealed
/// bytes are the plaintext's length plus the 16-byte tag. `UnboundKey::new`
/// fails only for a key of another length than 32 bytes,
/// `Nonce::try_assume_unique_for_key` only for a nonce of another length than
/// 12 bytes, and the sealing only for an input longer than
/// `aes_gcm_max_input()`; otherwise the sealing is given.
#[verifier::external_body]
fn aes_gcm_seal_bytes(key: &[u8], nonce: &[u8], plaintext: &[u8]) -> (r: Option<Vec<u8>>)
    ensures
        bytes_view(r) == aes_gcm_seal(key@, nonce@, plaintext@),
        r matches Some(c) ==> aes_gcm_open(key@, nonce@, c@) == Some(plaintext@),
        r matches Some(c) ==> c@.len() == plaintext@.len() + TAG_LEN,
        (key@.len() == KEY_LEN && nonce@.len() == NONCE_LEN && plaintext@.len()
            <= aes_gcm_max_input()) ==> r is Some,
{
    let key = LessSafeKey::new(UnboundKey::new(&AES_256_GCM, key).ok()?);
    let nonce = Nonce::try_assume_unique_for_key(nonce).ok()?;
    let mut in_out = plaintext.to_vec();
    key.seal_in_place_append_tag(nonce, Aad::empty(), &mut in_out).ok()?;
    Some(in_out)
}

/// `ring::aead::LessSafeKey::open_in_place` with AES-256-GCM and no
/// associated data: the opened bytes are the named opening.
#[verifier::external_body]
fn aes_gcm_open_bytes(key: &[u8], nonce: &[u8], ciphertext: &[u8]) -> (r: Option<Vec<u8>>)
    ensures
        bytes_view(r) == aes_gcm_open(key@, nonce@, ciphertext@),
{
    let key = LessSafeKey::new(UnboundKey::new(&AES_256_GCM, key).ok()?);
    let nonce = Nonce::try_assume_unique_for_key(nonce).ok()?;
    let mut in_out = ciphertext.to_vec();
    let plaintext = key.open_in_place(nonce, Aad::empty(), &mut in_out).ok()?;
    Some(plaintext.to_vec())
}

/// `ring::rand::SystemRandom::fill`: `len` random bytes, or nothing when the
/// system source fails. Nothing is promised of the bytes but their number.
#[verifier::external_body]
fn random_bytes(len: usize) -> (r: Option<Vec<u8>>)
    ensures
        r matches Some(b) ==> b@.len() == len,
{
    let mut bytes = vec![0u8; len];
    SystemRandom::new().fill(&mut bytes).ok()?;
    Some(bytes)
}

/// `String::from_utf8`: the text the bytes encode, when they are valid UTF-8.
#[verifier::external_body]
fn string_from_utf8(bytes: Vec<u8>) -> (r: Option<String>)
    ensures
        r is Some <==> valid_utf8(bytes@),
        r matches Some(s) ==> s@ == decode_utf8(bytes@),
{
    String::from_utf8(bytes).ok()
}

// ── Sealing and opening ────────────────────────────────────────────────────

/// The bytes of a text, as UTF-8.
pub open spec fn utf8_of(s: Seq<char>) -> Seq<u8> {
    encode_utf8(s)
}

/// The key derived from `secret` for `context`.
pub open spec fn derived_key(secret: Seq<u8>, context: Seq<char>) -> Seq<u8> {
    hkdf_sha256_key(utf8_of(HKDF_SALT@), secret, utf8_of(context))
}

/// What opening `ciphertext` under `key` with `nonce` gives: nothing for a
/// nonce of the wrong length or a ciphertext that does not authenticate.
pub open spec fn opened(key: Seq<u8>, ciphertext: Seq<u8>, nonce: Seq<u8>) -> Option<Seq<u8>> {
    if nonce.len() != NONCE_LEN {
        None
    } else {
        aes_gcm_open(key, nonce, ciphertext)
    }
}

/// Derives the AES-256-GCM key for `context` from `secret`.
pub fn derive_key(secret: &[u8], context: &str) -> (r: Result<Vec<u8>, ApiError>)
    ensures
        r is Ok,
        r matches Ok(k) ==> k@ == derived_key(secret@, context@) && k@.len() == KEY_LEN,
{
    match hkdf_expand_key(HKDF_SALT.as_bytes(), secret, context.as_bytes()) {
        Some(k) => Ok(k),
        None => Err(ApiError::Internal("Key derivation failed".to_owned())),
    }
}

/// Seals `plaintext` under `key` with a fresh random nonce. Gives the
/// ciphertext and the nonce; opening them under the same key gives the
/// plaintext back. With a 32-byte key and a plaintext that AES-GCM can seal,
/// it fails only when the system gives no random nonce.
pub fn encrypt_with_key(key: &[u8], plaintext: &[u8]) -> (r: Result<(Vec<u8>, Vec<u8>), ApiError>)
    ensures
        r matches Ok((c, n)) ==> {
            &&& n@.len() == NONCE_LEN
            &&& c@.len() == plaintext@.len() + TAG_LEN
            &&& aes_gcm_seal(key@, n@, plaintext@) == Some(c@)
            &&& opened(key@, c@, n@) == Some(plaintext@)
        },
        r is Err ==> is_internal(r, "Failed to generate nonce"@) || (!(key@.len() == KEY_LEN
            && plaintext@.len() <= aes_gcm_max_input()) && is_internal(r, "Encryption failed"@)),
{
    let nonce = match random_bytes(NONCE_LEN) {
        Some(n) => n,
        None => return Err(ApiError::Internal("Failed to generate nonce".to_owned())),
    };
    match aes_gcm_seal_bytes(key, nonce.as_slice(), plaintext) {
        Some(c) => Ok((c, nonce)),
        None => Err(ApiError::Internal("Encryption failed".to_owned())),
    }
}

/// Opens `ciphertext` under `key` with `nonce`.
pub fn decrypt_with_key(key: &[u8], ciphertext: &[u8], nonce: &[u8]) -> (r: Result<
    Vec<u8>,
    ApiError,
>)
    ensures
        r is Ok <==> opened(key@, ciphertext@, nonce@) is Some,
        r matches Ok(p) ==> opened(key@, ciphertext@, nonce@) == Some(p@),
        nonce@.len() != NONCE_LEN ==> is_internal(r, "Invalid nonce length"@),
        nonce@.len() == NONCE_LEN && r is Err ==> is_internal(r, "Decryption failed"@),
{
    if nonce.len() != NONCE_LEN {
        return Err(ApiError::Internal("Invalid nonce length".to_owned()));
    }
    match aes_gcm_open_bytes(key, nonce, ciphertext) {
        Some(p) => Ok(p),
        None => Err(ApiError::Internal("Decryption failed".to_owned())),
    }
}

/// The secret that wraps data keys, from its configured value: it must be
/// set and not empty.
pub fn load_wrapping_secret(value: Option<String>) -> (r: Result<Vec<u8>, ApiError>)
    ensures
        (value matches Some(s) && s@.len() > 0) ==> (r matches Ok(b) && b@ == utf8_of(
            value->0@,
        )),
        !(value matches Some(s) && s@.len() > 0) ==> is_internal(
            r,
            "MESSAGE_KEY_ENCRYPTION_KEY must be set"@,
        ),
{
    match value {
        Some(s) => {
            if s.as_str().unicode_len() == 0 {
                Err(ApiError::Internal("MESSAGE_KEY_ENCRYPTION_KEY must be set".to_owned()))
            } else {
                Ok(vstd::slice::slice_to_vec(s.as_str().as_bytes()))
            }
        },
        None => Err(ApiError::Internal("MESSAGE_KEY_ENCRYPTION_KEY must be set".to_owned())),
    }
}

/// Manages the data keys that seal legacy messages.
pub struct MessageKeyService;

impl MessageKeyService {
    /// Seals a new data key under the key derived from the wrapping secret.
    /// Gives the sealed key and its nonce; `unwrap_data_key` gives the data
    /// key back from them. It fails only when the system gives no random
    /// nonce, or for a data key too long for AES-GCM to seal.
    pub fn wrap_data_key(wrapping_secret: &[u8], data_key: &[u8]) -> (r: Result<
        (Vec<u8>, Vec<u8>),
        ApiError,
    >)
        ensures
            r matches Ok((c, n)) ==> {
                &&& n@.len() == NONCE_LEN
                &&& c@.len() == data_key@.len() + TAG_LEN
                &&& aes_gcm_seal(derived_key(wrapping_secret@, WRAP_CONTEXT@), n@, data_key@)
                    == Some(c@)
                &&& opened(derived_key(wrapping_secret@, WRAP_CONTEXT@), c@, n@) == Some(
                    data_key@,
                )
            },
            r is Err ==> is_internal(r, "Failed to generate nonce"@) || (data_key@.len()
                > aes_gcm_max_input() && is_internal(r, "Encryption failed"@)),
    {
        let wrapping_key = derive_key(wrapping_secret, WRAP_CONTEXT)?;
        encrypt_with_key(wrapping_key.as_slice(), data_key)
    }

    /// The data key sealed as `encrypted_key` with `wrapping_nonce`.
    pub fn unwrap_data_key(wrapping_secret: &[u8], encrypted_key: &[u8], wrapping_nonce: &[u8]) -> (r:
        Result<Vec<u8>, ApiError>)
        ensures
            r matches Ok(k) ==> opened(
                derived_key(wrapping_secret@, WRAP_CONTEXT@),
                encrypted_key@,
                wrapping_nonce@,
            ) == Some(k@),
            r is Ok <==> opened(
                derived_key(wrapping_secret@, WRAP_CONTEXT@),
                encrypted_key@,
                wrapping_nonce@,
            ) is Some,
            wrapping_nonce@.len() != NONCE_LEN ==> is_internal(r, "Invalid nonce length"@),
            wrapping_nonce@.len() == NONCE_LEN && r is Err ==> is_internal(r, "Decryption failed"@),
    {
        let wrapping_key = derive_key(wrapping_secret, WRAP_CONTEXT)?;
        decrypt_with_key(wrapping_key.as_slice(), encrypted_key, wrapping_nonce)
    }

    /// A fresh random data key.
    pub fn new_data_key() -> (r: Result<Vec<u8>, ApiError>)
        ensures
            r matches Ok(k) ==> k@.len() == KEY_LEN,
            r is Err ==> is_internal(r, "Failed to generate data key"@),
    {
        match random_bytes(KEY_LEN) {
            Some(k) => Ok(k),
            None => Err(ApiError::Internal("Failed to generate data key".to_owned())),
        }
    }
}

/// What `wrap_data_key` seals, `unwrap_data_key` opens: from a wrapped key
/// and its nonce, the key given back is the key that was wrapped.
pub proof fn lemma_wrap_round_trip(
    secret: Seq<u8>,
    data_key: Seq<u8>,
    encrypted_key: Seq<u8>,
    nonce: Seq<u8>,
    unwrapped: Seq<u8>,
)
    requires
        opened(derived_key(secret, WRAP_CONTEXT@), encrypted_key, nonce) == Some(data_key),
        opened(derived_key(secret, WRAP_CONTEXT@), encrypted_key, nonce) == Some(unwrapped),
    ensures
        unwrapped == data_key,
{
}

// ── Messages ───────────────────────────────────────────────────────────────

/// A request to leave a message. `unlock_at` is in microseconds since the
/// Unix epoch.
#[derive(Debug, Clone)]
pub struct CreateLegacyMessageRequest {
    pub vault_id: Option<i64>,
    pub beneficiary_contact: String,
    pub message: String,
    pub unlock_at: i64,
}

/// Seals and opens message payloads.
pub struct MessageEncryptionService;

impl MessageEncryptionService {
    /// Checks a new message at `now`: it must unlock in the future, and
    /// neither the message nor the beneficiary contact may be blank. The
    /// first failing check gives the error.
    pub fn validate_request(req: &CreateLegacyMessageRequest, now: i64) -> (r: Result<(), ApiError>)
        ensures
            req.unlock_at <= now ==> is_bad_request(r, "unlock_at must be in the future"@),
            req.unlock_at > now && trimmed(req.message@).len() == 0 ==> is_bad_request(
                r,
                "message cannot be empty"@,
            ),
            req.unlock_at > now && trimmed(req.message@).len() > 0 && trimmed(
                req.beneficiary_contact@,
            ).len() == 0 ==> is_bad_request(r, "beneficiary_contact cannot be empty"@),
            req.unlock_at > now && trimmed(req.message@).len() > 0 && trimmed(
                req.beneficiary_contact@,
            ).len() > 0 ==> r is Ok,
    {
        if req.unlock_at <= now {
            return Err(ApiError::BadRequest("unlock_at must be in the future".to_owned()));
        }
        if is_blank(req.message.as_str()) {
            return Err(ApiError::BadRequest("message cannot be empty".to_owned()));
        }
        if is_blank(req.beneficiary_contact.as_str()) {
            return Err(ApiError::BadRequest("beneficiary_contact cannot be empty".to_owned()));
        }
        Ok(())
    }

    /// Seals a message under the payload key derived from the data key.
    /// Gives the sealed payload and its nonce. It fails only when the system
    /// gives no random nonce, or for a message too long for AES-GCM to seal.
    pub fn seal_message(data_key: &[u8], message: &str) -> (r: Result<(Vec<u8>, Vec<u8>), ApiError>)
        ensures
            r matches Ok((c, n)) ==> {
                &&& n@.len() == NONCE_LEN
                &&& c@.len() == utf8_of(message@).len() + TAG_LEN
                &&& aes_gcm_seal(derived_key(data_key@, PAYLOAD_CONTEXT@), n@, utf8_of(message@))
                    == Some(c@)
                &&& opened(derived_key(data_key@, PAYLOAD_CONTEXT@), c@, n@) == Some(
                    utf8_of(message@),
                )
            },
            r is Err ==> is_internal(r, "Failed to generate nonce"@) || (utf8_of(message@).len()
                > aes_gcm_max_input() && is_internal(r, "Encryption failed"@)),
    {
        let payload_key = derive_key(data_key, PAYLOAD_CONTEXT)?;
        encrypt_with_key(payload_key.as_slice(), message.as_bytes())
    }

    /// Opens a sealed payload under the payload key derived from the data key
    /// and reads it as text.
    pub fn open_message(data_key: &[u8], ciphertext: &[u8], nonce: &[u8]) -> (r: Result<
        String,
        ApiError,
    >)
        ensures
            r matches Ok(s) ==> opened(derived_key(data_key@, PAYLOAD_CONTEXT@), ciphertext@, nonce@)
                == Some(utf8_of(s@)),
            r is Ok <==> (opened(derived_key(data_key@, PAYLOAD_CONTEXT@), ciphertext@, nonce@) matches Some(
                p,
            ) && valid_utf8(p)),
            nonce@.len() != NONCE_LEN ==> is_internal(r, "Invalid nonce length"@),
            (nonce@.len() == NONCE_LEN && opened(
                derived_key(data_key@, PAYLOAD_CONTEXT@),
                ciphertext@,
                nonce@,
            ) is None) ==> is_internal(r, "Decryption failed"@),
            (opened(derived_key(data_key@, PAYLOAD_CONTEXT@), ciphertext@, nonce@) matches Some(p)
                && !valid_utf8(p)) ==> is_internal(r, "Invalid UTF-8 payload"@),
    {
        let payload_key = derive_key(data_key, PAYLOAD_CONTEXT)?;
        let bytes = decrypt_with_key(payload_key.as_slice(), ciphertext, nonce)?;
        let ghost b = bytes@;
        match string_from_utf8(bytes) {
            Some(s) => {
                proof {
                    assert(s@ == decode_utf8(b));
                    vstd::utf8::decode_utf8_encode_utf8(b);
                }
                Ok(s)
            },
            None => Err(ApiError::Internal("Invalid UTF-8 payload".to_owned())),
        }
    }
}

/// A message sealed under a data key opens under the same data key to the
/// same text.
pub proof fn lemma_message_round_trip(data_key: Seq<u8>, message: Seq<char>, c: Seq<u8>, n: Seq<u8>)
    requires
        opened(derived_key(data_key, PAYLOAD_CONTEXT@), c, n) == Some(utf8_of(message)),
    ensures
        valid_utf8(opened(derived_key(data_key, PAYLOAD_CONTEXT@), c, n)->0),
        decode_utf8(opened(derived_key(data_key, PAYLOAD_CONTEXT@), c, n)->0) == message,
{
    encode_utf8_valid_utf8(message);
    encode_utf8_decode_utf8(message);
}

// ── Delivery ───────────────────────────────────────────────────────────────

/// How many due messages a sweep handled, delivered and failed.
#[derive(Debug, Clone, Copy, PartialEq, Eq, Structural)]
pub struct DeliveryResult {
    pub processed: usize,
    pub delivered: usize,
    pub failed: usize,
}

/// How many of the outcomes are deliveries.
pub open spec fn count_delivered(outcomes: Seq<bool>) -> nat
    decreases outcomes.len(),
{
    if outcomes.len() == 0 {
        0
    } else {
        count_delivered(outcomes.drop_last()) + if outcomes.last() {
            1nat
        } else {
            0nat
        }
    }
}

impl DeliveryResult {
    /// The tally of a sweep from the outcome of each due message, delivered
    /// or failed: every message handled is counted exactly once.
    pub fn tally(outcomes: &Vec<bool>) -> (r: DeliveryResult)
        ensures
            r.processed == outcomes@.len(),
            r.delivered == count_delivered(outcomes@),
            r.failed == outcomes@.len() - count_delivered(outcomes@),
            r.processed == r.delivered + r.failed,
    {
        let n = outcomes.len();
        let mut delivered: usize = 0;
        let mut failed: usize = 0;
        let mut i: usize = 0;
        while i < n
            invariant
                n == outcomes@.len(),
                i <= n,
                delivered == count_delivered(outcomes@.take(i as int)),
                delivered + failed == i,
            decreases n - i,
        {
            assert(outcomes@.take(i + 1).drop_last() =~= outcomes@.take(i as int));
            if outcomes[i] {
                delivered = delivered + 1;
            } else {
                failed = failed + 1;
            }
            i = i + 1;
        }
        assert(outcomes@.take(n as int) =~= outcomes@);
        DeliveryResult { processed: n, delivered, failed }
    }
}

} // verus!
