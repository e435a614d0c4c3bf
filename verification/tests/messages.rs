use inheritx::error::ApiError;
use inheritx::secure_messages::{
    decrypt_with_key, derive_key, encrypt_with_key, load_wrapping_secret,
    CreateLegacyMessageRequest, DeliveryResult, MessageEncryptionService, MessageKeyService,
};

#[test]
fn payload_encrypt_decrypt_roundtrip() {
    let base_secret = b"unit-test-secret-for-message-key".to_vec();
    let key = derive_key(&base_secret, "legacy-message-payload-key").unwrap();
    let plaintext = b"legacy beneficiary message payload";
    let (ciphertext, nonce) = encrypt_with_key(&key, plaintext).unwrap();
    let decrypted = decrypt_with_key(&key, &ciphertext, &nonce).unwrap();
    assert_eq!(decrypted, plaintext);
}

#[test]
fn sealed_payload_carries_a_tag() {
    let key = derive_key(b"unit-test-secret-for-message-key", "legacy-message-payload-key").unwrap();
    let plaintext = b"legacy beneficiary message payload";
    let (ciphertext, nonce) = encrypt_with_key(&key, plaintext).unwrap();
    assert_eq!(nonce.len(), 12);
    assert_eq!(ciphertext.len(), plaintext.len() + 16);
}

#[test]
fn derived_keys_depend_on_context() {
    let secret = b"secret".to_vec();
    let a = derive_key(&secret, "legacy-message-payload-key").unwrap();
    let b = derive_key(&secret, "wrap-message-data-key").unwrap();
    assert_eq!(a.len(), 32);
    assert_ne!(a, b);
    assert_eq!(a, derive_key(&secret, "legacy-message-payload-key").unwrap());
}

#[test]
fn tampered_or_misnonced_payload_is_refused() {
    let key = derive_key(b"k", "legacy-message-payload-key").unwrap();
    let (mut ciphertext, nonce) = encrypt_with_key(&key, b"hello").unwrap();
    assert_eq!(nonce.len(), 12);
    assert_eq!(
        decrypt_with_key(&key, &ciphertext, &nonce[..11]),
        Err(ApiError::Internal("Invalid nonce length".to_string()))
    );
    ciphertext[0] ^= 1;
    assert_eq!(
        decrypt_with_key(&key, &ciphertext, &nonce),
        Err(ApiError::Internal("Decryption failed".to_string()))
    );
}

#[test]
fn data_keys_unwrap_to_themselves() {
    let secret = b"wrapping secret".to_vec();
    let data_key = MessageKeyService::new_data_key().unwrap();
    assert_eq!(data_key.len(), 32);
    let (encrypted, nonce) = MessageKeyService::wrap_data_key(&secret, &data_key).unwrap();
    assert_eq!(MessageKeyService::unwrap_data_key(&secret, &encrypted, &nonce).unwrap(), data_key);
    assert!(MessageKeyService::unwrap_data_key(b"other secret", &encrypted, &nonce).is_err());
}

#[test]
fn messages_open_to_their_text() {
    let data_key = vec![7u8; 32];
    let (c, n) = MessageEncryptionService::seal_message(&data_key, "À bientôt ✓").unwrap();
    assert_eq!(MessageEncryptionService::open_message(&data_key, &c, &n).unwrap(), "À bientôt ✓");
}

#[test]
fn wrapping_secret_must_be_set() {
    let missing = Err(ApiError::Internal("MESSAGE_KEY_ENCRYPTION_KEY must be set".to_string()));
    assert_eq!(load_wrapping_secret(None), missing);
    assert_eq!(load_wrapping_secret(Some(String::new())), missing);
    assert_eq!(load_wrapping_secret(Some("abc".to_string())), Ok(b"abc".to_vec()));
}

#[test]
fn new_messages_are_validated() {
    let now: i64 = 1_000;
    let req = |unlock_at: i64, message: &str, contact: &str| CreateLegacyMessageRequest {
        vault_id: None,
        beneficiary_contact: contact.to_string(),
        message: message.to_string(),
        unlock_at,
    };
    assert_eq!(
        MessageEncryptionService::validate_request(&req(now, "hi", "a@b"), now),
        Err(ApiError::BadRequest("unlock_at must be in the future".to_string()))
    );
    assert_eq!(
        MessageEncryptionService::validate_request(&req(now + 1, "  ", "a@b"), now),
        Err(ApiError::BadRequest("message cannot be empty".to_string()))
    );
    assert_eq!(
        MessageEncryptionService::validate_request(&req(now + 1, "hi", "\t"), now),
        Err(ApiError::BadRequest("beneficiary_contact cannot be empty".to_string()))
    );
    assert!(MessageEncryptionService::validate_request(&req(now + 1, "hi", "a@b"), now).is_ok());
}

#[test]
fn delivery_tally_counts_each_message_once() {
    let r = DeliveryResult::tally(&vec![true, false, true, true]);
    assert_eq!(r, DeliveryResult { processed: 4, delivered: 3, failed: 1 });
    let empty = DeliveryResult::tally(&Vec::new());
    assert_eq!(empty, DeliveryResult { processed: 0, delivered: 0, failed: 0 });
}
