use social_forge::pkce::{generate_code_challenge, generate_code_verifier, generate_state};
use social_forge::webhook::{delivery_status, hmac_sha256, webhook_signature, DeliveryStatus};

#[test]
fn test_generate_code_verifier_length() {
    let verifier = generate_code_verifier();
    assert_eq!(verifier.len(), 128, "verifier should be 128 chars");
}

#[test]
fn test_generate_code_verifier_charset() {
    let verifier = generate_code_verifier();
    for c in verifier.chars() {
        assert!(
            (c.is_ascii_alphanumeric()) || c == '-' || c == '.' || c == '_' || c == '~',
            "illegal char '{}' in verifier",
            c
        );
    }
}

#[test]
fn test_generate_code_verifier_unique() {
    let v1 = generate_code_verifier();
    let v2 = generate_code_verifier();
    assert_ne!(v1, v2, "two consecutive verifiers should differ (random salt)");
}

#[test]
fn test_generate_code_challenge_deterministic() {
    let verifier = "test-verifier-string-1234567890abcdefghijklmnopqrstuvwxyz";
    let c1 = generate_code_challenge(verifier);
    let c2 = generate_code_challenge(verifier);
    assert_eq!(c1, c2, "same verifier should produce same challenge");
}

#[test]
fn test_generate_code_challenge_length() {
    let verifier = "short";
    let challenge = generate_code_challenge(verifier);
    assert_eq!(challenge.len(), 43, "SHA256 base64url challenge should be 43 chars");
}

#[test]
fn test_generate_state_length() {
    let state = generate_state();
    assert_eq!(state.len(), 64, "state should be 64 hex chars");
}

#[test]
fn test_generate_state_hex_chars() {
    let state = generate_state();
    for c in state.chars() {
        assert!(c.is_ascii_hexdigit(), "state char '{}' is not hex", c);
    }
}

#[test]
fn test_generate_state_unique() {
    let s1 = generate_state();
    let s2 = generate_state();
    assert_ne!(s1, s2, "states should be unique");
}

#[test]
fn code_challenge_matches_rfc7636_example() {
    // The example of RFC 7636, appendix B.
    let challenge = generate_code_challenge("dBjftJeZ4CVP-mB92K27uhbUJU1p1r_wW1gFWFOEjXk");
    assert_eq!(challenge, "E9Melhoa2OwvFrEMTJguCHaoeK1t8URWbuGJSstw-cM");
}

#[test]
fn hmac_matches_rfc4231_case_2() {
    let mac = hmac_sha256(b"Jefe", b"what do ya want for nothing?");
    let hex: String = mac.iter().map(|b| format!("{:02x}", b)).collect();
    assert_eq!(hex, "5bdcc146bf60754e6a042426089575c75a003f089d2739839dec58b964ec3843");
}

#[test]
fn hmac_with_long_key_hashes_the_key_first() {
    // RFC 4231 test case 6: a 131-byte key.
    let key = vec![0xaau8; 131];
    let mac = hmac_sha256(&key, b"Test Using Larger Than Block-Size Key - Hash Key First");
    let hex: String = mac.iter().map(|b| format!("{:02x}", b)).collect();
    assert_eq!(hex, "60e431591ee0b67f0d8a26aacbf5b77f8e0bc6213728c5140546040f0ee37f54");
}

#[test]
fn webhook_signature_is_prefixed_hex_hmac() {
    let sig = webhook_signature("Jefe", "what do ya want for nothing?");
    assert_eq!(sig, "sha256=5bdcc146bf60754e6a042426089575c75a003f089d2739839dec58b964ec3843");
}

#[test]
fn delivery_status_counts_200_and_201_as_delivered() {
    assert!(delivery_status(Some(200)) == DeliveryStatus::Delivered);
    assert!(delivery_status(Some(201)) == DeliveryStatus::Delivered);
    assert!(delivery_status(Some(204)) == DeliveryStatus::Failed);
    assert!(delivery_status(Some(500)) == DeliveryStatus::Failed);
    assert!(delivery_status(None) == DeliveryStatus::Failed);
    assert_eq!(DeliveryStatus::Delivered.as_str(), "delivered");
    assert_eq!(DeliveryStatus::Failed.as_str(), "failed");
}
