use auth_core::hex::{hex_decode, hex_encode};
use auth_core::token::{bytes_eq, TokenError, TokenService};

fn service() -> TokenService {
    TokenService::new(b"top-secret-signing-key".to_vec(), 3600)
}

#[test]
fn test_issue_validate_roundtrip() {
    let svc = service();
    let token = svc.issue(42, 1_000_000);
    assert_eq!(svc.validate(&token, 1_000_000), Ok(42));
    assert_eq!(svc.validate(&token, 1_000_000 + 3599), Ok(42));
}

#[test]
fn test_token_expired() {
    let svc = service();
    let token = svc.issue(42, 1_000_000);
    assert_eq!(svc.validate(&token, 1_000_000 + 3600), Err(TokenError::Expired));
    assert_eq!(svc.validate(&token, 1_000_000 + 7200), Err(TokenError::Expired));
}

#[test]
fn test_signature_bit_flip() {
    let svc = service();
    let token = svc.issue(7, 500);
    assert_eq!(token.len(), 56);
    for i in 24..token.len() {
        for bit in 0..8u8 {
            let mut tampered = token.clone();
            tampered[i] ^= 1 << bit;
            assert_eq!(
                svc.validate(&tampered, 500),
                Err(TokenError::InvalidSignature),
                "flip at byte {i} bit {bit} was not rejected"
            );
        }
    }
}

#[test]
fn test_payload_bit_flip() {
    let svc = service();
    let token = svc.issue(7, 500);
    for i in 0..24 {
        for bit in 0..8u8 {
            let mut tampered = token.clone();
            tampered[i] ^= 1 << bit;
            assert_eq!(svc.validate(&tampered, 500), Err(TokenError::InvalidSignature));
        }
    }
}

#[test]
fn test_token_malformed() {
    let svc = service();
    assert_eq!(svc.validate(&[], 0), Err(TokenError::Malformed));
    assert_eq!(svc.validate(&[1, 2, 3], 0), Err(TokenError::Malformed));
    let token = svc.issue(7, 500);
    assert_eq!(svc.validate(&token[..23], 500), Err(TokenError::Malformed));
    // 24 bytes and up carry the fields; without the right tag they are
    // a signature failure, not a structural one.
    assert_eq!(svc.validate(&token[..24], 500), Err(TokenError::InvalidSignature));
}

#[test]
fn test_wrong_secret_rejected() {
    let svc = service();
    let other = TokenService::new(b"some-other-key".to_vec(), 3600);
    let token = svc.issue(42, 1_000_000);
    assert_eq!(other.validate(&token, 1_000_000), Err(TokenError::InvalidSignature));
}

#[test]
fn test_hex_roundtrip() {
    let bytes = vec![0x00u8, 0x01, 0x7f, 0x80, 0xfe, 0xff, 0x12, 0xab];
    let text = hex_encode(&bytes);
    assert_eq!(text, "00017f80feff12ab");
    assert_eq!(hex_decode(&text), Some(bytes));
    assert_eq!(hex_encode(&[]), "");
    assert_eq!(hex_decode(""), Some(vec![]));
}

#[test]
fn test_hex_decode_rejects() {
    assert_eq!(hex_decode("abc"), None); // odd length
    assert_eq!(hex_decode("zz"), None); // not a digit
    assert_eq!(hex_decode("AB"), None); // uppercase is refused
    assert_eq!(hex_decode("0 "), None);
}

#[test]
fn test_bytes_eq() {
    assert!(bytes_eq(&[], &[]));
    assert!(bytes_eq(&[1, 2, 3], &[1, 2, 3]));
    assert!(!bytes_eq(&[1, 2, 3], &[1, 2, 4]));
    assert!(!bytes_eq(&[1, 2, 3], &[1, 2]));
}
