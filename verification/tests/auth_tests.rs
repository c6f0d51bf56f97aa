use base64::Engine;
use p256::ecdsa::SigningKey;
use p256::pkcs8::{EncodePublicKey, LineEnding};
use signature::Signer;

use toddler_copilot_extension::agent::{extract_header_and_verify_signature, AuthError, RequestHeaders};
use toddler_copilot_extension::copilot_public_keys::{
    current_verification_key, CopilotPublicKey, CopilotPublicKeys, KeyError, SignatureError,
    VerificationKey, VerifyFromStr,
};

fn test_signing_key(seed: u8) -> SigningKey {
    SigningKey::from_slice(&[seed; 32]).expect("seed must be a valid scalar")
}

fn pem_of(sk: &SigningKey) -> String {
    sk.verifying_key()
        .to_public_key_pem(LineEnding::LF)
        .expect("PEM encoding")
}

fn sign_b64(sk: &SigningKey, body: &str) -> String {
    let sig: p256::ecdsa::Signature = sk.sign(body.as_bytes());
    base64::prelude::BASE64_STANDARD.encode(sig.to_der().as_bytes())
}

fn test_key(seed: u8) -> (SigningKey, VerificationKey) {
    let sk = test_signing_key(seed);
    let key = VerificationKey::parse(&pem_of(&sk)).expect("generated PEM must parse");
    (sk, key)
}

#[test]
fn sign_empty_body_verifies() {
    let (sk, key) = test_key(7);
    let sig = sign_b64(&sk, "");
    assert_eq!(key.verify_from_str(&sig, ""), Ok(()));
}

#[test]
fn signature_for_empty_body_rejects_toto() {
    let (sk, key) = test_key(7);
    let sig_for_empty = sign_b64(&sk, "");
    assert_eq!(
        key.verify_from_str(&sig_for_empty, "toto"),
        Err(SignatureError::InvalidSignature)
    );
}

#[test]
fn round_trip_verifies_for_various_bodies() {
    let (sk, key) = test_key(11);
    let bodies = [
        "",
        "x",
        "toto",
        "{\"messages\":[{\"role\":\"user\",\"content\":\"coucou\"}]}",
        "a longer body with spaces, punctuation, and unicode: héllo wörld",
    ];
    for body in bodies {
        let sig = sign_b64(&sk, body);
        assert_eq!(key.verify_from_str(&sig, body), Ok(()));
    }
}

#[test]
fn modified_body_fails_verification() {
    let (sk, key) = test_key(11);
    let sig = sign_b64(&sk, "the signed body");
    for other in ["the signed body ", "The signed body", "completely different", ""] {
        assert!(key.verify_from_str(&sig, other).is_err());
    }
}

#[test]
fn corrupted_signature_text_always_fails() {
    let (sk, key) = test_key(13);
    let body = "hello";
    let sig = sign_b64(&sk, body);
    assert_eq!(key.verify_from_str(&sig, body), Ok(()));
    for i in 0..sig.len() {
        let mut corrupted: Vec<u8> = sig.as_bytes().to_vec();
        corrupted[i] = if corrupted[i] == b'A' { b'B' } else { b'A' };
        let corrupted = String::from_utf8(corrupted).unwrap();
        let outcome = key.verify_from_str(&corrupted, body);
        assert!(outcome.is_err(), "corruption at byte {} was accepted", i);
    }
}

#[test]
fn bad_base64_reports_encoding_error() {
    let (_, key) = test_key(7);
    assert_eq!(
        key.verify_from_str("!!!not base64!!!", "body"),
        Err(SignatureError::SignatureEncodingError)
    );
}

#[test]
fn valid_base64_bad_der_reports_format_error() {
    let (_, key) = test_key(7);
    let not_der = base64::prelude::BASE64_STANDARD.encode([1u8, 2, 3]);
    assert_eq!(
        key.verify_from_str(&not_der, "body"),
        Err(SignatureError::SignatureFormatError)
    );
}

#[test]
fn key_parse_accepts_pem_and_rejects_garbage() {
    let sk = test_signing_key(7);
    let pem = pem_of(&sk);
    let key = VerificationKey::parse(&pem).expect("valid PEM");
    assert_eq!(key.as_pem(), &pem);
    assert!(VerificationKey::parse("garbage, not a key").is_none());
    assert!(VerificationKey::parse("").is_none());
}

fn record(id: &str, key: &str, is_current: bool) -> CopilotPublicKey {
    CopilotPublicKey {
        key_identifier: id.to_string(),
        key: key.to_string(),
        is_current,
    }
}

#[test]
fn current_key_picks_first_current() {
    let pem_a = pem_of(&test_signing_key(21));
    let pem_b = pem_of(&test_signing_key(22));
    let pem_c = pem_of(&test_signing_key(23));
    let keys = CopilotPublicKeys {
        public_keys: vec![
            record("old", &pem_a, false),
            record("first-current", &pem_b, true),
            record("second-current", &pem_c, true),
        ],
    };
    let key = current_verification_key(&keys).expect("a current key exists");
    assert_eq!(key.as_pem(), &pem_b);
}

#[test]
fn no_current_key_fails() {
    let pem = pem_of(&test_signing_key(21));
    let none_current = CopilotPublicKeys {
        public_keys: vec![record("a", &pem, false), record("b", &pem, false)],
    };
    assert_eq!(
        current_verification_key(&none_current),
        Err(KeyError::NoCurrentKey)
    );
    let empty = CopilotPublicKeys { public_keys: vec![] };
    assert_eq!(current_verification_key(&empty), Err(KeyError::NoCurrentKey));
}

#[test]
fn malformed_current_material_fails_even_with_later_valid_record() {
    let pem = pem_of(&test_signing_key(21));
    let keys = CopilotPublicKeys {
        public_keys: vec![
            record("broken", "not a pem at all", true),
            record("fine", &pem, true),
        ],
    };
    assert_eq!(current_verification_key(&keys), Err(KeyError::KeyParseError));
}

fn headers(
    signature: Option<&str>,
    token: Option<&str>,
    integration: Option<&str>,
) -> RequestHeaders {
    RequestHeaders {
        signature: signature.map(|s| s.as_bytes().to_vec()),
        github_token: token.map(|s| s.as_bytes().to_vec()),
        integration_id: integration.map(|s| s.as_bytes().to_vec()),
    }
}

#[test]
fn missing_signature_header_rejected() {
    let (_, key) = test_key(7);
    let h = headers(None, Some("a-token"), Some("an-integration"));
    assert_eq!(
        extract_header_and_verify_signature(&key, &h, "body"),
        Err(AuthError::MissingSignatureHeader)
    );
}

#[test]
fn signature_checked_before_identity_token() {
    let (sk, key) = test_key(7);
    let wrong_sig = sign_b64(&sk, "some other body");
    let h = headers(Some(&wrong_sig), None, None);
    // The identity token is also missing, but the invalid signature is
    // reported: no other header is read before the signature verifies.
    assert_eq!(
        extract_header_and_verify_signature(&key, &h, "body"),
        Err(AuthError::InvalidSignature)
    );
}

#[test]
fn unreadable_signature_header_rejected() {
    let (_, key) = test_key(7);
    let h = RequestHeaders {
        signature: Some(vec![0x01, 0x02]),
        github_token: Some(b"tok".to_vec()),
        integration_id: None,
    };
    assert_eq!(
        extract_header_and_verify_signature(&key, &h, "body"),
        Err(AuthError::HeaderEncodingError)
    );
}

#[test]
fn unreadable_integration_header_rejected() {
    let (sk, key) = test_key(7);
    let body = "the body";
    let sig = sign_b64(&sk, body);
    let h = RequestHeaders {
        signature: Some(sig.into_bytes()),
        github_token: Some(b"tok".to_vec()),
        integration_id: Some(vec![0xff]),
    };
    assert_eq!(
        extract_header_and_verify_signature(&key, &h, body),
        Err(AuthError::HeaderEncodingError)
    );
}

#[test]
fn identity_token_required() {
    let (sk, key) = test_key(7);
    let body = "the body";
    let sig = sign_b64(&sk, body);
    let h = headers(Some(&sig), None, None);
    assert_eq!(
        extract_header_and_verify_signature(&key, &h, body),
        Err(AuthError::MissingIdentityToken)
    );
}

#[test]
fn authenticated_request_happy_path() {
    let (sk, key) = test_key(7);
    let body = "{\"payload\":true}";
    let sig = sign_b64(&sk, body);
    let h = headers(Some(&sig), Some("ghu_sometoken"), Some("my-integration"));
    let auth = extract_header_and_verify_signature(&key, &h, body).expect("must authenticate");
    assert_eq!(auth.identity_token, "ghu_sometoken");
    assert_eq!(auth.integration_id.as_deref(), Some("my-integration"));
}

#[test]
fn integration_header_is_optional() {
    let (sk, key) = test_key(7);
    let body = "b";
    let sig = sign_b64(&sk, body);
    let h = headers(Some(&sig), Some("tok\twith tab"), None);
    let auth = extract_header_and_verify_signature(&key, &h, body).expect("must authenticate");
    assert_eq!(auth.identity_token, "tok\twith tab");
    assert_eq!(auth.integration_id, None);
}

#[test]
fn auth_errors_map_to_400() {
    assert_eq!(AuthError::MissingSignatureHeader.status_code(), 400);
    assert_eq!(AuthError::HeaderEncodingError.status_code(), 400);
    assert_eq!(AuthError::InvalidSignature.status_code(), 400);
    assert_eq!(AuthError::MissingIdentityToken.status_code(), 400);
}
