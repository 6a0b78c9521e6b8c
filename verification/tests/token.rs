use recog_session::errors::SessionError;
use recog_session::token::Credentials;
use recog_session::token::TokenIssuer;

#[test]
fn base64_secret_is_decoded() {
    let c = Credentials::from_base64(String::from("key-1"), "aGVsbG8=")
        .expect("a valid encoding decodes");
    assert_eq!(c.api_key_id, "key-1");
    assert_eq!(c.secret_key, b"hello".to_vec());
}

#[test]
fn malformed_secret_is_a_signing_error() {
    let r = Credentials::from_base64(String::from("key-1"), "%%% not base64 %%%");
    assert_eq!(r.err(), Some(SessionError::Signing));
}

#[test]
fn issue_carries_key_id_and_expiry() {
    let issuer = TokenIssuer::new(Credentials::new(
        String::from("key-1"),
        b"super-secret".to_vec(),
    ));
    let t = issuer.issue_at(1_000_000);
    assert_eq!(t.key_id, "key-1");
    assert_eq!(t.expiry, 1_000_060);
    assert!(t.is_valid_at(1_000_059));
    assert!(!t.is_valid_at(1_000_060));
}

#[test]
fn issue_is_deterministic_for_a_fixed_clock() {
    let issuer = TokenIssuer::new(Credentials::new(
        String::from("key-1"),
        b"super-secret".to_vec(),
    ));
    let a = issuer.issue_at(1_000_000);
    let b = issuer.issue_at(1_000_000);
    assert_eq!(a.jwt, b.jwt);
}

#[test]
fn tokens_differ_when_expiry_differs_and_both_verify() {
    let secret: &[u8] = b"super-secret";
    let issuer = TokenIssuer::new(Credentials::new(String::from("key-1"), secret.to_vec()));
    let now = chrono::Utc::now().timestamp();
    let t1 = issuer.issue_at(now);
    let t2 = issuer.issue_at(now + 5);
    assert_ne!(t1.jwt, t2.jwt);

    let key = jsonwebtoken::DecodingKey::from_secret(secret);
    let mut validation = jsonwebtoken::Validation::new(jsonwebtoken::Algorithm::HS256);
    validation.set_audience(&["tinkoff.cloud.stt"]);
    let d1 = jsonwebtoken::decode::<serde_json::Value>(&t1.jwt, &key, &validation)
        .expect("the first token verifies against the secret");
    let d2 = jsonwebtoken::decode::<serde_json::Value>(&t2.jwt, &key, &validation)
        .expect("the second token verifies against the secret");
    assert_eq!(d1.header.kid.as_deref(), Some("key-1"));
    assert_eq!(d1.claims.get("iss").and_then(|v| v.as_str()), Some("recog"));
    assert_eq!(d1.claims.get("sub").and_then(|v| v.as_str()), Some("akmitrich"));
    assert_eq!(
        d1.claims.get("aud").and_then(|v| v.as_str()),
        Some("tinkoff.cloud.stt")
    );
    assert_eq!(d1.claims.get("exp").and_then(|v| v.as_i64()), Some(now + 60));
    assert_eq!(d2.claims.get("exp").and_then(|v| v.as_i64()), Some(now + 65));
}

#[test]
fn token_does_not_verify_against_another_secret() {
    let issuer = TokenIssuer::new(Credentials::new(
        String::from("key-1"),
        b"super-secret".to_vec(),
    ));
    let t = issuer.issue_at(chrono::Utc::now().timestamp());
    let wrong_key = jsonwebtoken::DecodingKey::from_secret(b"another-secret");
    let mut validation = jsonwebtoken::Validation::new(jsonwebtoken::Algorithm::HS256);
    validation.set_audience(&["tinkoff.cloud.stt"]);
    assert!(jsonwebtoken::decode::<serde_json::Value>(&t.jwt, &wrong_key, &validation).is_err());
}

#[test]
fn issue_reads_the_clock() {
    let issuer = TokenIssuer::new(Credentials::new(
        String::from("key-1"),
        b"super-secret".to_vec(),
    ));
    let before = chrono::Local::now().timestamp();
    let t = issuer.issue();
    let after = chrono::Local::now().timestamp();
    assert!(before + 60 <= t.expiry && t.expiry <= after + 60);
}

#[test]
fn expiry_saturates_at_the_largest_timestamp() {
    let issuer = TokenIssuer::new(Credentials::new(
        String::from("key-1"),
        b"super-secret".to_vec(),
    ));
    let t = issuer.issue_at(i64::MAX - 10);
    assert_eq!(t.expiry, i64::MAX);
}
