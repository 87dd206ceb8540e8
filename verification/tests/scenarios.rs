use base64::Engine;
use wascap::errors::{new, Error, ErrorKind};

struct Claims {
    issuer: String,
    subject: String,
    algorithm: String,
    expires: Option<u64>,
    not_before: Option<u64>,
    module_hash: String,
}

fn valid_claims() -> Claims {
    Claims {
        issuer: "AALICE".to_string(),
        subject: "MMODULE".to_string(),
        algorithm: "Ed25519".to_string(),
        expires: Some(2_000),
        not_before: Some(1_000),
        module_hash: "abc123".to_string(),
    }
}

fn validate(claims: &Claims, now: u64, computed_hash: &str) -> Result<(), Error> {
    if claims.issuer.is_empty() {
        return Err(new(ErrorKind::MissingIssuer));
    }
    if claims.subject.is_empty() {
        return Err(new(ErrorKind::MissingSubject));
    }
    if claims.algorithm != "Ed25519" {
        return Err(new(ErrorKind::InvalidAlgorithm));
    }
    if claims.expires.map_or(false, |at| at < now) {
        return Err(new(ErrorKind::ExpiredToken));
    }
    if claims.not_before.map_or(false, |at| now < at) {
        return Err(new(ErrorKind::TokenTooEarly));
    }
    if claims.module_hash != computed_hash {
        return Err(new(ErrorKind::InvalidModuleHash));
    }
    Ok(())
}

fn validate_through_a_caller(claims: &Claims, now: u64, computed_hash: &str) -> Result<u64, Error> {
    validate(claims, now, computed_hash)?;
    Ok(now)
}

#[test]
fn malformed_base64_is_a_decode_failure_not_a_token_failure() {
    let source = base64::engine::general_purpose::STANDARD
        .decode("a")
        .unwrap_err();
    let e: Error = Error::from(source.clone());
    assert!(matches!(e.kind(), ErrorKind::Decode(inner) if *inner == source));
    assert!(!matches!(e.kind(), ErrorKind::Token(_)));
}

#[test]
fn valid_claims_pass() {
    assert!(validate(&valid_claims(), 1_500, "abc123").is_ok());
    assert_eq!(validate_through_a_caller(&valid_claims(), 1_500, "abc123").unwrap(), 1_500);
}

#[test]
fn a_token_past_its_expiry_is_expired() {
    let e: Error = validate_through_a_caller(&valid_claims(), 2_001, "abc123").unwrap_err();
    assert!(matches!(e.kind(), ErrorKind::ExpiredToken));
}

#[test]
fn a_token_before_its_start_is_too_early() {
    let e: Error = validate_through_a_caller(&valid_claims(), 999, "abc123").unwrap_err();
    assert!(matches!(e.kind(), ErrorKind::TokenTooEarly));
}

#[test]
fn an_empty_issuer_is_a_missing_issuer() {
    let mut claims: Claims = valid_claims();
    claims.issuer = String::new();
    let e: Error = validate_through_a_caller(&claims, 1_500, "abc123").unwrap_err();
    assert!(matches!(e.kind(), ErrorKind::MissingIssuer));
}

#[test]
fn an_empty_subject_is_a_missing_subject() {
    let mut claims: Claims = valid_claims();
    claims.subject = String::new();
    let e: Error = validate_through_a_caller(&claims, 1_500, "abc123").unwrap_err();
    assert!(matches!(e.kind(), ErrorKind::MissingSubject));
}

#[test]
fn an_unknown_algorithm_is_an_invalid_algorithm() {
    let mut claims: Claims = valid_claims();
    claims.algorithm = "none".to_string();
    let e: Error = validate_through_a_caller(&claims, 1_500, "abc123").unwrap_err();
    assert!(matches!(e.kind(), ErrorKind::InvalidAlgorithm));
}

#[test]
fn a_differing_hash_is_an_invalid_module_hash() {
    let e: Error = validate_through_a_caller(&valid_claims(), 1_500, "abc124").unwrap_err();
    assert!(matches!(e.into_kind(), ErrorKind::InvalidModuleHash));
}
