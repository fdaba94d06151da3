use base64::engine::general_purpose::URL_SAFE_NO_PAD;
use base64::Engine;
use chrono::{DateTime, Duration, Utc};
use rand::rngs::OsRng;
use rsa::pkcs8::{EncodePublicKey, LineEnding};
use rsa::pss::SigningKey;
use rsa::signature::{RandomizedSigner, SignatureEncoding};
use rsa::{RsaPrivateKey, RsaPublicKey};
use sha2::Sha256;

use furniture_shop::licensing::{
    accept_payload, activation_key, check_activation, clock_refresh_due, clock_rolled_back,
    command_exempt, evaluate_license, hex_lower, inactive_status, instant, masked_key, open_token,
    recovery_requires_new_license, split_envelope, validate_dates, AnchorRead, ClockAnchor,
    EnvelopeFault, LicensePayload, StoredLicense, VerifiedLicense, VerifyFailure,
};

fn at(t: DateTime<Utc>) -> i128 {
    instant(t.timestamp(), t.timestamp_subsec_nanos())
}

fn payload(hardware: &str, issue: DateTime<Utc>, expiry: DateTime<Utc>) -> LicensePayload {
    LicensePayload {
        version: 1,
        license_id: "LIC-TEST-1".into(),
        customer: "Test Showroom".into(),
        hardware_id: hardware.into(),
        issue_date: issue.to_rfc3339(),
        expiry_date: expiry.to_rfc3339(),
        granted_days: 30,
    }
}

fn payload_json(p: &LicensePayload) -> Vec<u8> {
    format!(
        "{{\"version\":{},\"licenseId\":\"{}\",\"customer\":\"{}\",\"hardwareId\":\"{}\",\"issueDate\":\"{}\",\"expiryDate\":\"{}\",\"grantedDays\":{}}}",
        p.version, p.license_id, p.customer, p.hardware_id, p.issue_date, p.expiry_date, p.granted_days
    )
    .into_bytes()
}

fn signed(private: &RsaPrivateKey, p: &LicensePayload) -> String {
    let bytes = payload_json(p);
    let key = SigningKey::<Sha256>::new(private.clone());
    let signature = key.sign_with_rng(&mut OsRng, &bytes);
    format!(
        "FSLIC1.{}.{}",
        URL_SAFE_NO_PAD.encode(bytes),
        URL_SAFE_NO_PAD.encode(signature.to_bytes())
    )
}

fn verified(issue: i128, expiry: i128) -> VerifiedLicense {
    VerifiedLicense {
        payload: LicensePayload {
            version: 1,
            license_id: "x".into(),
            customer: "x".into(),
            hardware_id: "x".into(),
            issue_date: "x".into(),
            expiry_date: "x".into(),
            granted_days: 30,
        },
        issue,
        expiry,
        token_digest: "x".into(),
        masked_key: "x".into(),
    }
}

#[test]
fn invalid_and_tampered_tokens_fail_closed() {
    // The shipped verification key is not part of this tree; a freshly made
    // key stands in for it, so a well-formed token reaches the signature check.
    let private = RsaPrivateKey::new(&mut OsRng, 2048).unwrap();
    let public = RsaPublicKey::from(&private).to_public_key_pem(LineEnding::LF).unwrap();
    assert!(matches!(open_token("bad", &public), Err(VerifyFailure::Invalid(_))));
    assert!(matches!(
        open_token("FSLIC1.e30.invalid", &public),
        Err(VerifyFailure::Invalid(_)) | Err(VerifyFailure::Tampered)
    ));
    assert!(matches!(open_token("FSLIC1.e30.AAAA", &public), Err(VerifyFailure::Tampered)));
}

#[test]
fn date_rules_detect_expiry_and_future_issue() {
    let now = Utc::now();
    let expired = verified(at(now - Duration::days(31)), at(now - Duration::days(1)));
    assert!(validate_dates(&expired, at(Utc::now())).is_err());
    let future = verified(at(now + Duration::days(1)), at(now + Duration::days(31)));
    assert!(validate_dates(&future, at(Utc::now())).is_err());
}

#[test]
fn valid_signature_hardware_binding_and_tamper_are_enforced() {
    let private = RsaPrivateKey::new(&mut OsRng, 2048).unwrap();
    let public = RsaPublicKey::from(&private)
        .to_public_key_pem(LineEnding::LF)
        .unwrap();
    let now = Utc::now();
    let expiry = now + Duration::days(30);
    let p = payload("AAAA-BBBB-CCCC-DDDD", now, expiry);
    let token = signed(&private, &p);
    let bytes = open_token(&token, &public).unwrap();
    assert_eq!(bytes, payload_json(&p));
    let valid = accept_payload(&token, Some(p), "AAAA-BBBB-CCCC-DDDD").unwrap();
    assert_eq!(valid.payload.customer, "Test Showroom");
    let again = payload("AAAA-BBBB-CCCC-DDDD", now, expiry);
    assert!(matches!(
        accept_payload(&token, Some(again), "1111-2222-3333-4444"),
        Err(VerifyFailure::HardwareMismatch)
    ));
    let mut tampered = token.into_bytes();
    tampered[8] = if tampered[8] == b'A' { b'B' } else { b'A' };
    assert!(matches!(
        open_token(&String::from_utf8(tampered).unwrap(), &public),
        Err(VerifyFailure::Tampered)
    ));
}

#[test]
fn rollback_comparison_allows_small_clock_correction_only() {
    let last_seen = at(Utc::now());
    let minute: i128 = 60_000_000_000;
    assert!(!clock_rolled_back(last_seen - 4 * minute, last_seen));
    assert!(clock_rolled_back(last_seen - 6 * minute, last_seen));
}

#[test]
fn damaged_clock_state_cannot_be_reset_with_the_same_or_an_old_key() {
    let now = at(Utc::now());
    let day: i128 = 86_400_000_000_000;
    let minute: i128 = 60_000_000_000;
    assert!(recovery_requires_new_license(false, now - 2 * day, now));
    assert!(recovery_requires_new_license(true, now, now));
    assert!(!recovery_requires_new_license(false, now - 5 * minute, now));
}

#[test]
fn envelope_faults_are_told_apart() {
    assert!(matches!(split_envelope("FSLIC1"), Err(EnvelopeFault::PayloadMissing)));
    assert!(matches!(split_envelope("FSLIC1.abc"), Err(EnvelopeFault::SignatureMissing)));
    assert!(matches!(split_envelope("FSLIC1.a.b.c"), Err(EnvelopeFault::Unsupported)));
    assert!(matches!(split_envelope("FSLIC2.a.b"), Err(EnvelopeFault::Unsupported)));
    assert!(matches!(split_envelope("FSLIC12.a.b"), Err(EnvelopeFault::Unsupported)));
    match split_envelope("FSLIC1.payload.sig") {
        Ok((p, g)) => {
            assert_eq!(p, "payload");
            assert_eq!(g, "sig");
        }
        Err(_) => panic!("a well-formed envelope must split"),
    }
}

#[test]
fn open_token_reports_envelope_messages() {
    match open_token("FSLIC1", "") {
        Err(VerifyFailure::Invalid(m)) => assert_eq!(m, "License payload is missing."),
        _ => panic!("expected an invalid token"),
    }
    match open_token("FSLIC1.e30", "") {
        Err(VerifyFailure::Invalid(m)) => assert_eq!(m, "License signature is missing."),
        _ => panic!("expected an invalid token"),
    }
    match open_token("FSLIC1.e30.e30", "not a key") {
        Err(VerifyFailure::Invalid(m)) => assert_eq!(m, "Application verification key is invalid."),
        _ => panic!("expected an invalid key"),
    }
}

#[test]
fn digest_is_lower_hex_of_each_byte() {
    assert_eq!(hex_lower(&vec![0x00, 0x0f, 0xa5, 0xff]), "000fa5ff");
    assert_eq!(hex_lower(&vec![]), "");
}

#[test]
fn masked_key_shows_the_last_eight_characters() {
    assert_eq!(masked_key("FSLIC1.abcdefghijkl"), "FSLIC1-••••-••••-efghijkl");
    assert_eq!(masked_key("short"), "FSLIC1-••••-••••-short");
}

#[test]
fn accepted_payload_carries_digest_dates_and_mask() {
    let issue = Utc::now();
    let expiry = issue + Duration::days(10);
    let token = "FSLIC1.xyz.abc";
    let v = accept_payload(token, Some(payload("aaaa-bbbb", issue, expiry)), "AAAA-BBBB").unwrap();
    assert_eq!(v.issue, at(issue));
    assert_eq!(v.expiry, at(expiry));
    assert_eq!(v.token_digest.len(), 64);
    assert_eq!(v.masked_key, "FSLIC1-••••-••••-.xyz.abc");
    let mut bad = payload("aaaa-bbbb", issue, expiry);
    bad.granted_days = 0;
    match accept_payload(token, Some(bad), "AAAA-BBBB") {
        Err(VerifyFailure::Invalid(m)) => assert_eq!(m, "Signed license fields are invalid."),
        _ => panic!("zero granted days must be refused"),
    }
    let backwards = payload("aaaa-bbbb", expiry, issue);
    match accept_payload(token, Some(backwards), "AAAA-BBBB") {
        Err(VerifyFailure::Invalid(m)) => {
            assert_eq!(m, "License expiry must be after its issue date.")
        }
        _ => panic!("expiry before issue must be refused"),
    }
    match accept_payload(token, None, "AAAA-BBBB") {
        Err(VerifyFailure::Invalid(m)) => assert_eq!(m, "Signed license data is invalid."),
        _ => panic!("missing data must be refused"),
    }
}

fn good_license(now: DateTime<Utc>) -> VerifiedLicense {
    let mut v = verified(at(now - Duration::minutes(1)), at(now + Duration::days(30)));
    v.token_digest = "d1".into();
    v
}

#[test]
fn evaluation_follows_the_stored_state() {
    let now = Utc::now();
    let (missing, write) =
        evaluate_license(StoredLicense::Missing, AnchorRead::Missing, "HW", at(now), true, None);
    assert_eq!(missing.status, "missing");
    assert!(!missing.is_activated);
    assert!(!write);

    let anchor = ClockAnchor { last_seen_utc: now.to_rfc3339(), license_digest: "d1".into() };
    let (active, _) = evaluate_license(
        StoredLicense::Read(Ok(good_license(now))),
        AnchorRead::Present(anchor),
        "HW",
        at(now),
        true,
        Some("2026-01-01".into()),
    );
    assert_eq!(active.status, "active");
    assert!(active.is_activated);
    assert_eq!(active.days_remaining, 30);
    assert_eq!(active.last_renewed.as_deref(), Some("2026-01-01"));

    let later = ClockAnchor {
        last_seen_utc: (now + Duration::hours(1)).to_rfc3339(),
        license_digest: "d1".into(),
    };
    let (rollback, _) = evaluate_license(
        StoredLicense::Read(Ok(good_license(now))),
        AnchorRead::Present(later),
        "HW",
        at(now),
        true,
        None,
    );
    assert_eq!(rollback.status, "clock_rollback");
    assert!(!rollback.is_activated);

    let other = ClockAnchor { last_seen_utc: now.to_rfc3339(), license_digest: "d2".into() };
    let (mismatch, _) = evaluate_license(
        StoredLicense::Read(Ok(good_license(now))),
        AnchorRead::Present(other),
        "HW",
        at(now),
        true,
        None,
    );
    assert_eq!(mismatch.status, "tampered");

    let (wrong, _) = evaluate_license(
        StoredLicense::Read(Err(VerifyFailure::HardwareMismatch)),
        AnchorRead::Missing,
        "HW",
        at(now),
        true,
        None,
    );
    assert_eq!(wrong.status, "wrong_hardware");

    let (expired, _) = evaluate_license(
        StoredLicense::Read(Ok(verified(
            at(now - Duration::days(31)),
            at(now - Duration::days(1)),
        ))),
        AnchorRead::Missing,
        "HW",
        at(now),
        true,
        None,
    );
    assert_eq!(expired.status, "expired");
}

#[test]
fn clock_record_is_rewritten_only_when_due() {
    let now = Utc::now();
    let seen = now - Duration::seconds(45);
    let anchor = ClockAnchor { last_seen_utc: seen.to_rfc3339(), license_digest: "d1".into() };
    let (_, write) = evaluate_license(
        StoredLicense::Read(Ok(good_license(now))),
        AnchorRead::Present(anchor),
        "HW",
        at(now),
        true,
        None,
    );
    assert!(write);
    assert!(clock_refresh_due(at(now), at(seen)));
    assert!(!clock_refresh_due(at(now), at(now - Duration::seconds(10))));
}

#[test]
fn activation_refuses_a_rolled_back_clock_and_lost_records() {
    let now = Utc::now();
    let ahead = ClockAnchor {
        last_seen_utc: (now + Duration::hours(2)).to_rfc3339(),
        license_digest: "d".into(),
    };
    assert!(check_activation(Ok(good_license(now)), at(now), AnchorRead::Present(ahead), true, None, "K")
        .is_err());
    assert!(check_activation(
        Ok(good_license(now)),
        at(now),
        AnchorRead::Missing,
        true,
        Some("  K ".into()),
        "K"
    )
    .is_err());
    assert!(check_activation(Ok(good_license(now)), at(now), AnchorRead::Damaged, true, Some("OLD".into()), "K")
        .is_ok());
    assert!(check_activation(Ok(good_license(now)), at(now), AnchorRead::Missing, false, None, "K").is_ok());
}

#[test]
fn activation_key_is_trimmed_and_bounded() {
    assert_eq!(activation_key("  KEY  ").unwrap(), "KEY");
    let long = "x".repeat(16_385);
    assert!(activation_key(&long).is_err());
    let exact = "x".repeat(16_384);
    assert!(activation_key(&exact).is_ok());
}

#[test]
fn only_license_commands_are_exempt_from_the_gate() {
    assert!(command_exempt("license_status"));
    assert!(command_exempt("license_activate"));
    assert!(!command_exempt("sale_create"));
    let inactive = inactive_status("missing", "License required", "m", "HW");
    assert!(!inactive.is_activated);
    assert_eq!(inactive.label, "License required");
}
