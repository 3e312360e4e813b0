use base64::engine::general_purpose::STANDARD;
use base64::Engine;
use ldap::{generate_ssha, ssha_with_salt};
use sha1::{Digest, Sha1};

/// Checks a password against a stored credential the way a directory
/// does: by taking the salt from the credential and hashing again.
fn matches_credential(password: &str, credential: &str) -> bool {
    let encoded = match credential.strip_prefix("{SSHA}") {
        Some(encoded) => encoded,
        None => return false,
    };
    let payload = match STANDARD.decode(encoded) {
        Ok(payload) => payload,
        Err(_) => return false,
    };
    if payload.len() != 24 {
        return false;
    }
    let mut message = password.as_bytes().to_vec();
    message.extend_from_slice(&payload[20..]);
    Sha1::digest(&message).as_slice() == &payload[..20]
}

#[test]
fn known_credentials() {
    assert_eq!(
        ssha_with_salt("test12345678", &[1, 2, 3, 4]),
        "{SSHA}DDwwhCeeYZF/09yFOXTPc7QFuuABAgME"
    );
    assert_eq!(
        ssha_with_salt("12345678", &[0xde, 0xad, 0xbe, 0xef]),
        "{SSHA}qHIYEe3V3898ojv1IGDLZHQN6anerb7v"
    );
}

#[test]
fn empty_password_is_hashed() {
    assert_eq!(ssha_with_salt("", &[0, 0, 0, 0]), "{SSHA}kGnKeOdFCihRc0MbPlLFwlKZ5HMAAAAA");
    let credential = generate_ssha("");
    assert!(credential.starts_with("{SSHA}"));
    assert!(matches_credential("", &credential));
}

#[test]
fn password_is_hashed_by_its_utf8_bytes() {
    assert_eq!(
        ssha_with_salt("pässwörd", &[255, 254, 253, 252]),
        "{SSHA}xpnmBvYJdEU1PlCpRgU6o+46At///v38"
    );
}

#[test]
fn payload_is_digest_then_salt() {
    let salt = [9u8, 8, 7, 6];
    let credential = ssha_with_salt("secret", &salt);
    let payload = STANDARD.decode(credential.strip_prefix("{SSHA}").unwrap()).unwrap();
    assert_eq!(payload.len(), 24);
    assert_eq!(&payload[20..], &salt);
    let mut message = b"secret".to_vec();
    message.extend_from_slice(&salt);
    assert_eq!(&payload[..20], Sha1::digest(&message).as_slice());
}

#[test]
fn salt_changes_the_credential() {
    assert_ne!(ssha_with_salt("secret", &[1, 2, 3, 4]), ssha_with_salt("secret", &[1, 2, 3, 5]));
}

#[test]
fn same_salt_gives_the_same_credential() {
    assert_eq!(ssha_with_salt("secret", &[1, 2, 3, 4]), ssha_with_salt("secret", &[1, 2, 3, 4]));
}

#[test]
fn generated_credential_is_tagged() {
    for password in ["", "a", "test12345678", "correct horse battery staple"] {
        let credential = generate_ssha(password);
        assert!(credential.starts_with("{SSHA}"));
        assert_eq!(credential.len(), 38);
    }
}

#[test]
fn generated_credential_matches_its_password() {
    let credential = generate_ssha("test12345678");
    assert!(matches_credential("test12345678", &credential));
    assert!(!matches_credential("test1234567", &credential));
    assert!(!matches_credential("", &credential));
}

#[test]
fn generated_credential_is_not_the_plaintext() {
    let credential = generate_ssha("test12345678");
    assert_ne!(credential, "test12345678");
    assert!(!credential.contains("test12345678"));
}

#[test]
fn two_credentials_of_one_password_differ() {
    let first = generate_ssha("test12345678");
    let second = generate_ssha("test12345678");
    let third = generate_ssha("test12345678");
    assert!(first != second || second != third);
}
