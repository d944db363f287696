use onlyrust::password::{check_outcome, check_password, hash_password, stored_password_check, verify_password};

#[test]
fn hashed_password_verifies() {
    let hash = hash_password("hunter2");
    assert!(verify_password(&hash, "hunter2"));
}

#[test]
fn wrong_password_is_rejected() {
    let hash = hash_password("hunter2");
    assert!(!verify_password(&hash, "hunter3"));
    assert!(!verify_password(&hash, ""));
}

#[test]
fn hash_is_encoded_argon2id_with_fixed_salt() {
    let hash = hash_password("correct horse");
    assert_ne!(hash, "correct horse");
    assert!(hash.starts_with("$argon2id$v=19$m=19456,t=2,p=1$cmFuZG9tc2FsdGxvbA$"));
    // 32 hash bytes are 43 base64 characters without padding.
    let tail = hash.rsplit('$').next().unwrap();
    assert_eq!(tail.len(), 43);
}

#[test]
fn hash_depends_on_password_alone() {
    let first = hash_password("same input");
    let second = hash_password("same input");
    assert_eq!(first, second);
    let other = hash_password("other input");
    assert_ne!(first, other);
}

#[test]
fn empty_password_hashes_and_verifies() {
    let hash = hash_password("");
    assert!(verify_password(&hash, ""));
    assert!(!verify_password(&hash, "x"));
}

#[test]
fn unicode_password_verifies() {
    let hash = hash_password("pässwörd💗");
    assert!(verify_password(&hash, "pässwörd💗"));
    assert!(!verify_password(&hash, "passwort"));
}

#[test]
fn malformed_hash_never_matches() {
    assert!(!verify_password("not a hash", "anything"));
    assert!(!verify_password("", ""));
    assert!(!verify_password("$argon2id$v=19$m=19456,t=2,p=1$$", "anything"));
}

#[test]
fn known_encoded_hash_verifies() {
    // Example from the Argon2 crate's documentation.
    let enc = "$argon2i$v=19$m=4096,t=3,p=1$c29tZXNhbHQ$iWh06vD8Fy27wf9npn6FXWiCX4K6pW6Ue1Bnzz07Z8A";
    assert!(verify_password(enc, "password"));
    assert!(!verify_password(enc, "Password"));
}

#[test]
fn stored_hash_lookup() {
    let hash = hash_password("s3cret");
    assert!(matches!(stored_password_check(Some(hash.as_str()), "s3cret"), Ok(true)));
    assert!(matches!(stored_password_check(Some(hash.as_str()), "secret"), Ok(false)));
    assert!(matches!(stored_password_check(None, "s3cret"), Ok(false)));
    assert!(stored_password_check(Some("garbage"), "s3cret").is_err());
}

#[test]
fn unreadable_hash_reports_the_argon2_error() {
    let check = check_password("not a hash", "anything");
    match &check {
        Err(e) => assert_eq!(e.0, argon2::Error::DecodingFail),
        Ok(_) => panic!("a malformed hash cannot be checked"),
    }
    assert!(!check_outcome(&check));
    assert!(check_outcome(&Ok(true)));
    assert!(!check_outcome(&Ok(false)));
}

#[test]
fn hash_has_the_encoded_argon2_form() {
    let hash = hash_password("abc");
    let fields: Vec<&str> = hash.split('$').collect();
    assert_eq!(fields, vec!["", "argon2id", "v=19", "m=19456,t=2,p=1", "cmFuZG9tc2FsdGxvbA", fields[5]]);
    assert!(fields[5].chars().all(|c| c.is_ascii_alphanumeric() || c == '+' || c == '/'));
}
