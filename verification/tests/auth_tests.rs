use mini_view_server::auth::{canonical_command_message, verify_timestamp, AuthError, AuthRepo};

const FOX_TAG: &str = "f7bc83f430538424b13298e6aa6fb143ef4d59a14946175997479dbc2d1a3cd8";
const FOX_MSG: &str = "The quick brown fox jumps over the lazy dog";

#[test]
fn sign_message_matches_the_known_vector() {
    let repo = AuthRepo::new("key".to_string());
    assert_eq!(repo.sign_message(FOX_MSG), FOX_TAG);
}

#[test]
fn verify_accepts_the_known_vector() {
    let repo = AuthRepo::new("key".to_string());
    assert!(repo.verify_message(FOX_TAG, FOX_MSG));
}

#[test]
fn verify_accepts_uppercase_hex() {
    let repo = AuthRepo::new("key".to_string());
    assert!(repo.verify_message(&FOX_TAG.to_uppercase(), FOX_MSG));
}

#[test]
fn verify_rejects_a_wrong_signature() {
    let repo = AuthRepo::new("key".to_string());
    let wrong = "00bc83f430538424b13298e6aa6fb143ef4d59a14946175997479dbc2d1a3cd8";
    assert!(!repo.verify_message(wrong, FOX_MSG));
}

#[test]
fn verify_rejects_a_changed_message() {
    let repo = AuthRepo::new("key".to_string());
    assert!(!repo.verify_message(FOX_TAG, "The quick brown fox jumps over the lazy cog"));
}

#[test]
fn verify_rejects_a_wrong_key() {
    let repo = AuthRepo::new("other".to_string());
    assert!(!repo.verify_message(FOX_TAG, FOX_MSG));
}

#[test]
fn verify_rejects_non_hex_and_odd_length() {
    let repo = AuthRepo::new("key".to_string());
    assert!(!repo.verify_message("zz", FOX_MSG));
    assert!(!repo.verify_message("abc", FOX_MSG));
    assert!(!repo.verify_message("", FOX_MSG));
}

#[test]
fn sign_then_verify_round_trips() {
    let repo = AuthRepo::new("shared-secret".to_string());
    let sig = repo.sign_message("clock/1700000000");
    assert!(repo.verify_message(&sig, "clock/1700000000"));
    assert!(!repo.verify_message(&sig, "note/1700000000"));
}

#[test]
fn timestamps_within_the_window_pass() {
    assert!(verify_timestamp(100, 100, 5));
    assert!(verify_timestamp(95, 100, 5));
    assert!(verify_timestamp(105, 100, 5));
    assert!(!verify_timestamp(94, 100, 5));
    assert!(!verify_timestamp(106, 100, 5));
}

#[test]
fn timestamp_extremes_do_not_overflow() {
    assert!(!verify_timestamp(i64::MIN, i64::MAX, 5));
    assert!(!verify_timestamp(i64::MAX, i64::MIN, 5));
}

#[test]
fn authorize_accepts_a_fresh_signed_command() {
    let repo = AuthRepo::new("shared-secret".to_string());
    let msg = canonical_command_message("clock", 1_700_000_000);
    let sig = repo.sign_message(&msg);
    assert_eq!(repo.authorize(&sig, &msg, 1_700_000_000, 1_700_000_003, 5), Ok(()));
}

#[test]
fn authorize_rejects_a_stale_timestamp() {
    let repo = AuthRepo::new("shared-secret".to_string());
    let msg = canonical_command_message("clock", 1_700_000_000);
    let sig = repo.sign_message(&msg);
    assert_eq!(
        repo.authorize(&sig, &msg, 1_700_000_000, 1_700_000_010, 5),
        Err(AuthError::TimestampOutOfRange)
    );
}

#[test]
fn authorize_rejects_a_bad_signature() {
    let repo = AuthRepo::new("shared-secret".to_string());
    let msg = canonical_command_message("clock", 1_700_000_000);
    assert_eq!(
        repo.authorize("deadbeef", &msg, 1_700_000_000, 1_700_000_001, 5),
        Err(AuthError::BadSignature)
    );
}

#[test]
fn canonical_message_is_view_slash_timestamp() {
    assert_eq!(canonical_command_message("clock", 1234), "clock/1234");
    assert_eq!(canonical_command_message("note", 0), "note/0");
    assert_eq!(canonical_command_message("x", -7), "x/-7");
}
