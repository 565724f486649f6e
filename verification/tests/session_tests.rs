use mini_view_server::session::{
    gen_hash_id, gen_token, is_valid_hash_char, is_valid_hash_id, Session, SessionDto,
    HASH_ID_LEN, TIMEOUT_DURATION_SEC,
};

const ALPHABET: &str = "ABCDEFGHIJKLMNOPQRSTUVWXYZabcdefghijklmnopqrstuvwxyz0123456789_-";

#[test]
fn ten_thousand_ids_are_well_formed() {
    for _ in 0..10_000 {
        let id = gen_hash_id();
        assert_eq!(id.chars().count(), 16);
        assert!(id.chars().all(is_valid_hash_char));
    }
}

#[test]
fn alphabet_members_are_accepted() {
    for c in ALPHABET.chars() {
        assert!(is_valid_hash_char(c));
    }
    assert_eq!(ALPHABET.chars().count(), 64);
}

#[test]
fn non_members_are_rejected() {
    for c in [' ', '@', '[', '`', '{', '/', ':', '=', '!', '\n', 'é'] {
        assert!(!is_valid_hash_char(c));
    }
}

#[test]
fn hash_id_len_is_sixteen() {
    assert_eq!(HASH_ID_LEN, 16);
}

#[test]
fn id_validation_checks_length_and_alphabet() {
    assert!(is_valid_hash_id("ABCDEFGHIJKLMNOP"));
    assert!(is_valid_hash_id("a1b2c3d4e5f6g7_-"));
    assert!(!is_valid_hash_id(""));
    assert!(!is_valid_hash_id("short"));
    assert!(!is_valid_hash_id("ABCDEFGHIJKLMNOPQ"));
    assert!(!is_valid_hash_id("ABCDEFGHIJKLMNO "));
    assert!(!is_valid_hash_id("ABCDEFGHIJKLMNO@"));
}

#[test]
fn gen_token_respects_length() {
    assert_eq!(gen_token(0).chars().count(), 0);
    let t = gen_token(40);
    assert_eq!(t.chars().count(), 40);
    assert!(t.chars().all(is_valid_hash_char));
}

#[test]
fn generated_ids_vary() {
    let first = gen_hash_id();
    let distinct = (0..100).any(|_| gen_hash_id() != first);
    assert!(distinct);
}

#[test]
fn session_round_trips_through_dto() {
    let s = Session {
        hash_id: "ABCDEFGHIJKLMNOP".to_string(),
        created_ts: 1_700_000_000,
        updated_ts: 1_700_000_100,
    };
    let dto = SessionDto::from(s.clone());
    assert_eq!(dto.hash_id, "ABCDEFGHIJKLMNOP");
    assert_eq!(dto.created_ts, 1_700_000_000);
    assert_eq!(dto.updated_ts, 1_700_000_100);
    let back = Session::from(dto);
    assert_eq!(back.hash_id, "ABCDEFGHIJKLMNOP");
    assert_eq!(back.created_ts, 1_700_000_000);
    assert_eq!(back.updated_ts, 1_700_000_100);
}

#[test]
fn fresh_session_rows_carry_now() {
    let s = Session::fresh(42);
    assert_eq!(s.created_ts, 42);
    assert_eq!(s.updated_ts, 42);
    assert_eq!(s.hash_id.chars().count(), 16);
    assert!(s.hash_id.chars().all(is_valid_hash_char));
}

#[test]
fn development_timeout_is_three_minutes() {
    assert_eq!(TIMEOUT_DURATION_SEC, 180);
}
