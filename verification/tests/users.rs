use golf_booker::time::UtcInstant;
use golf_booker::users::{
    hash_token, new_reset_token, password_ok, redeemable, redeemed, reset_expiry,
    reset_token_expired, seed_account, TokenRow, User,
};

#[test]
fn token_hash_is_stable_and_distinct() {
    assert_eq!(hash_token("abc"), hash_token("abc"));
    assert_ne!(hash_token("abc"), hash_token("abd"));
    assert_eq!(hash_token("abc").len(), 64);
}

#[test]
fn token_hash_is_hex_sha256() {
    assert_eq!(
        hash_token("abc"),
        "ba7816bf8f01cfea414140de5dae2223b00361a396177a9cb410ff61f20015ad"
    );
}

#[test]
fn debug_redacts_password_hash() {
    let user = User {
        id: 1,
        username: "alice".into(),
        password: "argon2-secret-hash".into(),
        email: Some("a@b.com".into()),
    };
    let dbg = user.debug_string();
    assert!(!dbg.contains("argon2-secret-hash"), "hash leaked: {dbg}");
    assert!(dbg.contains("alice"));
    assert!(dbg.contains("a@b.com"));
    assert_eq!(
        dbg,
        "User { id: 1, username: \"alice\", password: \"[redacted]\", email: Some(\"a@b.com\") }"
    );
}

#[test]
fn reset_tokens_are_fresh_hex_with_matching_hash() {
    let a = new_reset_token();
    let b = new_reset_token();
    assert_eq!(a.raw.len(), 64);
    assert!(a.raw.chars().all(|c| c.is_ascii_hexdigit() && !c.is_ascii_uppercase()));
    assert_eq!(a.hash, hash_token(&a.raw));
    assert_ne!(a.raw, b.raw);
}

#[test]
fn expired_reset_token_is_rejected() {
    let now = UtcInstant { secs: 1_800_000_000, nanos: 0 };
    let past = "2020-01-01T00:00:00+00:00";
    assert!(reset_token_expired(past, now));
    assert!(redeemable(
        Some(TokenRow { token_id: 1, user_id: 2, expires_at: past.to_string() }),
        now
    )
    .is_none());
}

#[test]
fn unreadable_expiry_counts_as_expired() {
    let now = UtcInstant { secs: 0, nanos: 0 };
    assert!(reset_token_expired("not a time", now));
}

#[test]
fn valid_token_redeems_once() {
    let now = UtcInstant { secs: 1_000, nanos: 0 };
    let exp = reset_expiry(now);
    assert_eq!(exp.secs, 4_600);
    let row = TokenRow { token_id: 9, user_id: 42, expires_at: "2099-01-01T00:00:00Z".into() };
    assert_eq!(redeemable(Some(row), now), Some((9, 42)));
    assert_eq!(redeemed(42, 1), Some(42));
    // another request already marked it used
    assert_eq!(redeemed(42, 0), None);
    assert_eq!(redeemable(None, now), None);
}

#[test]
fn password_length_counts_bytes() {
    assert!(!password_ok("short"));
    assert!(password_ok("password"));
    assert!(password_ok("éééé"));
}

#[test]
fn seeding_needs_an_empty_table_and_credentials() {
    assert!(seed_account(true, Some("a".into()), Some("p".into()), None).is_none());
    assert!(seed_account(false, None, Some("p".into()), None).is_none());
    let s = seed_account(false, Some("a".into()), Some("p".into()), Some("e".into())).unwrap();
    assert_eq!((s.username.as_str(), s.password.as_str(), s.email.as_deref()), ("a", "p", Some("e")));
}

#[test]
fn credentials_check_uses_the_stored_hash() {
    let hash = password_auth::generate_hash("correct horse");
    let dummy = password_auth::generate_hash("placeholder");
    let user = || User { id: 7, username: "alice".into(), password: hash.clone(), email: None };
    let ok = golf_booker::users::check_credentials(Some(user()), "correct horse", &dummy);
    assert_eq!(ok.map(|u| u.id), Some(7));
    assert!(golf_booker::users::check_credentials(Some(user()), "wrong", &dummy).is_none());
    assert!(golf_booker::users::check_credentials(None, "correct horse", &dummy).is_none());
}

#[test]
fn new_account_password_lets_the_account_in() {
    let account = golf_booker::users::new_account("alice", Some("a@b.com"), "correct horse");
    assert_eq!(account.username, "alice");
    assert_eq!(account.email.as_deref(), Some("a@b.com"));
    assert_ne!(account.password_hash, "correct horse");
    let dummy = golf_booker::users::new_password_hash("placeholder");
    let user = || User {
        id: 1,
        username: account.username.clone(),
        password: account.password_hash.clone(),
        email: account.email.clone(),
    };
    let ok = golf_booker::users::check_credentials(Some(user()), "correct horse", &dummy);
    assert_eq!(ok.map(|u| u.id), Some(1));
    assert!(golf_booker::users::check_credentials(Some(user()), "correct horsf", &dummy).is_none());
}

#[test]
fn debug_text_escapes_like_debug() {
    let user = User {
        id: 3,
        username: "al\"ice\\".into(),
        password: "argon2-secret-hash".into(),
        email: Some("a\nb@c.com".into()),
    };
    assert_eq!(
        user.debug_string(),
        "User { id: 3, username: \"al\\\"ice\\\\\", password: \"[redacted]\", email: Some(\"a\\nb@c.com\") }"
    );
    assert_eq!(user.debug_string(), format!("{:?}", DebugShape(&user)));
}

/// The field layout `debug_struct` writes, to hold the library's text to.
struct DebugShape<'a>(&'a User);

impl std::fmt::Debug for DebugShape<'_> {
    fn fmt(&self, f: &mut std::fmt::Formatter<'_>) -> std::fmt::Result {
        f.debug_struct("User")
            .field("id", &self.0.id)
            .field("username", &self.0.username)
            .field("password", &"[redacted]")
            .field("email", &self.0.email)
            .finish()
    }
}
