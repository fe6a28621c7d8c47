//! Application login accounts and the password-reset token rules.
use crate::text::{concat, signed_decimal, i64_to_decimal};
use crate::time::{parse_rfc3339, representable, rfc3339_instant, UtcInstant};
use sha2::Digest;
use vstd::prelude::*;
use vstd::string::*;

verus! {

/// How long a password-reset link stays valid (seconds).
pub const RESET_TOKEN_TTL_SECS: i64 = 3600;

/// Minimum length, in bytes, of an account password (on creation and reset).
pub const MIN_PASSWORD_LEN: usize = 8;

/// A password long enough to be accepted (measured in UTF-8 bytes).
pub open spec fn password_long_enough(password: Seq<char>) -> bool {
    vstd::utf8::encode_utf8(password).len() >= MIN_PASSWORD_LEN
}

/// Whether `password` meets the minimum length.
pub fn password_ok(password: &str) -> (r: bool)
    ensures
        r == password_long_enough(password@),
{
    let b = password.as_bytes();
    b.len() >= MIN_PASSWORD_LEN
}

/// A login account for the app (a family member).
#[derive(Clone)]
pub struct User {
    pub id: i64,
    pub username: String,
    /// Argon2 hash of the account password.
    pub password: String,
    pub email: Option<String>,
}

/// Text as `str`'s `Debug` writes it: in double quotes, with quotes,
/// backslashes, control and non-printable characters escaped.
pub uninterp spec fn str_debug(s: Seq<char>) -> Seq<char>;

/// Trusted: `format!("{:?}", s)`, the `Debug` impl of `str`. The result is
/// named.
#[verifier::external_body]
fn str_debug_text(s: &str) -> (r: String)
    ensures
        r@ == str_debug(s@),
{
    format!("{:?}", s)
}

/// `Debug` rendering of an optional string: `Some("…")` or `None`.
pub open spec fn debug_option(o: Option<Seq<char>>) -> Seq<char> {
    match o {
        Some(s) => "Some("@ + debug_str(s) + ")"@,
        None => "None"@,
    }
}

/// `Debug` rendering of a string: quoted and escaped.
pub open spec fn debug_str(s: Seq<char>) -> Seq<char> {
    str_debug(s)
}

/// The redacted debug form of a user: the password hash never appears.
pub open spec fn user_debug(id: i64, username: Seq<char>, email: Option<Seq<char>>) -> Seq<char> {
    "User { id: "@ + signed_decimal(id as int) + ", username: "@ + debug_str(username)
        + ", password: \"[redacted]\", email: "@ + debug_option(email) + " }"@
}

pub open spec fn opt_view(o: Option<String>) -> Option<Seq<char>> {
    match o {
        Some(s) => Some(s@),
        None => None,
    }
}

/// The `Debug` form of a string, as a field of a debug struct shows it.
pub fn debug_quoted(s: &str) -> (r: String)
    ensures
        r@ == debug_str(s@),
{
    str_debug_text(s)
}

fn debug_opt(o: &Option<String>) -> (r: String)
    ensures
        r@ == debug_option(opt_view(*o)),
{
    match o {
        Some(s) => {
            let q = debug_quoted(s.as_str());
            let mut r = concat("Some(", q.as_str());
            r.append(")");
            r
        },
        None => "None".to_owned(),
    }
}

impl User {
    /// The stored password hash; changing the password changes it, which
    /// invalidates the account's existing sessions.
    pub fn session_auth_hash(&self) -> (r: &String)
        ensures
            r@ == self.password@,
    {
        &self.password
    }

    /// A log-safe description of the account: the password hash is shown as
    /// `[redacted]`.
    pub fn debug_string(&self) -> (r: String)
        ensures
            r@ == user_debug(self.id, self.username@, opt_view(self.email)),
    {
        let mut r = "User { id: ".to_owned();
        let id = i64_to_decimal(self.id);
        r.append(id.as_str());
        r.append(", username: ");
        let u = debug_quoted(self.username.as_str());
        r.append(u.as_str());
        r.append(", password: \"[redacted]\", email: ");
        let e = debug_opt(&self.email);
        r.append(e.as_str());
        r.append(" }");
        r
    }
}

/// The password, as UTF-8, verifies against the stored PHC hash string
/// (the hash's own algorithm, salt and parameters decide).
pub uninterp spec fn password_matches(password: Seq<u8>, hash: Seq<char>) -> bool;

/// Trusted: `password_auth::verify_password`; success is named.
#[verifier::external_body]
fn verify_password(password: &str, hash: &str) -> (r: bool)
    ensures
        r == password_matches(password.spec_bytes(), hash@),
{
    password_auth::verify_password(password, hash).is_ok()
}

/// Trusted: `password_auth::generate_hash` (Argon2 with a fresh random
/// salt). Its hashing fails, and the function panics, only for a password
/// beyond Argon2's maximum length, which the precondition excludes. The hash
/// verifies against the password it was made from (the crate's documented
/// round trip with `verify_password`); nothing else is claimed of its text.
#[verifier::external_body]
fn generate_hash(password: &str) -> (r: String)
    requires
        password.spec_bytes().len() <= 0xffff_ffff,
    ensures
        password_matches(password.spec_bytes(), r@),
{
    password_auth::generate_hash(password)
}

/// Who a login attempt lets in: the account found for the username, when the
/// password verifies against its stored hash.
pub open spec fn login_result(user: Option<User>, password: Seq<u8>) -> Option<User> {
    match user {
        Some(u) => if password_matches(password, u.password@) {
            Some(u)
        } else {
            None
        },
        None => None,
    }
}

/// A password stored through the library lets its account in, and only a
/// password its hash verifies lets anyone in.
pub proof fn law_stored_password_admits(user: User, password: Seq<u8>, attempt: Seq<u8>)
    requires
        password_matches(password, user.password@),
    ensures
        login_result(Some(user), password) == Some(user),
        login_result(Some(user), attempt) is Some <==> password_matches(attempt, user.password@),
        login_result(None, attempt) is None,
{
}

/// Check login credentials against the account found for the username (if
/// any). When there is no account, the password is still verified, against
/// `dummy_hash`, so the response time does not reveal whether the username
/// exists; the answer is then always `None`.
pub fn check_credentials(user: Option<User>, password: &str, dummy_hash: &str) -> (r: Option<User>)
    ensures
        r == login_result(user, password.spec_bytes()),
{
    match user {
        Some(u) => {
            if verify_password(password, u.password.as_str()) {
                Some(u)
            } else {
                let _ = verify_password(password, dummy_hash);
                None
            }
        },
        None => {
            let _ = verify_password(password, dummy_hash);
            None
        },
    }
}

/// An account row to insert: the password is stored only as its hash.
pub struct StoredAccount {
    pub username: String,
    pub email: Option<String>,
    pub password_hash: String,
}

/// Prepare a new account: username and email as given, the password hashed.
pub fn new_account(username: &str, email: Option<&str>, password: &str) -> (r: StoredAccount)
    requires
        password.spec_bytes().len() <= 0xffff_ffff,
    ensures
        r.username@ == username@,
        match email {
            Some(e) => r.email matches Some(x) && x@ == e@,
            None => r.email is None,
        },
        password_matches(password.spec_bytes(), r.password_hash@),
{
    let email = match email {
        Some(e) => Some(e.to_owned()),
        None => None,
    };
    StoredAccount { username: username.to_owned(), email, password_hash: generate_hash(password) }
}

/// A new password's stored form (its hash).
pub fn new_password_hash(password: &str) -> (r: String)
    requires
        password.spec_bytes().len() <= 0xffff_ffff,
    ensures
        password_matches(password.spec_bytes(), r@),
{
    generate_hash(password)
}

/// Login form fields.
pub struct Credentials {
    pub username: String,
    pub password: String,
    /// Optional post-login redirect target (the page the user was sent from).
    pub next: Option<String>,
}

/// A login account rendered to the management UI (no password).
pub struct UserRow {
    pub id: i64,
    pub username: String,
    pub email: Option<String>,
}

/// SHA-256 of a byte string.
pub uninterp spec fn sha256(data: Seq<u8>) -> Seq<u8>;

/// Trusted: `sha2::Sha256::digest`; the digest is named and is 32 bytes.
#[verifier::external_body]
fn sha256_digest(data: &[u8]) -> (r: Vec<u8>)
    ensures
        r@ == sha256(data@),
        r@.len() == 32,
{
    sha2::Sha256::digest(data).to_vec()
}

/// The lowercase hexadecimal digit for `n < 16`.
pub open spec fn hex_digit(n: u8) -> char {
    if n < 10 {
        ('0' as u8 + n) as char
    } else {
        ('a' as u8 + (n - 10)) as char
    }
}

/// Lowercase hex encoding: two digits per byte, high nibble first.
pub open spec fn hex_lower(b: Seq<u8>) -> Seq<char> {
    Seq::new(
        (2 * b.len()) as nat,
        |i: int|
            if i % 2 == 0 {
                hex_digit(b[i / 2] / 16)
            } else {
                hex_digit(b[i / 2] % 16)
            },
    )
}

/// Trusted: `hex::encode`, which writes each byte as two lowercase hex
/// digits, high nibble first (its source's `HEX_CHARS_LOWER` table).
#[verifier::external_body]
fn hex_encode(data: &[u8]) -> (r: String)
    ensures
        r@ == hex_lower(data@),
{
    hex::encode(data)
}

/// Trusted: `rand::random` for 32 bytes from the thread-local generator.
/// Nothing is claimed of the values.
#[verifier::external_body]
fn random_token_bytes() -> (r: Vec<u8>)
    ensures
        r@.len() == 32,
{
    let b: [u8; 32] = rand::random();
    b.to_vec()
}

/// The stored form of a reset token: hex SHA-256 of its UTF-8 text.
pub open spec fn token_hash(raw: Seq<char>) -> Seq<char> {
    hex_lower(sha256(vstd::utf8::encode_utf8(raw)))
}

/// Hash a raw reset token for storage (only the hash is stored).
pub fn hash_token(raw: &str) -> (r: String)
    ensures
        r@ == token_hash(raw@),
        r@.len() == 64,
{
    let d = sha256_digest(raw.as_bytes());
    hex_encode(d.as_slice())
}

/// A freshly issued reset token: the raw text for the emailed link and the
/// hash to store.
pub struct ResetToken {
    pub raw: String,
    pub hash: String,
}

/// Issue a single-use reset token: 32 random bytes, hex-encoded.
pub fn new_reset_token() -> (r: ResetToken)
    ensures
        exists|b: Seq<u8>| b.len() == 32 && r.raw@ == hex_lower(b),
        r.raw@.len() == 64,
        r.hash@ == token_hash(r.raw@),
{
    let bytes = random_token_bytes();
    let raw = hex_encode(bytes.as_slice());
    let hash = hash_token(raw.as_str());
    ResetToken { raw, hash }
}

/// A token's expiry time: one hour from `now`.
pub fn reset_expiry(now: UtcInstant) -> (r: UtcInstant)
    requires
        representable(now.secs as int),
    ensures
        r.secs == now.secs + RESET_TOKEN_TTL_SECS,
        r.nanos == now.nanos,
{
    UtcInstant { secs: now.secs + RESET_TOKEN_TTL_SECS, nanos: now.nanos }
}

/// A stored token is no longer valid at `now`: its expiry text is unreadable,
/// or `now` is later than it.
pub open spec fn token_expired(expires_at: Seq<char>, now: UtcInstant) -> bool {
    match rfc3339_instant(expires_at) {
        None => true,
        Some(e) => e.before(now),
    }
}

pub fn reset_token_expired(expires_at: &str, now: UtcInstant) -> (r: bool)
    ensures
        r == token_expired(expires_at@, now),
{
    match parse_rfc3339(expires_at) {
        Ok(e) => e.is_before(&now),
        Err(_) => true,
    }
}

/// The unused token row found for a hash: its id, owner and expiry text.
pub struct TokenRow {
    pub token_id: i64,
    pub user_id: i64,
    pub expires_at: String,
}

/// Redeeming a token, step one: the row to mark used, if the token may be
/// redeemed at `now`.
pub fn redeemable(row: Option<TokenRow>, now: UtcInstant) -> (r: Option<(i64, i64)>)
    ensures
        match row {
            None => r is None,
            Some(t) => if token_expired(t.expires_at@, now) {
                r is None
            } else {
                r == Some((t.token_id, t.user_id))
            },
        },
{
    match row {
        None => None,
        Some(t) => {
            if reset_token_expired(t.expires_at.as_str(), now) {
                None
            } else {
                Some((t.token_id, t.user_id))
            }
        },
    }
}

/// Redeeming a token, step two: the owner's id only when this request is the
/// one that marked it used (exactly one row changed).
pub fn redeemed(user_id: i64, rows_affected: u64) -> (r: Option<i64>)
    ensures
        r == (if rows_affected == 1 {
            Some(user_id)
        } else {
            None::<i64>
        }),
{
    if rows_affected == 1 {
        Some(user_id)
    } else {
        None
    }
}

/// The first login account, seeded from the environment when none exist.
pub struct SeedAccount {
    pub username: String,
    pub password: String,
    pub email: Option<String>,
}

/// Seed an account only when no account exists and both a username and a
/// password are configured.
pub fn seed_account(
    any_exist: bool,
    username: Option<String>,
    password: Option<String>,
    email: Option<String>,
) -> (r: Option<SeedAccount>)
    ensures
        r is Some <==> (!any_exist && username is Some && password is Some),
        r matches Some(a) ==> (username == Some(a.username) && password == Some(a.password)
            && email == a.email),
{
    if any_exist {
        return None;
    }
    match (username, password) {
        (Some(u), Some(p)) => Some(SeedAccount { username: u, password: p, email }),
        _ => None,
    }
}

} // verus!
