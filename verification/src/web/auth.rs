//! Login / logout and the password-reset flow (all public pages).
use crate::text::{concat, decimal, has_prefix, str_starts_with, to_lowercase, trim, trimmed, unicode_lowercase, u64_to_decimal};
use crate::users::{password_long_enough, password_ok, MIN_PASSWORD_LEN};
use vstd::prelude::*;
use vstd::string::*;

verus! {

/// The `next` query parameter of the login page.
pub struct NextUrl {
    pub next: Option<String>,
}

/// The `token` query parameter of the reset page.
pub struct ResetQuery {
    pub token: Option<String>,
}

/// The forgot-password form.
pub struct ForgotForm {
    pub email: String,
}

/// The reset-password form.
pub struct ResetForm {
    pub token: String,
    pub password: String,
}

/// A same-origin, relative path: starts with `/` but not `//` or `/\`.
pub open spec fn is_safe_next(n: Seq<char>) -> bool {
    has_prefix(n, "/"@) && !has_prefix(n, "//"@) && !has_prefix(n, "/\\"@)
}

/// Only allow same-origin, relative redirect targets (no open redirects).
pub fn safe_next(next: Option<&str>) -> (r: Option<String>)
    ensures
        match next {
            Some(n) => if is_safe_next(n@) {
                r matches Some(s) && s@ == n@
            } else {
                r is None
            },
            None => r is None,
        },
{
    match next {
        Some(n) => {
            if str_starts_with(n, "/") && !str_starts_with(n, "//") && !str_starts_with(n, "/\\") {
                Some(n.to_owned())
            } else {
                None
            }
        },
        None => None,
    }
}

/// The limiter key of a login: the username, lowercased.
pub fn login_key(username: &str) -> (r: String)
    ensures
        r@ == unicode_lowercase(username@),
{
    to_lowercase(username)
}

/// What the login form shows or does.
pub enum LoginOutcome {
    /// Re-show the form with this message.
    Refuse(String),
    /// Log in and redirect here.
    Redirect(String),
}

pub open spec fn too_many_attempts() -> Seq<char> {
    "Too many attempts. Wait a few minutes and try again."@
}

pub open spec fn invalid_credentials() -> Seq<char> {
    "Invalid username or password."@
}

/// The login rule: a throttled username is refused before the password is
/// checked; bad credentials are refused; a good login goes to the sanitised
/// `next` target, else home.
pub fn login_outcome(allowed: bool, authenticated: bool, next: &Option<String>) -> (r: LoginOutcome)
    ensures
        !allowed ==> (r matches LoginOutcome::Refuse(m) && m@ == too_many_attempts()),
        allowed && !authenticated ==> (r matches LoginOutcome::Refuse(m) && m@
            == invalid_credentials()),
        allowed && authenticated ==> (r matches LoginOutcome::Redirect(u) && u@ == (match next {
            Some(n) => n@,
            None => "/"@,
        })),
{
    if !allowed {
        return LoginOutcome::Refuse("Too many attempts. Wait a few minutes and try again.".to_owned());
    }
    if !authenticated {
        return LoginOutcome::Refuse("Invalid username or password.".to_owned());
    }
    match next {
        Some(n) => LoginOutcome::Redirect(n.clone()),
        None => LoginOutcome::Redirect("/".to_owned()),
    }
}

/// The reset link emailed for a raw token.
pub fn reset_link(base_url: &str, token: &str) -> (r: String)
    ensures
        r@ == base_url@ + "/reset?token="@ + token@,
{
    let mut r = concat(base_url, "/reset?token=");
    r.append(token);
    r
}

/// The body of the password-reset email.
pub fn reset_email_body(link: &str) -> (r: String)
    ensures
        r@ == "Someone requested a password reset for your golf-booker account.\n\nReset it here (expires in 1 hour):\n"@
            + link@ + "\n\nIf this wasn't you, you can ignore this email.\n"@,
{
    let mut r = concat(
        "Someone requested a password reset for your golf-booker account.\n\nReset it here (expires in 1 hour):\n",
        link,
    );
    r.append("\n\nIf this wasn't you, you can ignore this email.\n");
    r
}

/// The message for a password below the minimum length.
pub open spec fn short_password_message() -> Seq<char> {
    "Password must be at least "@ + decimal(MIN_PASSWORD_LEN as nat) + " characters."@
}

pub fn short_password_text() -> (r: String)
    ensures
        r@ == short_password_message(),
{
    let mut r = "Password must be at least ".to_owned();
    let n = u64_to_decimal(MIN_PASSWORD_LEN as u64);
    r.append(n.as_str());
    r.append(" characters.");
    r
}

/// A reset form is only redeemed with a long-enough password; otherwise the
/// form comes back with the length message.
pub fn reset_password_check(form: &ResetForm) -> (r: Option<String>)
    ensures
        password_long_enough(form.password@) ==> r is None,
        !password_long_enough(form.password@) ==> (r matches Some(m) && m@
            == short_password_message()),
{
    if password_ok(form.password.as_str()) {
        None
    } else {
        Some(short_password_text())
    }
}

/// The address a reset is requested for: the form's email, trimmed.
pub fn forgot_email(form: &ForgotForm) -> (r: String)
    ensures
        r@ == trimmed(form.email@),
{
    trim(form.email.as_str())
}

} // verus!
