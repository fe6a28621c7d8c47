//! User management: the rules for adding and deleting login accounts.
use crate::text::{trim, trimmed};
use crate::users::{password_long_enough, password_ok};
use crate::web::auth::{short_password_message, short_password_text};
use vstd::prelude::*;
use vstd::string::*;

verus! {

/// The add-account form.
pub struct CreateForm {
    pub username: String,
    pub email: String,
    pub password: String,
}

/// An account ready to create: trimmed username and email, and the password.
pub struct NewAccount {
    pub username: String,
    pub email: String,
}

pub open spec fn username_required() -> Seq<char> {
    "Username is required."@
}

/// Validate the add-account form: the trimmed username must be non-empty and
/// the password long enough (checked in that order).
pub fn create_check(form: &CreateForm) -> (r: Result<NewAccount, String>)
    ensures
        trimmed(form.username@).len() == 0 ==> (r matches Err(m) && m@ == username_required()),
        trimmed(form.username@).len() > 0 && !password_long_enough(form.password@) ==> (r matches Err(m)
            && m@ == short_password_message()),
        trimmed(form.username@).len() > 0 && password_long_enough(form.password@) ==> (r matches Ok(a)
            && a.username@ == trimmed(form.username@) && a.email@ == trimmed(form.email@)),
{
    let username = trim(form.username.as_str());
    let email = trim(form.email.as_str());
    if username.as_str().is_empty() {
        return Err("Username is required.".to_owned());
    }
    if !password_ok(form.password.as_str()) {
        return Err(short_password_text());
    }
    Ok(NewAccount { username, email })
}

/// Why an account may not be deleted.
pub open spec fn delete_refusal(target: i64, me: i64, count: i64) -> Option<Seq<char>> {
    if target == me {
        Some("You can't delete your own account."@)
    } else if count <= 1 {
        Some("Can't delete the last account."@)
    } else {
        None
    }
}

/// You can't delete your own account, nor the last one.
pub fn delete_check(target: i64, me: i64, count: i64) -> (r: Option<&'static str>)
    ensures
        match r {
            Some(m) => delete_refusal(target, me, count) == Some(m@),
            None => delete_refusal(target, me, count) is None,
        },
{
    if target == me {
        Some("You can't delete your own account.")
    } else if count <= 1 {
        Some("Can't delete the last account.")
    } else {
        None
    }
}

/// Account management never removes the last account or the caller's own.
pub proof fn law_delete_keeps_an_account(target: i64, me: i64, count: i64)
    ensures
        delete_refusal(target, me, count) is None ==> target != me && count >= 2,
{
}

} // verus!
