//! Golf clubs we can book against, and their stored credentials.
//!
//! Club logins are stored centrally (one household). The password has to be
//! replayed to the club, so the whole row is a secret and its credentials are
//! never rendered back.
use crate::golf::client::ClubEndpoint;
use crate::text::{concat, i64_to_decimal, signed_decimal, strip_trailing};
use crate::users::debug_quoted;
use crate::users::debug_str;
use vstd::prelude::*;
use vstd::string::*;

verus! {

#[derive(Clone)]
pub struct Club {
    pub id: i64,
    pub name: String,
    pub base_url: String,
    pub username: String,
    pub password: String,
    pub member_id: String,
    /// IANA timezone the club books in (e.g. `Australia/Sydney`).
    pub timezone: String,
}

impl Club {
    /// A log-safe description: credentials show as `[redacted]`.
    pub open spec fn debug_spec(&self) -> Seq<char> {
        "Club { id: "@ + signed_decimal(self.id as int) + ", name: "@ + debug_str(self.name@)
            + ", base_url: "@ + debug_str(self.base_url@)
            + ", username: \"[redacted]\", password: \"[redacted]\", member_id: \"[redacted]\", timezone: "@
            + debug_str(self.timezone@) + " }"@
    }

    pub fn debug_string(&self) -> (r: String)
        ensures
            r@ == self.debug_spec(),
    {
        let mut r = "Club { id: ".to_owned();
        let id = i64_to_decimal(self.id);
        r.append(id.as_str());
        r.append(", name: ");
        let n = debug_quoted(self.name.as_str());
        r.append(n.as_str());
        r.append(", base_url: ");
        let b = debug_quoted(self.base_url.as_str());
        r.append(b.as_str());
        r.append(
            ", username: \"[redacted]\", password: \"[redacted]\", member_id: \"[redacted]\", timezone: ",
        );
        let t = debug_quoted(self.timezone.as_str());
        r.append(t.as_str());
        r.append(" }");
        r
    }

    /// How to reach this club (the booking client's settings).
    pub fn endpoint(&self) -> (r: ClubEndpoint)
        ensures
            r.base_url@ == strip_trailing(self.base_url@, '/'),
            r.username@ == self.username@,
            r.password@ == self.password@,
            r.member_id@ == self.member_id@,
    {
        ClubEndpoint::new(
            self.base_url.as_str(),
            self.username.as_str(),
            self.password.as_str(),
            self.member_id.as_str(),
        )
    }
}

/// A club to insert.
pub struct NewClub {
    pub name: String,
    pub base_url: String,
    pub username: String,
    pub password: String,
    pub member_id: String,
    pub timezone: String,
}

/// The zone a seeded club gets when none is configured.
pub open spec fn default_zone() -> Seq<char> {
    "Australia/Sydney"@
}

/// A club seeded from `<PREFIX>_BASE_URL`, `_USERNAME`, `_PASSWORD`,
/// `_MEMBER_ID` (all required) and `_TIMEZONE` (default `Australia/Sydney`).
pub fn club_seed(
    name: &str,
    base_url: Option<String>,
    username: Option<String>,
    password: Option<String>,
    member_id: Option<String>,
    timezone: Option<String>,
) -> (r: Option<NewClub>)
    ensures
        r is Some <==> (base_url is Some && username is Some && password is Some && member_id is Some),
        r matches Some(c) ==> {
            &&& c.name@ == name@
            &&& Some(c.base_url) == base_url
            &&& Some(c.username) == username
            &&& Some(c.password) == password
            &&& Some(c.member_id) == member_id
            &&& c.timezone@ == (match timezone {
                Some(t) => t@,
                None => default_zone(),
            })
        },
{
    match (base_url, username, password, member_id) {
        (Some(b), Some(u), Some(p), Some(m)) => {
            let timezone = match timezone {
                Some(t) => t,
                None => "Australia/Sydney".to_owned(),
            };
            Some(
                NewClub {
                    name: name.to_owned(),
                    base_url: b,
                    username: u,
                    password: p,
                    member_id: m,
                    timezone,
                },
            )
        },
        _ => None,
    }
}

} // verus!
