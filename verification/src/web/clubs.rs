//! Club management pages: the add/edit forms and their rules.
use crate::clubs::Club;
use crate::time::{is_zone_name, lookup_zone};
use vstd::prelude::*;
use vstd::string::*;

verus! {

/// Timezone suggestions offered in the form (free text is still allowed and
/// validated).
pub open spec fn suggested_timezones() -> Seq<Seq<char>> {
    seq![
        "Australia/Sydney"@,
        "Australia/Melbourne"@,
        "Australia/Brisbane"@,
        "Australia/Perth"@,
        "Australia/Adelaide"@,
        "Pacific/Auckland"@,
        "Europe/London"@,
        "America/New_York"@,
        "UTC"@,
    ]
}

pub fn timezones() -> (r: Vec<&'static str>)
    ensures
        r@.map_values(|s: &'static str| s@) == suggested_timezones(),
{
    let mut v: Vec<&'static str> = Vec::new();
    v.push("Australia/Sydney");
    v.push("Australia/Melbourne");
    v.push("Australia/Brisbane");
    v.push("Australia/Perth");
    v.push("Australia/Adelaide");
    v.push("Pacific/Auckland");
    v.push("Europe/London");
    v.push("America/New_York");
    v.push("UTC");
    assert(v@.map_values(|s: &'static str| s@) =~= suggested_timezones());
    v
}

/// The add-club form.
pub struct CreateForm {
    pub name: String,
    pub base_url: String,
    pub username: String,
    pub password: String,
    pub member_id: String,
    pub timezone: String,
}

/// The edit-club form. A blank password keeps the stored one.
pub struct UpdateForm {
    pub name: String,
    pub base_url: String,
    pub username: String,
    pub password: String,
    pub member_id: String,
    pub timezone: String,
}

/// Validate an IANA timezone name.
pub fn valid_timezone(tz: &str) -> (r: bool)
    ensures
        r == is_zone_name(tz@),
{
    lookup_zone(tz).is_some()
}

/// The password to store from the edit form: `None` (keep the stored one)
/// when the field was left blank.
pub fn new_password(form: &UpdateForm) -> (r: Option<&str>)
    ensures
        form.password@.len() == 0 ==> r is None,
        form.password@.len() > 0 ==> (r matches Some(p) && p@ == form.password@),
{
    if form.password.as_str().is_empty() {
        None
    } else {
        Some(form.password.as_str())
    }
}

/// The message for a zone the database does not know.
pub open spec fn unknown_timezone() -> Seq<char> {
    "Unknown timezone — use an IANA name like Australia/Sydney."@
}

pub fn timezone_check(tz: &str) -> (r: Option<String>)
    ensures
        is_zone_name(tz@) ==> r is None,
        !is_zone_name(tz@) ==> (r matches Some(m) && m@ == unknown_timezone()),
{
    if valid_timezone(tz) {
        None
    } else {
        Some("Unknown timezone — use an IANA name like Australia/Sydney.".to_owned())
    }
}

/// A club as listed — credentials deliberately excluded.
pub struct ClubRow {
    pub id: i64,
    pub name: String,
    pub base_url: String,
    pub timezone: String,
}

pub fn club_row(c: &Club) -> (r: ClubRow)
    ensures
        r.id == c.id,
        r.name@ == c.name@,
        r.base_url@ == c.base_url@,
        r.timezone@ == c.timezone@,
{
    ClubRow { id: c.id, name: c.name.clone(), base_url: c.base_url.clone(), timezone: c.timezone.clone() }
}

} // verus!
