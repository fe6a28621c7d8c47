//! Runtime configuration, resolved from the raw values of environment
//! variables (`None` for a variable that is unset or not valid Unicode).
use crate::text::{chars_of, concat, decimal, strip_trailing, trim_end_char, u64_to_decimal};
use crate::users::{debug_quoted, debug_str};
use vstd::prelude::*;
use vstd::string::*;

verus! {

/// Application configuration resolved once at startup.
#[derive(Clone)]
pub struct Config {
    /// SQLite connection string, e.g. `sqlite:golf.db`.
    pub database_url: String,
    /// TCP port to listen on.
    pub port: u16,
    /// When true (the default), the scheduler simulates bookings instead of
    /// hitting the club.
    pub dry_run: bool,
    /// Whether the session cookie carries the `Secure` attribute.
    pub cookie_secure: bool,
    /// Public base URL used to build links in emails (no trailing `/`).
    pub base_url: String,
    /// SMTP settings for outbound email; `None` disables email features.
    pub smtp: Option<SmtpConfig>,
}

/// Outbound SMTP configuration (Fastmail by default).
#[derive(Clone)]
pub struct SmtpConfig {
    pub host: String,
    pub port: u16,
    pub username: String,
    pub password: String,
    /// `From:` address.
    pub from: String,
}

pub open spec fn is_ascii_digit(c: char) -> bool {
    '0' <= c && c <= '9'
}

/// The value of a run of decimal digits.
pub open spec fn digits_value(s: Seq<char>) -> nat
    decreases s.len(),
{
    if s.len() == 0 {
        0
    } else {
        digits_value(s.drop_last()) * 10 + ((s.last() as u32) - ('0' as u32)) as nat
    }
}

/// Every character is an ASCII digit.
pub open spec fn all_digits(d: Seq<char>) -> bool {
    forall|i: int| 0 <= i < d.len() ==> is_ascii_digit(#[trigger] d[i])
}

/// The text after an optional leading `+`.
pub open spec fn without_plus(s: Seq<char>) -> Seq<char> {
    if s.len() > 0 && s[0] == '+' {
        s.drop_first()
    } else {
        s
    }
}

/// The digits of an unsigned number as Rust's `str::parse` reads them: an
/// optional leading `+`, then at least one ASCII digit and nothing else.
pub open spec fn unsigned_digits(s: Seq<char>) -> Option<Seq<char>> {
    if without_plus(s).len() > 0 && all_digits(without_plus(s)) {
        Some(without_plus(s))
    } else {
        None
    }
}

/// `str::parse::<u16>`: `None` for malformed text or a value above 65535.
pub open spec fn parse_u16_spec(s: Seq<char>) -> Option<u16> {
    match unsigned_digits(s) {
        Some(d) => if digits_value(d) <= 65535 {
            Some(digits_value(d) as u16)
        } else {
            None
        },
        None => None,
    }
}

proof fn lemma_digits_value_prefix(d: Seq<char>, i: int)
    requires
        0 <= i < d.len(),
    ensures
        digits_value(d.take(i + 1)) == digits_value(d.take(i)) * 10 + ((d[i] as u32) - ('0' as u32)) as nat,
{
    assert(d.take(i + 1).drop_last() =~= d.take(i));
}

proof fn lemma_digits_value_monotone(d: Seq<char>, i: int, j: int)
    requires
        0 <= i <= j <= d.len(),
        forall|k: int| 0 <= k < d.len() ==> is_ascii_digit(#[trigger] d[k]),
    ensures
        digits_value(d.take(i)) <= digits_value(d.take(j)),
    decreases j - i,
{
    if i < j {
        lemma_digits_value_monotone(d, i, j - 1);
        lemma_digits_value_prefix(d, j - 1);
    }
}

/// `str::parse::<u16>`.
pub fn parse_u16(s: &str) -> (r: Option<u16>)
    ensures
        r == parse_u16_spec(s@),
{
    let v = chars_of(s);
    let start: usize = if v.len() > 0 && v[0] == '+' {
        1
    } else {
        0
    };
    let ghost d = without_plus(v@);
    assert(d =~= v@.skip(start as int));
    if start >= v.len() {
        return None;
    }
    let mut acc: u32 = 0;
    let mut i: usize = start;
    while i < v.len()
        invariant
            v@ == s@,
            d == v@.skip(start as int),
            d == without_plus(s@),
            start <= i <= v@.len(),
            start < v@.len(),
            forall|k: int| 0 <= k < i - start ==> is_ascii_digit(#[trigger] d[k]),
            acc == digits_value(d.take(i - start)),
            acc <= 65535,
        decreases v@.len() - i,
    {
        let c = v[i];
        if !('0' <= c && c <= '9') {
            assert(!is_ascii_digit(d[i - start]));
            assert(!all_digits(d));
            assert(unsigned_digits(s@) is None);
            return None;
        }
        proof {
            lemma_digits_value_prefix(d, i - start);
        }
        acc = acc * 10 + ((c as u32) - ('0' as u32));
        if acc > 65535 {
            let r = overflow_or_malformed(&v, i + 1, start, Ghost(d));
            proof {
                if unsigned_digits(s@) is Some {
                    assert(unsigned_digits(s@) == Some(d));
                }
            }
            return r;
        }
        i = i + 1;
    }
    assert(d.take(d.len() as int) =~= d);
    Some(acc as u16)
}

/// Past a prefix whose value already exceeds 65535, the text is either
/// malformed or too large: either way `None`.
fn overflow_or_malformed(v: &Vec<char>, from: usize, start: usize, Ghost(d): Ghost<Seq<char>>) -> (r: Option<u16>)
    requires
        d == v@.skip(start as int),
        start < from <= v@.len(),
        forall|k: int| 0 <= k < from - start ==> is_ascii_digit(#[trigger] d[k]),
        digits_value(d.take(from - start)) > 65535,
    ensures
        r is None,
        all_digits(d) ==> digits_value(d) > 65535,
{
    proof {
        if all_digits(d) {
            lemma_digits_value_monotone(d, from - start, d.len() as int);
            assert(d.take(d.len() as int) =~= d);
        }
    }
    None
}

/// A boolean switch that is on unless set to exactly `false` or `0` (unset
/// means on).
pub open spec fn switch_on(v: Option<Seq<char>>) -> bool {
    match v {
        None => true,
        Some(s) => s != "false"@ && s != "0"@,
    }
}

pub open spec fn opt_view(o: Option<String>) -> Option<Seq<char>> {
    match o {
        Some(s) => Some(s@),
        None => None,
    }
}

pub fn switch_enabled(v: &Option<String>) -> (r: bool)
    ensures
        r == switch_on(opt_view(*v)),
{
    match v {
        None => true,
        Some(s) => !(*s == "false".to_owned()) && !(*s == "0".to_owned()),
    }
}

/// A port setting: the parsed value, else `default`.
pub open spec fn port_or(v: Option<Seq<char>>, default: u16) -> u16 {
    match v {
        Some(s) => match parse_u16_spec(s) {
            Some(p) => p,
            None => default,
        },
        None => default,
    }
}

pub fn port_setting(v: &Option<String>, default: u16) -> (r: u16)
    ensures
        r == port_or(opt_view(*v), default),
{
    match v {
        Some(s) => match parse_u16(s.as_str()) {
            Some(p) => p,
            None => default,
        },
        None => default,
    }
}

/// The public base URL: as configured, else `http://localhost:<port>`, with
/// trailing slashes removed.
pub open spec fn base_url_spec(v: Option<Seq<char>>, port: u16) -> Seq<char> {
    strip_trailing(
        match v {
            Some(s) => s,
            None => "http://localhost:"@ + decimal(port as nat),
        },
        '/',
    )
}

impl SmtpConfig {
    /// SMTP settings when username, password and sender are all configured;
    /// host and port default to Fastmail's submission endpoint (port 465).
    pub fn from_values(
        username: Option<String>,
        password: Option<String>,
        from: Option<String>,
        host: Option<String>,
        port: Option<String>,
    ) -> (r: Option<SmtpConfig>)
        ensures
            r is Some <==> (username is Some && password is Some && from is Some),
            r matches Some(c) ==> {
                &&& Some(c.username) == username
                &&& Some(c.password) == password
                &&& Some(c.from) == from
                &&& c.host@ == (match host {
                    Some(h) => h@,
                    None => "smtp.fastmail.com"@,
                })
                &&& c.port == port_or(opt_view(port), 465)
            },
    {
        let username = match username {
            Some(u) => u,
            None => return None,
        };
        let password = match password {
            Some(p) => p,
            None => return None,
        };
        let from = match from {
            Some(f) => f,
            None => return None,
        };
        let host = match host {
            Some(h) => h,
            None => "smtp.fastmail.com".to_owned(),
        };
        let port = port_setting(&port, 465);
        Some(SmtpConfig { host, port, username, password, from })
    }

    /// A log-safe description: the credentials show as `[redacted]`.
    pub open spec fn debug_spec(&self) -> Seq<char> {
        "SmtpConfig { host: "@ + debug_str(self.host@) + ", port: "@ + decimal(self.port as nat)
            + ", username: \"[redacted]\", password: \"[redacted]\", from: "@ + debug_str(
            self.from@,
        ) + " }"@
    }

    pub fn debug_string(&self) -> (r: String)
        ensures
            r@ == self.debug_spec(),
    {
        let h = debug_quoted(self.host.as_str());
        let mut r = concat("SmtpConfig { host: ", h.as_str());
        r.append(", port: ");
        let p = u64_to_decimal(self.port as u64);
        r.append(p.as_str());
        r.append(", username: \"[redacted]\", password: \"[redacted]\", from: ");
        let f = debug_quoted(self.from.as_str());
        r.append(f.as_str());
        r.append(" }");
        r
    }
}

impl Config {
    /// Resolve the configuration from the raw variables `DATABASE_URL`,
    /// `PORT`, `DRY_RUN`, `COOKIE_SECURE` and `APP_BASE_URL`, and the SMTP
    /// settings. Real bookings and insecure cookies are opt-in.
    pub fn from_values(
        database_url: Option<String>,
        port: Option<String>,
        dry_run: Option<String>,
        cookie_secure: Option<String>,
        app_base_url: Option<String>,
        smtp: Option<SmtpConfig>,
    ) -> (r: Config)
        ensures
            r.database_url@ == (match database_url {
                Some(d) => d@,
                None => "sqlite:golf.db"@,
            }),
            r.port == port_or(opt_view(port), 3000),
            r.dry_run == switch_on(opt_view(dry_run)),
            r.cookie_secure == switch_on(opt_view(cookie_secure)),
            r.base_url@ == base_url_spec(opt_view(app_base_url), r.port),
            r.smtp == smtp,
    {
        let database_url = match database_url {
            Some(d) => d,
            None => "sqlite:golf.db".to_owned(),
        };
        let port = port_setting(&port, 3000);
        let dry = switch_enabled(&dry_run);
        let secure = switch_enabled(&cookie_secure);
        let raw_base = match app_base_url {
            Some(b) => b,
            None => {
                let p = u64_to_decimal(port as u64);
                concat("http://localhost:", p.as_str())
            },
        };
        let base_url = trim_end_char(raw_base.as_str(), '/');
        Config { database_url, port, dry_run: dry, cookie_secure: secure, base_url, smtp }
    }
}

} // verus!
