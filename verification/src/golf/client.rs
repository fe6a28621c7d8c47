//! The decision logic of the club booking client: where requests go, what they
//! carry, and what a booking response means.
//!
//! The network itself lives outside the library; this module decides the URLs
//! and forms sent to a MiClub-style club and interprets the replies.
use crate::text::{all_white_space, chars_of, concat, contains_chars, decimal, has_substring, is_blank, str_contains, string_from_chars, strip_trailing, to_lowercase, trim_end_char, u64_to_decimal, unicode_lowercase};
use crate::time::{date_dmy, CivilDate};
use vstd::prelude::*;
use vstd::string::*;

verus! {

/// How many days ahead the events list reaches by default.
pub const DEFAULT_WINDOW_DAYS: i64 = 60;

/// A booking failure, tagged with whether retrying could plausibly succeed.
pub enum BookingError {
    /// Worth retrying within the race window (sheet not open yet, transient).
    Retryable(String),
    /// Permanent: retrying won't help (already booked, ineligible).
    Terminal(String),
}

/// The mathematical content of a [`BookingError`].
pub enum BookingErrorView {
    Retryable(Seq<char>),
    Terminal(Seq<char>),
}

impl View for BookingError {
    type V = BookingErrorView;

    open spec fn view(&self) -> BookingErrorView {
        match self {
            BookingError::Retryable(m) => BookingErrorView::Retryable(m@),
            BookingError::Terminal(m) => BookingErrorView::Terminal(m@),
        }
    }
}

impl BookingErrorView {
    pub open spec fn message(self) -> Seq<char> {
        match self {
            BookingErrorView::Retryable(m) => m,
            BookingErrorView::Terminal(m) => m,
        }
    }
}

impl BookingError {
    pub fn is_retryable(&self) -> (r: bool)
        ensures
            r == (self@ is Retryable),
    {
        match self {
            BookingError::Retryable(_) => true,
            BookingError::Terminal(_) => false,
        }
    }

    /// The human-readable message (what `Display` shows).
    pub fn message(&self) -> (m: &String)
        ensures
            m@ == self@.message(),
    {
        match self {
            BookingError::Retryable(m) => m,
            BookingError::Terminal(m) => m,
        }
    }
}

/// Booking-specific phrases that mark a club error as permanent. They are
/// matched against the lowercased message.
pub open spec fn terminal_markers() -> Seq<Seq<char>> {
    seq![
        "already booked"@,
        "already have"@,
        "not eligible"@,
        "ineligible"@,
        "not allowed"@,
        "not permitted"@,
        "duplicate"@,
        "booking limit"@,
        "exceeded the maximum"@,
        "maximum number"@,
        "no longer available"@,
        "permission"@,
    ]
}

fn terminal_marker(i: usize) -> (m: &'static str)
    requires
        i < 12,
    ensures
        m@ == terminal_markers()[i as int],
{
    if i == 0 {
        "already booked"
    } else if i == 1 {
        "already have"
    } else if i == 2 {
        "not eligible"
    } else if i == 3 {
        "ineligible"
    } else if i == 4 {
        "not allowed"
    } else if i == 5 {
        "not permitted"
    } else if i == 6 {
        "duplicate"
    } else if i == 7 {
        "booking limit"
    } else if i == 8 {
        "exceeded the maximum"
    } else if i == 9 {
        "maximum number"
    } else if i == 10 {
        "no longer available"
    } else {
        "permission"
    }
}

/// A club message is terminal when its lowercase form contains one of the
/// terminal markers.
pub open spec fn is_terminal_message(message: Seq<char>) -> bool {
    exists|i: int|
        0 <= i < terminal_markers().len() && has_substring(
            unicode_lowercase(message),
            #[trigger] terminal_markers()[i],
        )
}

/// Classify a club booking-error message as retryable or terminal. Unknown
/// messages default to retryable.
pub fn classify_booking_error(message: &str) -> (r: BookingError)
    ensures
        r@ == (if is_terminal_message(message@) {
            BookingErrorView::Terminal(message@)
        } else {
            BookingErrorView::Retryable(message@)
        }),
{
    let lower = to_lowercase(message);
    let lower_chars = chars_of(lower.as_str());
    let mut i: usize = 0;
    while i < 12
        invariant
            lower_chars@ == unicode_lowercase(message@),
            i <= 12,
            forall|k: int|
                0 <= k < i ==> !has_substring(lower_chars@, #[trigger] terminal_markers()[k]),
        decreases 12 - i,
    {
        let marker = chars_of(terminal_marker(i));
        if contains_chars(&lower_chars, &marker) {
            assert(has_substring(unicode_lowercase(message@), terminal_markers()[i as int]));
            return BookingError::Terminal(message.to_owned());
        }
        i = i + 1;
    }
    assert(!is_terminal_message(message@));
    BookingError::Retryable(message.to_owned())
}

/// The response looks like a login redirect or an HTML page rather than an
/// API reply.
pub open spec fn is_login_page(body: Seq<char>) -> bool {
    let lower = unicode_lowercase(body);
    ||| has_substring(lower, "<html"@)
    ||| has_substring(lower, "<!doctype"@)
    ||| has_substring(lower, "login.msp"@)
    ||| has_substring(lower, "j_security_check"@)
}

/// Heuristic guard against recording a false booking when the club bounces
/// the request to its login page.
pub fn looks_like_login_page(body: &str) -> (r: bool)
    ensures
        r == is_login_page(body@),
{
    let lower = to_lowercase(body);
    let l = lower.as_str();
    str_contains(l, "<html") || str_contains(l, "<!doctype") || str_contains(l, "login.msp")
        || str_contains(l, "j_security_check")
}

/// The texts joined with `sep` between consecutive items.
pub open spec fn joined(items: Seq<Seq<char>>, sep: Seq<char>) -> Seq<char>
    decreases items.len(),
{
    if items.len() == 0 {
        Seq::empty()
    } else if items.len() == 1 {
        items[0]
    } else {
        joined(items.drop_last(), sep) + sep + items.last()
    }
}

/// The error message carried by an error document: `None` when the body did
/// not parse as one (`parsed` is `None`) or carried no `ErrorText`, else the
/// texts joined by `", "`.
pub open spec fn error_document_message(parsed: Option<Seq<Seq<char>>>) -> Option<Seq<char>> {
    match parsed {
        None => None,
        Some(texts) => if texts.len() == 0 {
            None
        } else {
            Some(joined(texts, ", "@))
        },
    }
}

/// Join the `ErrorText`s of a parsed booking error document. `parsed` is the
/// list of texts of the document's `Error` elements, or `None` when the body
/// is not such a document.
pub fn booking_error_message(parsed: &Option<Vec<String>>) -> (r: Option<String>)
    ensures
        r.deep_view() == error_document_message(parsed.deep_view()),
{
    match parsed {
        None => None,
        Some(texts) => {
            if texts.len() == 0 {
                return None;
            }
            let ghost items = texts.deep_view();
            let mut out = texts[0].clone();
            let mut i: usize = 1;
            while i < texts.len()
                invariant
                    items == texts.deep_view(),
                    1 <= i <= texts@.len(),
                    out@ == joined(items.take(i as int), ", "@),
                decreases texts@.len() - i,
            {
                proof {
                    assert(items.take(i + 1).drop_last() =~= items.take(i as int));
                    assert(items.take(i + 1).last() == texts@[i as int]@);
                }
                out.append(", ");
                out.append(texts[i].as_str());
                i = i + 1;
            }
            proof {
                assert(items.take(1) =~= seq![texts@[0]@]);
                assert(items.take(texts@.len() as int) =~= items);
            }
            Some(out)
        },
    }
}

/// What a booking response body means: `Ok` for a booking, otherwise the
/// error the retry loop should act on.
pub open spec fn booking_outcome(body: Seq<char>, parsed: Option<Seq<Seq<char>>>) -> Result<
    (),
    BookingErrorView,
> {
    match error_document_message(parsed) {
        Some(message) => Err(
            if is_terminal_message(message) {
                BookingErrorView::Terminal(message)
            } else {
                BookingErrorView::Retryable(message)
            },
        ),
        None => if is_login_page(body) {
            Err(
                BookingErrorView::Retryable(
                    "booking returned a login/HTML page — session likely expired"@,
                ),
            )
        } else if all_white_space(body) {
            Err(BookingErrorView::Retryable("booking returned an empty response"@))
        } else {
            Ok(())
        },
    }
}

/// The view of a booking result.
pub open spec fn booking_result_view(r: Result<(), BookingError>) -> Result<(), BookingErrorView> {
    match r {
        Ok(()) => Ok(()),
        Err(e) => Err(e@),
    }
}

/// Decide what a booking response body means. `parsed` is the body read as a
/// MiClub error document (the texts of its `Error/ErrorText` elements), or
/// `None` when the body is not such a document.
///
/// Absence of an error document counts as booked, except when the body is a
/// login/HTML page or blank: those are retried, never recorded as bookings.
pub fn interpret_booking_response(body: &str, parsed: &Option<Vec<String>>) -> (r: Result<
    (),
    BookingError,
>)
    ensures
        booking_result_view(r) == booking_outcome(body@, parsed.deep_view()),
{
    if let Some(message) = booking_error_message(parsed) {
        return Err(classify_booking_error(message.as_str()));
    }
    if looks_like_login_page(body) {
        return Err(
            BookingError::Retryable(
                "booking returned a login/HTML page — session likely expired".to_owned(),
            ),
        );
    }
    if is_blank(body) {
        return Err(BookingError::Retryable("booking returned an empty response".to_owned()));
    }
    Ok(())
}

/// A response is only ever counted as a booking when it carries no error
/// document and is neither a login page nor blank: nothing that signals a
/// failed or expired session is recorded as booked.
pub proof fn law_booking_never_assumed(body: Seq<char>, parsed: Option<Seq<Seq<char>>>)
    ensures
        booking_outcome(body, parsed) is Ok ==> {
            &&& error_document_message(parsed) is None
            &&& !is_login_page(body)
            &&& !all_white_space(body)
        },
        error_document_message(parsed) is Some ==> booking_outcome(body, parsed) is Err,
{
}

/// A response without an error document that carries a login or HTML page
/// marker (in any letter case) is retried as an expired session, never
/// counted as a booking: `<html`, `<!doctype`, MiClub's `login.msp` form or
/// Spring Security's `j_security_check`.
pub proof fn law_login_pages_retried(body: Seq<char>, parsed: Option<Seq<Seq<char>>>)
    requires
        error_document_message(parsed) is None,
        has_substring(unicode_lowercase(body), "<html"@) || has_substring(
            unicode_lowercase(body),
            "<!doctype"@,
        ) || has_substring(unicode_lowercase(body), "login.msp"@) || has_substring(
            unicode_lowercase(body),
            "j_security_check"@,
        ),
    ensures
        booking_outcome(body, parsed) == Err::<(), BookingErrorView>(
            BookingErrorView::Retryable(
                "booking returned a login/HTML page — session likely expired"@,
            ),
        ),
{
}

/// The log excerpt of a response body: unchanged when it has at most
/// `max_chars` characters, else its first `max_chars` characters followed by a
/// note of the body's full size in bytes.
pub open spec fn truncated(s: Seq<char>, byte_len: nat, max_chars: nat) -> Seq<char> {
    if s.len() <= max_chars {
        s
    } else {
        s.take(max_chars as int) + "… ("@ + decimal(byte_len) + " bytes total)"@
    }
}

/// Shorten a response body for logging; counts characters, never splitting
/// a UTF-8 sequence.
pub fn truncate(s: &str, max_chars: usize) -> (r: String)
    ensures
        r@ == truncated(s@, s.spec_bytes().len(), max_chars as nat),
{
    let v = chars_of(s);
    if v.len() <= max_chars {
        return s.to_owned();
    }
    let mut head: Vec<char> = Vec::new();
    let mut i: usize = 0;
    while i < max_chars
        invariant
            v@ == s@,
            max_chars < v@.len(),
            i <= max_chars,
            head@ == v@.take(i as int),
        decreases max_chars - i,
    {
        head.push(v[i]);
        assert(v@.take(i + 1) =~= v@.take(i as int).push(v@[i as int]));
        i = i + 1;
    }
    let mut r = string_from_chars(&head);
    r.append("… (");
    let bytes = s.as_bytes();
    let n = u64_to_decimal(bytes.len() as u64);
    r.append(n.as_str());
    r.append(" bytes total)");
    r
}

/// Where and as whom a club is reached: the stored connection details of one
/// club, with the base URL normalised (no trailing `/`).
#[derive(Clone)]
pub struct ClubEndpoint {
    pub base_url: String,
    pub username: String,
    pub password: String,
    pub member_id: String,
}

/// A form submission as name/value pairs.
pub open spec fn form_view(f: Seq<(String, String)>) -> Seq<(Seq<char>, Seq<char>)> {
    f.map_values(|p: (String, String)| (p.0@, p.1@))
}

fn pair(name: &str, value: &str) -> (p: (String, String))
    ensures
        p.0@ == name@,
        p.1@ == value@,
{
    (name.to_owned(), value.to_owned())
}

impl ClubEndpoint {
    /// A new endpoint; trailing slashes are stripped from the base URL.
    pub fn new(base_url: &str, username: &str, password: &str, member_id: &str) -> (r: Self)
        ensures
            r.base_url@ == strip_trailing(base_url@, '/'),
            r.username@ == username@,
            r.password@ == password@,
            r.member_id@ == member_id@,
    {
        ClubEndpoint {
            base_url: trim_end_char(base_url, '/'),
            username: username.to_owned(),
            password: password.to_owned(),
            member_id: member_id.to_owned(),
        }
    }

    /// The login form action.
    pub fn login_url(&self) -> (r: String)
        ensures
            r@ == self.base_url@ + "/security/login.msp"@,
    {
        concat(self.base_url.as_str(), "/security/login.msp")
    }

    /// The login form fields.
    pub fn login_form(&self) -> (r: Vec<(String, String)>)
        ensures
            form_view(r@) == seq![
                ("user"@, self.username@),
                ("password"@, self.password@),
                ("action"@, "login"@),
                ("Submit"@, "Login"@),
            ],
    {
        let mut f = Vec::new();
        f.push(pair("user", self.username.as_str()));
        f.push(pair("password", self.password.as_str()));
        f.push(pair("action", "login"));
        f.push(pair("Submit", "Login"));
        assert(form_view(f@) =~= seq![
            ("user"@, self.username@),
            ("password"@, self.password@),
            ("action"@, "login"@),
            ("Submit"@, "Login"@),
        ]);
        f
    }

    /// The events-list URL for an inclusive date range (dates as `dd-mm-YYYY`).
    pub fn events_between_url(&self, from: CivilDate, to: CivilDate) -> (r: String)
        requires
            from.wf(),
            to.wf(),
        ensures
            r@ == self.base_url@ + "/spring/bookings/events/between/"@ + from.dmy() + "/"@
                + to.dmy() + "/3000000"@,
    {
        let mut r = concat(self.base_url.as_str(), "/spring/bookings/events/between/");
        let f = date_dmy(from);
        r.append(f.as_str());
        r.append("/");
        let t = date_dmy(to);
        r.append(t.as_str());
        r.append("/3000000");
        r
    }

    /// The booking-sheet URL of one event.
    pub fn event_url(&self, event_id: u32) -> (r: String)
        ensures
            r@ == self.base_url@ + "/spring/bookings/events/"@ + decimal(event_id as nat),
    {
        let mut r = concat(self.base_url.as_str(), "/spring/bookings/events/");
        let id = u64_to_decimal(event_id as u64);
        r.append(id.as_str());
        r
    }

    /// Where booking requests are posted.
    pub fn booking_url(&self) -> (r: String)
        ensures
            r@ == self.base_url@ + "/members/Ajax"@,
    {
        concat(self.base_url.as_str(), "/members/Ajax")
    }

    /// The booking form for a booking group (its `rowId`), booked as this
    /// club's member.
    pub fn booking_form(&self, booking_group_id: u32) -> (r: Vec<(String, String)>)
        ensures
            form_view(r@) == seq![
                ("doAction"@, "makeBooking"@),
                ("rowId"@, decimal(booking_group_id as nat)),
                ("memberId"@, self.member_id@),
                ("myGroup"@, "true"@),
                ("findAlternative"@, "false"@),
            ],
    {
        let row_id = u64_to_decimal(booking_group_id as u64);
        let mut f = Vec::new();
        f.push(pair("doAction", "makeBooking"));
        f.push(pair("rowId", row_id.as_str()));
        f.push(pair("memberId", self.member_id.as_str()));
        f.push(pair("myGroup", "true"));
        f.push(pair("findAlternative", "false"));
        assert(form_view(f@) =~= seq![
            ("doAction"@, "makeBooking"@),
            ("rowId"@, decimal(booking_group_id as nat)),
            ("memberId"@, self.member_id@),
            ("myGroup"@, "true"@),
            ("findAlternative"@, "false"@),
        ]);
        f
    }
}

} // verus!
