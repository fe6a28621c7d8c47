//! The page shown for a failed request: the error's text, escaped.
use crate::text::concat;
use vstd::prelude::*;
use vstd::string::*;

verus! {

/// How one character of text is written in HTML text content: `&`, `<` and
/// `>` as entities, everything else as itself.
pub open spec fn escape_char(c: char) -> Seq<char> {
    if c == '&' {
        seq!['&', 'a', 'm', 'p', ';']
    } else if c == '<' {
        seq!['&', 'l', 't', ';']
    } else if c == '>' {
        seq!['&', 'g', 't', ';']
    } else {
        seq![c]
    }
}

/// Text escaped for HTML text content, character by character.
pub open spec fn text_escaped(s: Seq<char>) -> Seq<char>
    decreases s.len(),
{
    if s.len() == 0 {
        Seq::empty()
    } else {
        text_escaped(s.drop_last()) + escape_char(s.last())
    }
}

/// Trusted: `html_escape::encode_text`, which replaces every `&`, `<` and `>`
/// of its input with `&amp;`, `&lt;` and `&gt;` and keeps every other
/// character.
#[verifier::external_body]
fn encode_text(s: &str) -> (r: String)
    ensures
        r@ == text_escaped(s@),
{
    html_escape::encode_text(s).into_owned()
}

/// The body of an error response: the message as one escaped paragraph.
pub fn error_page(message: &str) -> (r: String)
    ensures
        r@ == "<p>"@ + text_escaped(message@) + "</p>"@,
{
    let escaped = encode_text(message);
    let mut r = concat("<p>", escaped.as_str());
    r.append("</p>");
    r
}

/// Escaped text holds no `<` or `>`: an error message cannot open or close a
/// tag on the page that shows it.
pub proof fn law_escaped_text_has_no_tags(s: Seq<char>)
    ensures
        forall|i: int|
            0 <= i < text_escaped(s).len() ==> text_escaped(s)[i] != '<' && text_escaped(s)[i]
                != '>',
    decreases s.len(),
{
    if s.len() > 0 {
        law_escaped_text_has_no_tags(s.drop_last());
        let prefix = text_escaped(s.drop_last());
        let tail = escape_char(s.last());
        assert(text_escaped(s) == prefix + tail);
        assert forall|i: int| 0 <= i < text_escaped(s).len() implies text_escaped(s)[i] != '<'
            && text_escaped(s)[i] != '>' by {
            if i < prefix.len() {
                assert(text_escaped(s)[i] == prefix[i]);
            } else {
                assert(text_escaped(s)[i] == tail[i - prefix.len()]);
            }
        }
    }
}

} // verus!
