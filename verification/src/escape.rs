//! HTML-escaping of decoded payload text, so that whatever a decoder hands
//! back can be placed verbatim inside page markup.

use vstd::prelude::*;

verus! {

/// What escaping does to one character: the three characters with a meaning
/// in markup become their entities, every other character stays itself.
pub open spec fn escaped_char(c: char) -> Seq<char> {
    if c == '&' {
        "&amp;"@
    } else if c == '<' {
        "&lt;"@
    } else if c == '>' {
        "&gt;"@
    } else {
        seq![c]
    }
}

/// Text with every `&`, `<` and `>` replaced by its HTML entity.
pub open spec fn html_escaped(text: Seq<char>) -> Seq<char>
    decreases text.len(),
{
    if text.len() == 0 {
        Seq::empty()
    } else {
        html_escaped(text.drop_last()) + escaped_char(text.last())
    }
}

/// Relies on `html_escape::encode_text`: it replaces every `&` with `&amp;`,
/// every `<` with `&lt;` and every `>` with `&gt;`, and leaves every other
/// character as it is.
#[verifier::external_body]
fn encode_text(text: &str) -> (r: String)
    ensures
        r@ == html_escaped(text@),
{
    html_escape::encode_text(text).to_string()
}

/// Converts a string to HTML-compliant format by escaping special characters.
pub fn html_escape_string(input: &str) -> (r: String)
    ensures
        r@ == html_escaped(input@),
{
    encode_text(input)
}

} // verus!
