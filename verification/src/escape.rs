//! Text made safe for markup.

use vstd::prelude::*;

verus! {

/// What stands for one character in markup: an entity for each of `< > " & ' ` =`, the
/// character itself for every other.
pub open spec fn escaped_char(c: char) -> Seq<char> {
    if c == '<' {
        seq!['&', 'l', 't', ';']
    } else if c == '>' {
        seq!['&', 'g', 't', ';']
    } else if c == '"' {
        seq!['&', 'q', 'u', 'o', 't', ';']
    } else if c == '&' {
        seq!['&', 'a', 'm', 'p', ';']
    } else if c == '\'' {
        seq!['&', '#', 'x', '2', '7', ';']
    } else if c == '`' {
        seq!['&', '#', 'x', '6', '0', ';']
    } else if c == '=' {
        seq!['&', '#', 'x', '3', 'D', ';']
    } else {
        seq![c]
    }
}

/// `s` with every character replaced by what stands for it in markup.
pub open spec fn escaped(s: Seq<char>) -> Seq<char>
    decreases s.len(),
{
    if s.len() == 0 {
        Seq::empty()
    } else {
        escaped(s.drop_last()) + escaped_char(s.last())
    }
}

/// A character that could open or close a tag, an attribute's value or an entity's name.
pub open spec fn is_markup(c: char) -> bool {
    c == '<' || c == '>' || c == '"' || c == '\'' || c == '`' || c == '='
}

/// Escaped text holds none of the characters that markup is made of, but for the `&` that
/// opens an entity.
pub proof fn lemma_escaped_is_plain(s: Seq<char>, i: int)
    requires
        0 <= i < escaped(s).len(),
    ensures
        !is_markup(escaped(s)[i]),
    decreases s.len(),
{
    if s.len() > 0 {
        let head = escaped(s.drop_last());
        if i < head.len() {
            lemma_escaped_is_plain(s.drop_last(), i);
        }
    }
}

/// Calls `handlebars::html_escape`, the function by which the template engine escapes what it
/// interpolates. Not proved: that it walks the characters of `text` in order and writes, for
/// each, the entity or the character that `escaped_char` gives.
#[verifier::external_body]
pub(crate) fn html_escape(text: &str) -> (r: String)
    ensures
        r@ == escaped(text@),
{
    handlebars::html_escape(text)
}

} // verus!
