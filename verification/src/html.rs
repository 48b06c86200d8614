//! Escaping text for HTML, through the `html_escape` crate.

use vstd::prelude::*;

verus! {

/// The escape of one character in HTML text.
pub open spec fn escape_char(c: char) -> Seq<char> {
    if c == '&' {
        "&amp;"@
    } else if c == '<' {
        "&lt;"@
    } else if c == '>' {
        "&gt;"@
    } else {
        seq![c]
    }
}

/// `s` with every `&`, `<` and `>` escaped.
pub open spec fn html_escaped(s: Seq<char>) -> Seq<char>
    decreases s.len(),
{
    if s.len() == 0 {
        Seq::empty()
    } else {
        html_escaped(s.drop_last()) + escape_char(s.last())
    }
}

/// Escaped text holds no `<` and no `>`: text put into a page this way cannot open or
/// close a tag.
pub proof fn lemma_escaped_has_no_angle_brackets(s: Seq<char>)
    ensures
        forall|i: int| 0 <= i < html_escaped(s).len() ==> #[trigger] html_escaped(s)[i] != '<' && html_escaped(s)[i] != '>',
    decreases s.len(),
{
    reveal_strlit("&amp;");
    reveal_strlit("&lt;");
    reveal_strlit("&gt;");
    if s.len() > 0 {
        lemma_escaped_has_no_angle_brackets(s.drop_last());
        let head = html_escaped(s.drop_last());
        let tail = escape_char(s.last());
        assert forall|i: int| 0 <= i < html_escaped(s).len() implies #[trigger] html_escaped(s)[i] != '<'
            && html_escaped(s)[i] != '>' by {
            if i >= head.len() {
                assert(html_escaped(s)[i] == tail[i - head.len()]);
            } else {
                assert(html_escaped(s)[i] == head[i]);
            }
        }
    }
}

/// Calls `html_escape::encode_text`. Claims what its source does: every `&`, `<` and `>`
/// becomes `&amp;`, `&lt;` and `&gt;`, and every other character stays.
#[verifier::external_body]
pub(crate) fn encode_text(s: &str) -> (r: String)
    ensures
        r@ == html_escaped(s@),
{
    html_escape::encode_text(s).into_owned()
}

} // verus!
