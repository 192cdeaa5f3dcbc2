//! HTML escaping, done by the `html_escape` crate.

use vstd::prelude::*;

verus! {

/// What `html_escape` writes for one character of text: `&`, `<` and `>`
/// become entities, every other character stays.
pub open spec fn text_entity(c: char) -> Seq<char> {
    if c == '&' {
        seq!['&', 'a', 'm', 'p', ';']
    } else if c == '<' {
        seq!['&', 'l', 't', ';']
    } else if c == '>' {
        seq!['&', 'g', 't', ';']
    } else {
        seq![c]
    }
}

/// What `html_escape` writes for one character of a quoted attribute
/// value: as for text, and the two quote characters as well.
pub open spec fn attribute_entity(c: char) -> Seq<char> {
    if c == '"' {
        seq!['&', 'q', 'u', 'o', 't', ';']
    } else if c == '\'' {
        seq!['&', '#', 'x', '2', '7', ';']
    } else {
        text_entity(c)
    }
}

/// Text escaped for use as HTML text.
pub open spec fn escaped_text(s: Seq<char>) -> Seq<char>
    decreases s.len(),
{
    if s.len() == 0 {
        seq![]
    } else {
        escaped_text(s.drop_last()) + text_entity(s.last())
    }
}

/// Text escaped for use inside a quoted HTML attribute.
pub open spec fn escaped_attribute(s: Seq<char>) -> Seq<char>
    decreases s.len(),
{
    if s.len() == 0 {
        seq![]
    } else {
        escaped_attribute(s.drop_last()) + attribute_entity(s.last())
    }
}

/// Calls `html_escape::encode_text`, which replaces `&`, `<` and `>` by
/// `&amp;`, `&lt;` and `&gt;` and leaves every other character as it is.
#[verifier::external_body]
pub(crate) fn escape_text(s: &str) -> (r: String)
    ensures
        r@ == escaped_text(s@),
{
    html_escape::encode_text(s).into_owned()
}

/// Calls `html_escape::encode_quoted_attribute`, which replaces `&`, `<`,
/// `>`, `"` and `'` by `&amp;`, `&lt;`, `&gt;`, `&quot;` and `&#x27;` and
/// leaves every other character as it is.
#[verifier::external_body]
pub(crate) fn escape_attribute(s: &str) -> (r: String)
    ensures
        r@ == escaped_attribute(s@),
{
    html_escape::encode_quoted_attribute(s).into_owned()
}

/// Escaped text holds no `<` and no `>`: it cannot open or close a tag.
pub proof fn lemma_escaped_text_has_no_tags(s: Seq<char>)
    ensures
        !escaped_text(s).contains('<'),
        !escaped_text(s).contains('>'),
    decreases s.len(),
{
    if s.len() > 0 {
        lemma_escaped_text_has_no_tags(s.drop_last());
        let a = escaped_text(s.drop_last());
        let b = text_entity(s.last());
        assert(escaped_text(s) == a + b);
        assert(!b.contains('<') && !b.contains('>'));
        assert forall|c: char| (a + b).contains(c) implies a.contains(c) || b.contains(c) by {
            let i = choose|i: int| 0 <= i < (a + b).len() && (a + b)[i] == c;
            if i < a.len() {
                assert(a[i] == c);
            } else {
                assert(b[i - a.len()] == c);
            }
        }
    }
}

/// An escaped attribute value holds no quote character: it cannot end the
/// attribute it stands in, whichever quote encloses it.
pub proof fn lemma_escaped_attribute_stays_quoted(s: Seq<char>)
    ensures
        !escaped_attribute(s).contains('"'),
        !escaped_attribute(s).contains('\''),
        !escaped_attribute(s).contains('<'),
        !escaped_attribute(s).contains('>'),
    decreases s.len(),
{
    if s.len() > 0 {
        lemma_escaped_attribute_stays_quoted(s.drop_last());
        let a = escaped_attribute(s.drop_last());
        let b = attribute_entity(s.last());
        assert(escaped_attribute(s) == a + b);
        assert(!b.contains('"') && !b.contains('\'') && !b.contains('<') && !b.contains('>'));
        assert forall|c: char| (a + b).contains(c) implies a.contains(c) || b.contains(c) by {
            let i = choose|i: int| 0 <= i < (a + b).len() && (a + b)[i] == c;
            if i < a.len() {
                assert(a[i] == c);
            } else {
                assert(b[i - a.len()] == c);
            }
        }
    }
}

/// Text without `&`, `<` and `>` is left as it is.
pub proof fn lemma_plain_text_unchanged(s: Seq<char>)
    requires
        !s.contains('&') && !s.contains('<') && !s.contains('>'),
    ensures
        escaped_text(s) == s,
    decreases s.len(),
{
    if s.len() > 0 {
        let t = s.drop_last();
        assert(!t.contains('&') && !t.contains('<') && !t.contains('>')) by {
            assert forall|c: char| t.contains(c) implies s.contains(c) by {
                let i = choose|i: int| 0 <= i < t.len() && t[i] == c;
                assert(s[i] == c);
            }
        }
        lemma_plain_text_unchanged(t);
        assert(s[s.len() - 1] == s.last());
        assert(escaped_text(s) =~= s);
    }
}

/// An attribute value without `&`, `<`, `>`, `"` and `'` is left as it is.
pub proof fn lemma_plain_attribute_unchanged(s: Seq<char>)
    requires
        !s.contains('&') && !s.contains('<') && !s.contains('>') && !s.contains('"')
            && !s.contains('\''),
    ensures
        escaped_attribute(s) == s,
    decreases s.len(),
{
    if s.len() > 0 {
        let t = s.drop_last();
        assert(!t.contains('&') && !t.contains('<') && !t.contains('>') && !t.contains('"')
            && !t.contains('\'')) by {
            assert forall|c: char| t.contains(c) implies s.contains(c) by {
                let i = choose|i: int| 0 <= i < t.len() && t[i] == c;
                assert(s[i] == c);
            }
        }
        lemma_plain_attribute_unchanged(t);
        assert(s[s.len() - 1] == s.last());
        assert(escaped_attribute(s) =~= s);
    }
}

} // verus!
