//! HTML escaping of text that is spliced into markup.

use vstd::prelude::*;

verus! {

/// What one character becomes when it is escaped: the four characters that HTML
/// gives a meaning in text and in quoted attribute values become entities, every
/// other character stays as it is.
pub open spec fn escaped_char(c: char) -> Seq<char> {
    if c == '&' {
        "&amp;"@
    } else if c == '<' {
        "&lt;"@
    } else if c == '>' {
        "&gt;"@
    } else if c == '"' {
        "&quot;"@
    } else {
        seq![c]
    }
}

/// Whether `c` is one of the characters that escaping replaces.
pub open spec fn needs_escape(c: char) -> bool {
    c == '&' || c == '<' || c == '>' || c == '"'
}

/// Whether escaping leaves `text` as it is: none of its characters is replaced.
pub open spec fn is_plain(text: Seq<char>) -> bool {
    forall|i: int| 0 <= i < text.len() ==> !needs_escape(#[trigger] text[i])
}

/// The escaped form of a text: the escaped forms of its characters, in order.
pub open spec fn escaped(text: Seq<char>) -> Seq<char>
    decreases text.len(),
{
    if text.len() == 0 {
        Seq::empty()
    } else {
        escaped(text.drop_last()) + escaped_char(text.last())
    }
}

/// Appends the escaped form of `text` to `out`.
///
/// Calls maud's `Render::render_to` for `str`, which walks the bytes of `text` and
/// writes `&amp;`, `&lt;`, `&gt;` and `&quot;` for `&`, `<`, `>` and `"`, and every
/// other byte unchanged. None of the four is part of a longer UTF-8 sequence, so
/// the same holds character by character, which is what the contract states.
#[verifier::external_body]
pub(crate) fn push_escaped(out: &mut String, text: &str)
    ensures
        final(out)@ == old(out)@ + escaped(text@),
{
    maud::Render::render_to(text, out);
}

/// Escaping changes nothing in a text that holds none of the four characters.
pub proof fn lemma_escaped_plain(text: Seq<char>)
    requires
        is_plain(text),
    ensures
        escaped(text) == text,
    decreases text.len(),
{
    if text.len() > 0 {
        lemma_escaped_plain(text.drop_last());
    }
}

/// An escaped text opens no tag, closes none and ends no quoted attribute value:
/// it holds none of `<`, `>` and `"`.
pub proof fn lemma_escaped_holds_no_markup(text: Seq<char>)
    ensures
        forall|i: int|
            0 <= i < escaped(text).len() ==> {
                let c = #[trigger] escaped(text)[i];
                c != '<' && c != '>' && c != '"'
            },
    decreases text.len(),
{
    if text.len() > 0 {
        lemma_escaped_holds_no_markup(text.drop_last());
        reveal_strlit("&amp;");
        reveal_strlit("&lt;");
        reveal_strlit("&gt;");
        reveal_strlit("&quot;");
        let before = escaped(text.drop_last());
        let tail = escaped_char(text.last());
        assert forall|i: int| 0 <= i < escaped(text).len() implies {
            let c = #[trigger] escaped(text)[i];
            c != '<' && c != '>' && c != '"'
        } by {
            if i < before.len() {
                assert(escaped(text)[i] == before[i]);
            } else {
                assert(escaped(text)[i] == tail[i - before.len()]);
            }
        }
    }
}

/// Whether `markup` opens no tag whose name begins with `initial`: wherever a `<`
/// stands in it, a character other than `initial` follows.
pub open spec fn opens_no_tag(markup: Seq<char>, initial: char) -> bool {
    forall|i: int|
        0 <= i < markup.len() && #[trigger] markup[i] == '<' ==> i + 1 < markup.len() && markup[i
            + 1] != initial
}

/// An escaped text opens no tag at all.
pub proof fn lemma_escaped_opens_no_tag(text: Seq<char>, initial: char)
    ensures
        opens_no_tag(escaped(text), initial),
{
    lemma_escaped_holds_no_markup(text);
}

} // verus!
