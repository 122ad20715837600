//! The markup line: escaping the text and wrapping it, with the icon, in a
//! coloured span.

use crate::config::Config;
use crate::truncate::{elided, trim_to_length};
use vstd::prelude::*;
use vstd::string::*;

verus! {

/// What stands for the character `c` in markup: an entity for `&`, `<`, `>`
/// and the two quotes, the character itself otherwise.
pub open spec fn entity(c: char) -> Seq<char> {
    if c == '&' {
        seq!['&', 'a', 'm', 'p', ';']
    } else if c == '<' {
        seq!['&', 'l', 't', ';']
    } else if c == '>' {
        seq!['&', 'g', 't', ';']
    } else if c == '"' {
        seq!['&', 'q', 'u', 'o', 't', ';']
    } else if c == '\'' {
        seq!['&', '#', 'x', '2', '7', ';']
    } else {
        seq![c]
    }
}

/// The text `s` with each character replaced by what stands for it in markup.
pub open spec fn escaped(s: Seq<char>) -> Seq<char>
    decreases s.len(),
{
    if s.len() == 0 {
        Seq::empty()
    } else {
        escaped(s.drop_last()) + entity(s.last())
    }
}

/// The markup line for a colour, an icon and a text that is already escaped.
pub open spec fn markup_line(color: Seq<char>, icon: Seq<char>, text: Seq<char>) -> Seq<char> {
    "<span color=\""@ + color + "\">"@ + icon + " "@ + text + "</span>"@
}

/// Escapes `text` with `html_escape::encode_quoted_attribute`.
///
/// Nothing is proved of the call. The contract claims what the function's
/// documentation lists: `&`, `<`, `>`, `"` and `'` become `&amp;`, `&lt;`,
/// `&gt;`, `&quot;` and `&#x27;`, and every other character stays.
#[verifier::external_body]
fn escape_markup(text: &str) -> (out: String)
    ensures
        out@ == escaped(text@),
{
    html_escape::encode_quoted_attribute(text).into_owned()
}

/// The status line for `display_str`: the text is cut to the budget in
/// effect, then escaped, then wrapped with the icon in a span of the colour in
/// effect.
pub fn format_for_printing(config: &Config, display_str: &str) -> (out: String)
    ensures
        out@ == markup_line(
            config.color_text(),
            config.icon_text(),
            escaped(elided(display_str@, config.budget())),
        ),
{
    let sized = trim_to_length(display_str, config.max_length_or_default());
    let text = escape_markup(sized.as_str());
    let mut out = String::from_str("<span color=\"");
    out.append(config.color_or_default());
    out.append("\">");
    out.append(config.icon_or_default());
    out.append(" ");
    out.append(text.as_str());
    out.append("</span>");
    out
}

/// Whether the word `w` stands in `t` at position `i`.
pub open spec fn stands_at(t: Seq<char>, i: int, w: Seq<char>) -> bool {
    0 <= i && i + w.len() <= t.len() && t.subrange(i, i + w.len()) == w
}

/// Whether one of the five entities stands in `t` at position `i`.
pub open spec fn entity_at(t: Seq<char>, i: int) -> bool {
    ||| stands_at(t, i, entity('&'))
    ||| stands_at(t, i, entity('<'))
    ||| stands_at(t, i, entity('>'))
    ||| stands_at(t, i, entity('"'))
    ||| stands_at(t, i, entity('\''))
}

/// Whether the character of `t` at position `i` is harmless in markup: no
/// angle bracket and no quote, and an ampersand only where it begins an
/// entity.
pub open spec fn inert_at(t: Seq<char>, i: int) -> bool {
    &&& t[i] != '<'
    &&& t[i] != '>'
    &&& t[i] != '"'
    &&& t[i] != '\''
    &&& (t[i] == '&' ==> entity_at(t, i))
}

/// The line holds the colour, the icon and the text as they were given, each
/// at its place: the colour behind the opening of the span, the icon behind
/// the end of the opening tag, the text one blank further.
pub proof fn markup_holds_values(color: Seq<char>, icon: Seq<char>, text: Seq<char>)
    ensures
        markup_line(color, icon, text).len() == 23 + color.len() + icon.len() + text.len(),
        stands_at(markup_line(color, icon, text), 13, color),
        stands_at(markup_line(color, icon, text), (color.len() + 15) as int, icon),
        stands_at(markup_line(color, icon, text), (color.len() + icon.len() + 16) as int, text),
{
    reveal_strlit("<span color=\"");
    reveal_strlit("\">");
    reveal_strlit(" ");
    reveal_strlit("</span>");
    let line = markup_line(color, icon, text);
    let c: int = (color.len() + 13) as int;
    let i: int = (color.len() + icon.len() + 15) as int;
    assert(line.subrange(13, c) =~= color);
    assert(line.subrange(c + 2, i) =~= icon);
    assert(line.subrange(i + 1, i + 1 + text.len()) =~= text);
}

proof fn stands_at_in_front(front: Seq<char>, back: Seq<char>, i: int, w: Seq<char>)
    requires
        stands_at(front, i, w),
    ensures
        stands_at(front + back, i, w),
{
    assert((front + back).subrange(i, i + w.len()) =~= front.subrange(i, i + w.len()));
}

/// An escaped text is harmless in markup, whatever the text was: it holds no
/// angle bracket and no quote, and each of its ampersands begins an entity.
pub proof fn escaped_is_inert(s: Seq<char>)
    ensures
        forall|i: int| 0 <= i < escaped(s).len() ==> inert_at(escaped(s), i),
    decreases s.len(),
{
    if s.len() > 0 {
        let front = escaped(s.drop_last());
        let back = entity(s.last());
        let t = escaped(s);
        escaped_is_inert(s.drop_last());
        assert forall|i: int| 0 <= i < t.len() implies inert_at(t, i) by {
            if i < front.len() {
                assert(inert_at(front, i));
                assert(t[i] == front[i]);
                if front[i] == '&' {
                    if stands_at(front, i, entity('&')) {
                        stands_at_in_front(front, back, i, entity('&'));
                    } else if stands_at(front, i, entity('<')) {
                        stands_at_in_front(front, back, i, entity('<'));
                    } else if stands_at(front, i, entity('>')) {
                        stands_at_in_front(front, back, i, entity('>'));
                    } else if stands_at(front, i, entity('"')) {
                        stands_at_in_front(front, back, i, entity('"'));
                    } else {
                        stands_at_in_front(front, back, i, entity('\''));
                    }
                }
            } else {
                assert(t[i] == back[i - front.len()]);
                if t[i] == '&' {
                    assert(i == front.len());
                    assert(t.subrange(i, i + back.len()) =~= back);
                }
            }
        }
    }
}

/// A text without `&`, `<`, `>` and quotes is its own escaped form.
pub proof fn escaped_keeps_plain(s: Seq<char>)
    requires
        forall|i: int|
            0 <= i < s.len() ==> s[i] != '&' && s[i] != '<' && s[i] != '>' && s[i] != '"' && s[i]
                != '\'',
    ensures
        escaped(s) == s,
    decreases s.len(),
{
    if s.len() > 0 {
        escaped_keeps_plain(s.drop_last());
        assert(s.drop_last() + seq![s.last()] =~= s);
    }
}

} // verus!
