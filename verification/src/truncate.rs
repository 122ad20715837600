//! Shortening a text to a character budget by eliding its middle.

use vstd::prelude::*;
use vstd::string::*;

verus! {

/// The marker that stands for the elided middle.
pub const ELLIPSIS: &'static str = "...";

/// The marker as a sequence of characters.
pub open spec fn marker() -> Seq<char> {
    seq!['.', '.', '.']
}

/// How many characters are dropped on each side of the middle when a text of
/// `len` characters is cut to the budget `max`.
pub open spec fn half_cut(len: nat, max: nat) -> int
    recommends
        3 <= max < len,
{
    (len - max + 3) / 2
}

/// The text `s` cut to the budget `max`.
///
/// A text within the budget is kept as it is. A longer one keeps both of its
/// ends: the characters before `len / 2 - half_cut` and those from
/// `len / 2 + half_cut` on, with the marker between them. Under a budget of
/// less than three characters the marker alone is left.
pub open spec fn elided(s: Seq<char>, max: nat) -> Seq<char> {
    if s.len() <= max {
        s
    } else if max < 3 {
        marker()
    } else {
        let cut = half_cut(s.len(), max);
        let mid = (s.len() / 2) as int;
        s.subrange(0, mid - cut) + marker() + s.subrange(mid + cut, s.len() as int)
    }
}

/// Cuts `input` to `max_length` characters by eliding its middle. Lengths and
/// positions count characters, so no character is ever split. A text that
/// exceeds the budget by an even number of characters comes out one character
/// over it, since the same number of characters goes on each side of the
/// middle.
pub fn trim_to_length(input: &str, max_length: usize) -> (out: String)
    ensures
        out@ == elided(input@, max_length as nat),
        input@.len() <= max_length ==> out@ == input@,
        3 <= max_length < input@.len() && (input@.len() - max_length) % 2 == 1 ==> out@.len()
            == max_length,
        3 <= max_length < input@.len() && (input@.len() - max_length) % 2 == 0 ==> out@.len()
            == max_length + 1,
        max_length < 3 && max_length < input@.len() ==> out@ == marker(),
{
    let len: usize = input.unicode_len();
    if len <= max_length {
        return String::from_str(input);
    }
    proof {
        reveal_strlit("...");
        assert(ELLIPSIS@ =~= marker());
    }
    if max_length < 3 {
        return String::from_str(ELLIPSIS);
    }
    let cut: usize = (len - max_length + 3) / 2;
    let mid: usize = len / 2;
    let mut out = String::from_str(input.substring_char(0, mid - cut));
    out.append(ELLIPSIS);
    out.append(input.substring_char(mid + cut, len));
    out
}

/// How many characters of a text of `len` characters stay in front of the
/// marker under the budget `max`.
pub open spec fn kept_front(len: nat, max: nat) -> int
    recommends
        3 <= max < len,
{
    len / 2 - half_cut(len, max)
}

/// How many characters of a text of `len` characters stay behind the marker
/// under the budget `max`.
pub open spec fn kept_back(len: nat, max: nat) -> int
    recommends
        3 <= max < len,
{
    len - len / 2 - half_cut(len, max)
}

/// Whether the marker stands in `s` at position `i`.
pub open spec fn marker_at(s: Seq<char>, i: int) -> bool {
    0 <= i && i + 3 <= s.len() && s[i] == '.' && s[i + 1] == '.' && s[i + 2] == '.'
}

/// Whether the marker stands nowhere in `s`.
pub open spec fn marker_free(s: Seq<char>) -> bool {
    forall|i: int| !marker_at(s, i)
}

/// Whether the two kept ends of `s` under the budget `max` can form no
/// second marker: neither holds one, the front does not end in a dot and the
/// back does not begin with one.
pub open spec fn ends_clear(s: Seq<char>, max: nat) -> bool
    recommends
        3 <= max < s.len(),
{
    let front = s.subrange(0, kept_front(s.len(), max));
    let back = s.subrange(s.len() - kept_back(s.len(), max), s.len() as int);
    &&& marker_free(front)
    &&& marker_free(back)
    &&& (front.len() > 0 ==> front.last() != '.')
    &&& (back.len() > 0 ==> back[0] != '.')
}

/// A text within the budget is left as it is.
pub proof fn elided_identity(s: Seq<char>, max: nat)
    requires
        s.len() <= max,
    ensures
        elided(s, max) == s,
{
}

/// The length of a cut text: the budget where the text exceeds it by an odd
/// number of characters, one more where it exceeds it by an even number. Both
/// kept ends are then as long as `kept_front` and `kept_back` say.
pub proof fn elided_length(s: Seq<char>, max: nat)
    requires
        3 <= max < s.len(),
    ensures
        0 <= kept_front(s.len(), max) <= kept_back(s.len(), max),
        kept_back(s.len(), max) <= kept_front(s.len(), max) + 1,
        elided(s, max).len() == kept_front(s.len(), max) + 3 + kept_back(s.len(), max),
        (s.len() - max) % 2 == 1 ==> elided(s, max).len() == max,
        (s.len() - max) % 2 == 0 ==> elided(s, max).len() == max + 1,
{
}

/// A cut text is made of characters of the uncut one: its front, three dots,
/// and its back, each character whole and in its place.
pub proof fn elided_keeps_characters(s: Seq<char>, max: nat)
    requires
        3 <= max < s.len(),
    ensures
        forall|i: int|
            0 <= i < kept_front(s.len(), max) ==> (#[trigger] elided(s, max)[i]) == s[i],
        marker_at(elided(s, max), kept_front(s.len(), max)),
        forall|i: int|
            kept_front(s.len(), max) + 3 <= i < elided(s, max).len() ==> (#[trigger] elided(
                s,
                max,
            )[i]) == s[i + s.len() - elided(s, max).len()],
{
    elided_length(s, max);
}

/// Where the kept ends are clear of dots that could form a second marker, the
/// marker stands in the cut text exactly once, between the two ends.
pub proof fn elided_marker_once(s: Seq<char>, max: nat)
    requires
        3 <= max < s.len(),
        ends_clear(s, max),
    ensures
        forall|i: int| marker_at(elided(s, max), i) <==> i == kept_front(s.len(), max),
{
    elided_length(s, max);
    elided_keeps_characters(s, max);
    let out = elided(s, max);
    let p = kept_front(s.len(), max);
    let front = s.subrange(0, p);
    let back = s.subrange(s.len() - kept_back(s.len(), max), s.len() as int);
    assert forall|i: int| marker_at(out, i) implies i == p by {
        if i + 3 <= p {
            assert(marker_at(front, i));
        } else if i < p {
            assert(front.last() == out[p - 1]);
        } else if i >= p + 3 {
            assert(marker_at(back, i - p - 3));
        } else if i > p {
            assert(back[0] == out[p + 3]);
        }
    }
}

/// Where the kept ends are not clear, the marker stands in the cut text a
/// second time.
pub proof fn elided_marker_again(s: Seq<char>, max: nat)
    requires
        3 <= max < s.len(),
        !ends_clear(s, max),
    ensures
        exists|i: int| i != kept_front(s.len(), max) && marker_at(elided(s, max), i),
{
    elided_length(s, max);
    elided_keeps_characters(s, max);
    let out = elided(s, max);
    let p = kept_front(s.len(), max);
    let front = s.subrange(0, p);
    let back = s.subrange(s.len() - kept_back(s.len(), max), s.len() as int);
    if !marker_free(front) {
        let i = choose|i: int| marker_at(front, i);
        assert(out[i] == front[i] && out[i + 1] == front[i + 1] && out[i + 2] == front[i + 2]);
        assert(i != p && marker_at(out, i));
    } else if !marker_free(back) {
        let j = choose|j: int| marker_at(back, j);
        let i = p + 3 + j;
        assert(out[i] == back[j] && out[i + 1] == back[j + 1] && out[i + 2] == back[j + 2]);
        assert(i != p && marker_at(out, i));
    } else if front.len() > 0 && front.last() == '.' {
        assert(out[p - 1] == front.last());
        assert(marker_at(out, p - 1));
    } else {
        assert(out[p + 3] == back[0]);
        assert(marker_at(out, p + 1));
    }
}

/// A text that exceeds a budget of at least three characters by an odd
/// number, under a budget that leaves room on both sides of the marker, and
/// whose kept ends are clear of dots that could form a second marker, is cut
/// to exactly the budget: the marker stands in it once, with characters of the
/// uncut text before and behind it.
pub proof fn elided_fills_budget(s: Seq<char>, max: nat)
    requires
        3 <= max < s.len(),
        (s.len() - max) % 2 == 1,
        max >= 5 + s.len() % 2,
        ends_clear(s, max),
    ensures
        elided(s, max).len() == max,
        kept_front(s.len(), max) > 0,
        kept_back(s.len(), max) > 0,
        forall|i: int| marker_at(elided(s, max), i) <==> i == kept_front(s.len(), max),
{
    elided_length(s, max);
    elided_marker_once(s, max);
}

/// Which budgets leave room on both sides of the marker. The front is not
/// empty from a budget of four on, five where either the length or the excess
/// is odd, six where both are. The back is not empty from a budget of four on,
/// one less where the length is odd, one more where the excess is. A budget of
/// six or more always leaves both.
pub proof fn elided_sides(len: nat, max: nat)
    requires
        3 <= max < len,
    ensures
        kept_front(len, max) > 0 <==> max >= 4 + len % 2 + (len - max) % 2,
        kept_back(len, max) > 0 <==> max >= 4 - len % 2 + (len - max) % 2,
        max >= 6 ==> kept_front(len, max) > 0 && kept_back(len, max) > 0,
{
}

} // verus!
