//! Removing a "featuring" annotation from a track title.

use crate::config::Config;
use crate::error::{text_of, StatusError};
use vstd::prelude::*;
use vstd::string::*;

verus! {

/// The error with which the regex engine refuses a pattern. Nothing is read
/// from it: a refusal is a refusal.
#[verifier::external_type_specification]
#[verifier::external_body]
pub struct ExPatternError(regex::Error);

/// Whether the regex engine accepts `pattern`: whether `regex::Regex::new`
/// returns a regex for it.
pub uninterp spec fn pattern_compiles(pattern: Seq<char>) -> bool;

/// What is left of `text` when every non-overlapping match of `pattern` is
/// replaced by the empty string: what `regex::Regex::replace_all` returns for
/// the regex compiled from `pattern`, the haystack `text` and the replacement
/// `""`.
pub uninterp spec fn without_matches(pattern: Seq<char>, text: Seq<char>) -> Seq<char>;

/// Compiles `pattern` with `regex::Regex::new` and, where that succeeds,
/// removes its matches from `text` with `regex::Regex::replace_all`.
///
/// Nothing is proved of either call. The contract claims that the pattern
/// alone decides between success and failure, and it gives the text that is
/// left a name.
#[verifier::external_body]
fn delete_matches(pattern: &str, text: &str) -> (r: Result<String, regex::Error>)
    ensures
        r is Ok <==> pattern_compiles(pattern@),
        r matches Ok(s) ==> s@ == without_matches(pattern@, text@),
{
    match regex::Regex::new(pattern) {
        Ok(re) => Ok(re.replace_all(text, "").into_owned()),
        Err(e) => Err(e),
    }
}

/// Whether `c` is white space: a character with the Unicode property
/// White_Space.
pub open spec fn is_white_space(c: char) -> bool {
    let n = c as u32;
    ||| 0x09 <= n <= 0x0D
    ||| n == 0x20
    ||| n == 0x85
    ||| n == 0xA0
    ||| n == 0x1680
    ||| 0x2000 <= n <= 0x200A
    ||| n == 0x2028
    ||| n == 0x2029
    ||| n == 0x202F
    ||| n == 0x205F
    ||| n == 0x3000
}

/// The first position from `from` on at which `s` holds a character that is
/// not white space, or the length of `s` where there is none.
pub open spec fn first_kept(s: Seq<char>, from: int) -> int
    decreases s.len() - from,
{
    if 0 <= from < s.len() && is_white_space(s[from]) {
        first_kept(s, from + 1)
    } else {
        from
    }
}

/// The end of the last run, before `to` and not before `lo`, of characters of
/// `s` that are not white space.
pub open spec fn end_kept(s: Seq<char>, lo: int, to: int) -> int
    decreases to,
{
    if 0 <= lo < to <= s.len() && is_white_space(s[to - 1]) {
        end_kept(s, lo, to - 1)
    } else {
        to
    }
}

/// `s` without the white space at its two ends.
pub open spec fn trimmed(s: Seq<char>) -> Seq<char> {
    let a = first_kept(s, 0);
    s.subrange(a, end_kept(s, a, s.len() as int))
}

/// Tells whether `c` is white space.
pub fn is_whitespace(c: char) -> (b: bool)
    ensures
        b == is_white_space(c),
{
    let n: u32 = c as u32;
    (0x09 <= n && n <= 0x0D) || n == 0x20 || n == 0x85 || n == 0xA0 || n == 0x1680 || (0x2000 <= n
        && n <= 0x200A) || n == 0x2028 || n == 0x2029 || n == 0x202F || n == 0x205F || n == 0x3000
}

/// Removes the white space at the two ends of `text`.
pub fn trim_whitespace(text: &str) -> (out: String)
    ensures
        out@ == trimmed(text@),
{
    let len: usize = text.unicode_len();
    let mut start: usize = 0;
    while start < len && is_whitespace(text.get_char(start))
        invariant
            start <= len,
            len == text@.len(),
            first_kept(text@, 0) == first_kept(text@, start as int),
        decreases len - start,
    {
        start += 1;
    }
    let mut end: usize = len;
    while end > start && is_whitespace(text.get_char(end - 1))
        invariant
            start <= end <= len,
            len == text@.len(),
            end_kept(text@, start as int, len as int) == end_kept(text@, start as int, end as int),
        decreases end,
    {
        end -= 1;
    }
    String::from_str(text.substring_char(start, end))
}

/// The title that is left of `title` under `config`. Where the configuration
/// does not ask for the removal, that is the title itself, whatever the
/// pattern. Where it does, every match of the pattern in effect goes, and then
/// the white space at the two ends; a pattern that does not compile is an
/// error.
pub open spec fn feat_removed(title: Seq<char>, config: &Config) -> Result<Seq<char>, StatusError> {
    if !config.strips_feat() {
        Ok(title)
    } else if pattern_compiles(config.pattern_text()) {
        Ok(trimmed(without_matches(config.pattern_text(), title)))
    } else {
        Err(StatusError::InvalidPattern)
    }
}

/// What becomes of the outcome of the removal: the text that is left loses
/// the white space at its two ends, and a refusal of the pattern becomes the
/// pipeline's own error.
pub fn finish_removal(replaced: Result<String, regex::Error>) -> (r: Result<String, StatusError>)
    ensures
        replaced matches Ok(s) ==> text_of(r) == Ok::<Seq<char>, StatusError>(trimmed(s@)),
        replaced is Err ==> r == Err::<String, StatusError>(StatusError::InvalidPattern),
{
    match replaced {
        Ok(cleaned) => Ok(trim_whitespace(cleaned.as_str())),
        Err(_) => Err(StatusError::InvalidPattern),
    }
}

/// Removes the "featuring" annotation from `title`, where the configuration
/// asks for it: every match of the pattern in effect goes, and then the white
/// space at the two ends. A pattern that does not compile is an error, never
/// a reason to leave the title as it is.
pub fn remove_feat(title: &str, config: &Config) -> (r: Result<String, StatusError>)
    ensures
        text_of(r) == feat_removed(title@, config),
        !config.strips_feat() ==> text_of(r) == Ok::<Seq<char>, StatusError>(title@),
{
    if !config.remove_feat_or_default() {
        return Ok(String::from_str(title));
    }
    finish_removal(delete_matches(config.feat_regex_or_default(), title))
}

proof fn first_kept_bounds(s: Seq<char>, from: int)
    requires
        0 <= from <= s.len(),
    ensures
        from <= first_kept(s, from) <= s.len(),
        forall|i: int| from <= i < first_kept(s, from) ==> is_white_space(#[trigger] s[i]),
        first_kept(s, from) < s.len() ==> !is_white_space(s[first_kept(s, from)]),
    decreases s.len() - from,
{
    if from < s.len() && is_white_space(s[from]) {
        first_kept_bounds(s, from + 1);
    }
}

proof fn end_kept_bounds(s: Seq<char>, lo: int, to: int)
    requires
        0 <= lo <= to <= s.len(),
    ensures
        lo <= end_kept(s, lo, to) <= to,
        forall|i: int| end_kept(s, lo, to) <= i < to ==> is_white_space(#[trigger] s[i]),
        lo < end_kept(s, lo, to) ==> !is_white_space(s[end_kept(s, lo, to) - 1]),
    decreases to,
{
    if lo < to && is_white_space(s[to - 1]) {
        end_kept_bounds(s, lo, to - 1);
    }
}

/// What trimming removes and what it leaves: the result is one stretch of
/// `s`, everything before and behind it is white space, and where it is not
/// empty it neither begins nor ends with white space.
pub proof fn trimmed_is_tight(s: Seq<char>)
    ensures
        0 <= first_kept(s, 0) <= end_kept(s, first_kept(s, 0), s.len() as int) <= s.len(),
        forall|i: int| 0 <= i < first_kept(s, 0) ==> is_white_space(#[trigger] s[i]),
        forall|i: int|
            end_kept(s, first_kept(s, 0), s.len() as int) <= i < s.len() ==> is_white_space(
                #[trigger] s[i],
            ),
        trimmed(s).len() > 0 ==> !is_white_space(trimmed(s)[0]) && !is_white_space(
            trimmed(s).last(),
        ),
{
    first_kept_bounds(s, 0);
    end_kept_bounds(s, first_kept(s, 0), s.len() as int);
}

/// A text that neither begins nor ends with white space is left as it is.
pub proof fn trimmed_keeps_tight(s: Seq<char>)
    requires
        s.len() > 0 ==> !is_white_space(s[0]) && !is_white_space(s.last()),
    ensures
        trimmed(s) == s,
{
    assert(trimmed(s) =~= s);
}

/// Where the configuration does not ask for the removal, the title is left
/// as it is, whatever the pattern is and whether or not it compiles.
pub proof fn feat_kept_when_off(title: Seq<char>, config: &Config)
    requires
        !config.strips_feat(),
    ensures
        feat_removed(title, config) == Ok::<Seq<char>, StatusError>(title),
{
}

} // verus!
