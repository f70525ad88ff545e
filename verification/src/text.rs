//! Character-level text operations used for device names, labels and file
//! names, each stated over the string's sequence of characters.
use vstd::prelude::*;

verus! {

/// `pattern` occurs in `text` starting at character position `start`.
pub open spec fn occurs_at(text: Seq<char>, pattern: Seq<char>, start: int) -> bool {
    &&& 0 <= start
    &&& start + pattern.len() <= text.len()
    &&& text.subrange(start, start + pattern.len()) == pattern
}

/// `pattern` occurs somewhere in `text` (the empty pattern occurs in every text).
pub open spec fn contains_chars(text: Seq<char>, pattern: Seq<char>) -> bool {
    exists|start: int| occurs_at(text, pattern, start)
}

fn occurs_at_position(
    text: &str,
    pattern: &str,
    start: usize,
    text_len: usize,
    pattern_len: usize,
) -> (found: bool)
    requires
        text_len == text@.len(),
        pattern_len == pattern@.len(),
        start + pattern_len <= text_len,
    ensures
        found == occurs_at(text@, pattern@, start as int),
{
    let mut k: usize = 0;
    while k < pattern_len
        invariant
            k <= pattern_len,
            text_len == text@.len(),
            pattern_len == pattern@.len(),
            start + pattern_len <= text_len,
            forall|j: int| 0 <= j < k ==> text@[start + j] == pattern@[j],
        decreases pattern_len - k,
    {
        if text.get_char(start + k) != pattern.get_char(k) {
            assert(text@.subrange(start as int, start + pattern_len)[k as int] != pattern@[k as int]);
            return false;
        }
        k = k + 1;
    }
    assert(text@.subrange(start as int, start + pattern_len) =~= pattern@);
    true
}

/// Whether `pattern` occurs in `text`, as `str::contains` answers for a
/// string pattern.
pub fn contains_text(text: &str, pattern: &str) -> (found: bool)
    ensures
        found == contains_chars(text@, pattern@),
{
    let text_len = text.unicode_len();
    let pattern_len = pattern.unicode_len();
    if pattern_len > text_len {
        return false;
    }
    let last_start = text_len - pattern_len;
    let mut start: usize = 0;
    loop
        invariant
            text_len == text@.len(),
            pattern_len == pattern@.len(),
            last_start + pattern_len == text_len,
            start <= last_start,
            forall|s: int| 0 <= s < start ==> !occurs_at(text@, pattern@, s),
        decreases last_start - start,
    {
        if occurs_at_position(text, pattern, start, text_len, pattern_len) {
            return true;
        }
        if start == last_start {
            return false;
        }
        start = start + 1;
    }
}

/// The text with every space replaced by an underscore.
pub open spec fn underscore_spaces(text: Seq<char>) -> Seq<char> {
    text.map_values(|c: char| if c == ' ' { '_' } else { c })
}

/// Replaces each space by an underscore, as `str::replace(' ', "_")` does.
pub fn replace_spaces(text: &str) -> (replaced: String)
    ensures
        replaced@ == underscore_spaces(text@),
{
    let underscore = "_";
    proof {
        reveal_strlit("_");
    }
    let text_len = text.unicode_len();
    let mut out = String::new();
    let mut i: usize = 0;
    while i < text_len
        invariant
            i <= text_len,
            text_len == text@.len(),
            underscore@ == seq!['_'],
            out@ == underscore_spaces(text@.subrange(0, i as int)),
        decreases text_len - i,
    {
        let c = text.get_char(i);
        if c == ' ' {
            out.append(underscore);
        } else {
            out.append(text.substring_char(i, i + 1));
        }
        assert(underscore_spaces(text@.subrange(0, i + 1)) =~= underscore_spaces(
            text@.subrange(0, i as int),
        ).push(if c == ' ' { '_' } else { c }));
        i = i + 1;
    }
    assert(text@.subrange(0, text_len as int) =~= text@);
    out
}

/// The decimal digit character for `d` (meaningful for `d < 10`).
pub open spec fn digit_char(d: nat) -> char {
    seq!['0', '1', '2', '3', '4', '5', '6', '7', '8', '9'][d as int]
}

/// The decimal representation of `n`, without sign or leading zeros.
pub open spec fn decimal_digits(n: nat) -> Seq<char>
    decreases n,
{
    if n < 10 {
        seq![digit_char(n)]
    } else {
        decimal_digits(n / 10).push(digit_char(n % 10))
    }
}

/// Formats `n` in decimal, as `{}` formatting of an unsigned integer does.
pub fn decimal_text(n: u64) -> (text: String)
    ensures
        text@ == decimal_digits(n as nat),
    decreases n,
{
    let digits = "0123456789";
    proof {
        reveal_strlit("0123456789");
        assert(digits@ =~= seq!['0', '1', '2', '3', '4', '5', '6', '7', '8', '9']);
    }
    let d = (n % 10) as usize;
    let last = digits.substring_char(d, d + 1);
    assert(last@ =~= seq![digit_char(d as nat)]);
    if n < 10 {
        String::from_str(last)
    } else {
        let mut text = decimal_text(n / 10);
        text.append(last);
        text
    }
}

/// The result of lower-casing the text `text` by the Unicode
/// `Lowercase` mapping, as `str::to_lowercase` computes it.
pub uninterp spec fn lowercase_chars(text: Seq<char>) -> Seq<char>;

/// Calls `str::to_lowercase`. Its result depends on the characters of the
/// argument alone (no locale is consulted), so the contract names it
/// `lowercase_chars` of the argument and claims nothing else about it.
#[verifier::external_body]
pub(crate) fn to_lowercase(text: &str) -> (lower: String)
    ensures
        lower@ == lowercase_chars(text@),
{
    text.to_lowercase()
}

} // verus!
