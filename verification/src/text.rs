//! Small helpers on strings, stated over their character sequences.

use vstd::prelude::*;

verus! {

/// `needle` stands in `hay` from position `at` on.
pub open spec fn occurs_at(hay: Seq<char>, needle: Seq<char>, at: int) -> bool {
    0 <= at && at + needle.len() <= hay.len() && hay.subrange(at, at + needle.len()) =~= needle
}

/// `needle` stands somewhere in `hay`. The empty sequence stands in every one.
pub open spec fn occurs_in(hay: Seq<char>, needle: Seq<char>) -> bool {
    exists|at: int| occurs_at(hay, needle, at)
}

/// Whether `needle` is a substring of `hay`.
///
/// Trusted: calls `str::contains` with a string pattern, which std documents
/// to return true exactly when the pattern matches a sub-slice of the string.
#[verifier::external_body]
pub(crate) fn contains_text(hay: &str, needle: &str) -> (found: bool)
    ensures
        found == occurs_in(hay@, needle@),
{
    hay.contains(needle)
}

/// Whether `text` begins with `prefix`.
///
/// Trusted: calls `str::starts_with` with a string pattern, which std
/// documents to return true exactly when the pattern matches a prefix of the
/// string.
#[verifier::external_body]
pub(crate) fn starts_with_text(text: &str, prefix: &str) -> (starts: bool)
    ensures
        starts == prefix@.is_prefix_of(text@),
{
    text.starts_with(prefix)
}

/// Whether two strings hold the same characters.
pub fn same_text(a: &str, b: &str) -> (same: bool)
    ensures
        same == (a@ == b@),
{
    let left = a.to_owned();
    let right = b.to_owned();
    left == right
}

/// The characters of an optional string.
pub open spec fn opt_view(value: Option<String>) -> Option<Seq<char>> {
    match value {
        Some(s) => Some(s@),
        None => None,
    }
}

/// The characters of an optional string slice.
pub open spec fn opt_str_view(value: Option<&str>) -> Option<Seq<char>> {
    match value {
        Some(s) => Some(s@),
        None => None,
    }
}

/// A borrowed view of an optional string.
pub fn as_opt_str(value: &Option<String>) -> (text: Option<&str>)
    ensures
        opt_str_view(text) == opt_view(*value),
{
    match value {
        Some(s) => Some(s.as_str()),
        None => None,
    }
}

/// A copy of an optional string.
pub fn clone_opt_string(value: &Option<String>) -> (copy: Option<String>)
    ensures
        copy == *value,
{
    match value {
        Some(s) => Some(s.clone()),
        None => None,
    }
}

/// The lower-case form of a string, as `str::to_lowercase` gives it.
pub uninterp spec fn lowercased(text: Seq<char>) -> Seq<char>;

/// The lower-case form of `text`.
///
/// Trusted: calls `str::to_lowercase`, whose result depends on the characters
/// of the string alone; the Unicode rules that it follows are not restated.
#[verifier::external_body]
pub(crate) fn lowercase(text: &str) -> (lower: String)
    ensures
        lower@ == lowercased(text@),
{
    text.to_lowercase()
}

/// The characters that count as white space: those with the Unicode
/// property `White_Space`.
pub open spec fn is_space(c: char) -> bool {
    let code = c as u32;
    (0x09 <= code <= 0x0D) || code == 0x20 || code == 0x85 || code == 0xA0 || code == 0x1680 || (0x2000
        <= code <= 0x200A) || code == 0x2028 || code == 0x2029 || code == 0x202F || code == 0x205F || code
        == 0x3000
}

/// Whether `c` counts as white space.
pub fn is_whitespace(c: char) -> (space: bool)
    ensures
        space == is_space(c),
{
    let code = c as u32;
    (0x09 <= code && code <= 0x0D) || code == 0x20 || code == 0x85 || code == 0xA0 || code == 0x1680 || (
    0x2000 <= code && code <= 0x200A) || code == 0x2028 || code == 0x2029 || code == 0x202F || code
        == 0x205F || code == 0x3000
}

/// The number of white-space characters that `s` begins with.
pub open spec fn lead(s: Seq<char>) -> int
    decreases s.len(),
{
    if s.len() == 0 {
        0
    } else if !is_space(s[0]) {
        0
    } else {
        1 + lead(s.drop_first())
    }
}

/// The length of `s` without the white-space characters that it ends with.
pub open spec fn tail(s: Seq<char>) -> int
    decreases s.len(),
{
    if s.len() == 0 {
        0
    } else if !is_space(s.last()) {
        s.len() as int
    } else {
        tail(s.drop_last())
    }
}

/// `s` without the white space at its two ends.
pub open spec fn trimmed(s: Seq<char>) -> Seq<char> {
    if lead(s) >= tail(s) {
        Seq::empty()
    } else {
        s.subrange(lead(s), tail(s))
    }
}

/// `p` is the first index of `s` that holds no white space, or the length
/// of `s` where all of it is white space.
pub proof fn lemma_lead(s: Seq<char>, p: int)
    requires
        0 <= p <= s.len(),
        forall|j: int| 0 <= j < p ==> is_space(#[trigger] s[j]),
        p < s.len() ==> !is_space(s[p]),
    ensures
        lead(s) == p,
    decreases s.len(),
{
    if s.len() > 0 && p > 0 {
        let rest = s.drop_first();
        assert(is_space(s[0]));
        assert forall|j: int| 0 <= j < p - 1 implies is_space(#[trigger] rest[j]) by {
            assert(rest[j] == s[j + 1]);
        }
        lemma_lead(rest, p - 1);
    }
}

/// `q` is the index behind the last character of `s` that is no white
/// space, or 0 where all of it is white space.
pub proof fn lemma_tail(s: Seq<char>, q: int)
    requires
        0 <= q <= s.len(),
        forall|j: int| q <= j < s.len() ==> is_space(#[trigger] s[j]),
        q > 0 ==> !is_space(s[q - 1]),
    ensures
        tail(s) == q,
    decreases s.len(),
{
    if s.len() > 0 && q < s.len() {
        let rest = s.drop_last();
        assert(is_space(s[s.len() - 1]));
        assert forall|j: int| q <= j < rest.len() implies is_space(#[trigger] rest[j]) by {
            assert(rest[j] == s[j]);
        }
        lemma_tail(rest, q);
    }
}

/// The characters of `text`, one by one.
pub fn chars_of(text: &str) -> (chars: Vec<char>)
    ensures
        chars@ == text@,
{
    let n = text.unicode_len();
    let mut chars: Vec<char> = Vec::new();
    let mut i: usize = 0;
    while i < n
        invariant
            n == text@.len(),
            i <= n,
            chars@ == text@.take(i as int),
        decreases n - i,
    {
        chars.push(text.get_char(i));
        proof {
            assert(chars@ =~= text@.take(i + 1));
        }
        i += 1;
    }
    proof {
        assert(text@.take(n as int) =~= text@);
    }
    chars
}

/// The bounds of the part `from..to` of `chars` without the white space at
/// its two ends.
pub fn trim_range(chars: &Vec<char>, from: usize, to: usize) -> (bounds: (usize, usize))
    requires
        from <= to <= chars@.len(),
    ensures
        from <= bounds.0 <= bounds.1 <= to,
        chars@.subrange(bounds.0 as int, bounds.1 as int) == trimmed(chars@.subrange(from as int, to as int)),
{
    let ghost part = chars@.subrange(from as int, to as int);
    let mut start: usize = from;
    while start < to && is_whitespace(chars[start])
        invariant
            from <= start <= to <= chars@.len(),
            forall|j: int| from <= j < start ==> is_space(#[trigger] chars@[j]),
        decreases to - start,
    {
        start += 1;
    }
    let mut end: usize = to;
    while end > start && is_whitespace(chars[end - 1])
        invariant
            start <= end <= to <= chars@.len(),
            forall|j: int| end <= j < to ==> is_space(#[trigger] chars@[j]),
        decreases end - start,
    {
        end -= 1;
    }
    proof {
        assert forall|j: int| 0 <= j < start - from implies is_space(#[trigger] part[j]) by {
            assert(part[j] == chars@[from + j]);
        }
        lemma_lead(part, start - from);
        if start == to {
            // all of it is white space
            assert forall|j: int| 0 <= j < part.len() implies is_space(#[trigger] part[j]) by {
                assert(part[j] == chars@[from + j]);
            }
            lemma_tail(part, 0);
            assert(chars@.subrange(start as int, end as int) =~= Seq::<char>::empty());
        } else {
            assert forall|j: int| end - from <= j < part.len() implies is_space(#[trigger] part[j]) by {
                assert(part[j] == chars@[from + j]);
            }
            assert(part[end - from - 1] == chars@[end - 1]);
            lemma_tail(part, end - from);
            assert(chars@.subrange(start as int, end as int) =~= part.subrange(start - from, end - from));
        }
    }
    (start, end)
}

} // verus!
