//! Scanning of text: white space, trimming, and repeated prefixes.
//!
//! Text is described by its sequence of characters. The executable
//! functions work on positions in a `&str`, counted in characters.

use vstd::prelude::*;
use vstd::string::StrSliceExecFns;

verus! {

/// Whether `c` is white space: one of the characters that Unicode gives the
/// property `White_Space`.
pub open spec fn is_whitespace(c: char) -> bool {
    let n = c as u32;
    ||| 0x09 <= n <= 0x0D
    ||| n == 0x20
    ||| n == 0x85
    ||| n == 0xA0
    ||| n == 0x1680
    ||| 0x2000 <= n <= 0x200A
    ||| n == 0x2028
    ||| n == 0x2029
    ||| n == 0x202F
    ||| n == 0x205F
    ||| n == 0x3000
}

/// `s` without the white space at its start.
pub open spec fn trim_start(s: Seq<char>) -> Seq<char>
    decreases s.len(),
{
    if s.len() > 0 && is_whitespace(s[0]) {
        trim_start(s.drop_first())
    } else {
        s
    }
}

/// `s` without the white space at its end.
pub open spec fn trim_end(s: Seq<char>) -> Seq<char>
    decreases s.len(),
{
    if s.len() > 0 && is_whitespace(s.last()) {
        trim_end(s.drop_last())
    } else {
        s
    }
}

/// `s` without the white space at its start and at its end.
pub open spec fn trim(s: Seq<char>) -> Seq<char> {
    trim_end(trim_start(s))
}

/// `s` without `prefix` at its start, as often as it stands there.
pub open spec fn strip_all(s: Seq<char>, prefix: Seq<char>) -> Seq<char>
    decreases s.len(),
{
    if prefix.len() > 0 && prefix.is_prefix_of(s) {
        strip_all(s.subrange(prefix.len() as int, s.len() as int), prefix)
    } else {
        s
    }
}

/// Whether no character of `s` is white space.
pub open spec fn is_word(s: Seq<char>) -> bool {
    forall|i: int| 0 <= i < s.len() ==> !is_whitespace(#[trigger] s[i])
}

/// Whether `c` is white space.
pub fn is_space(c: char) -> (space: bool)
    ensures
        space == is_whitespace(c),
{
    let n: u32 = c as u32;
    (0x09 <= n && n <= 0x0D) || n == 0x20 || n == 0x85 || n == 0xA0 || n == 0x1680 || (0x2000 <= n
        && n <= 0x200A) || n == 0x2028 || n == 0x2029 || n == 0x202F || n == 0x205F || n == 0x3000
}

/// White space at the start does not count: trimming may begin behind it.
proof fn trim_start_skips(s: Seq<char>, at: int)
    requires
        0 <= at <= s.len(),
        forall|j: int| 0 <= j < at ==> is_whitespace(#[trigger] s[j]),
    ensures
        trim_start(s) == trim_start(s.subrange(at, s.len() as int)),
    decreases at,
{
    if at == 0 {
        assert(s.subrange(0, s.len() as int) =~= s);
    } else {
        let rest = s.drop_first();
        assert(is_whitespace(s[0]));
        assert forall|j: int| 0 <= j < at - 1 implies is_whitespace(#[trigger] rest[j]) by {
            assert(rest[j] == s[j + 1]);
        }
        trim_start_skips(rest, at - 1);
        assert(rest.subrange(at - 1, rest.len() as int) =~= s.subrange(at, s.len() as int));
    }
}

/// White space at the end does not count: trimming may begin before it.
proof fn trim_end_skips(s: Seq<char>, at: int)
    requires
        0 <= at <= s.len(),
        forall|j: int| at <= j < s.len() ==> is_whitespace(#[trigger] s[j]),
    ensures
        trim_end(s) == trim_end(s.subrange(0, at)),
    decreases s.len() - at,
{
    if at == s.len() {
        assert(s.subrange(0, at) =~= s);
    } else {
        let rest = s.drop_last();
        assert(is_whitespace(s[s.len() - 1]));
        assert forall|j: int| at <= j < rest.len() implies is_whitespace(#[trigger] rest[j]) by {
            assert(rest[j] == s[j]);
        }
        trim_end_skips(rest, at);
        assert(rest.subrange(0, at) =~= s.subrange(0, at));
    }
}

/// The positions between which the trimmed form of the characters from
/// `from` to `to` of `s` stands.
pub(crate) fn trim_bounds(s: &str, from: usize, to: usize) -> (bounds: (usize, usize))
    requires
        from <= to <= s@.len(),
    ensures
        from <= bounds.0 <= bounds.1 <= to,
        s@.subrange(bounds.0 as int, bounds.1 as int) == trim(s@.subrange(from as int, to as int)),
{
    let ghost part = s@.subrange(from as int, to as int);
    let mut lo: usize = from;
    while lo < to && is_space(s.get_char(lo))
        invariant
            from <= lo <= to <= s@.len(),
            forall|j: int| from <= j < lo ==> is_whitespace(#[trigger] s@[j]),
        decreases to - lo,
    {
        lo += 1;
    }
    let ghost tail = s@.subrange(lo as int, to as int);
    proof {
        assert forall|j: int| 0 <= j < lo - from implies is_whitespace(#[trigger] part[j]) by {
            assert(part[j] == s@[from + j]);
        }
        trim_start_skips(part, lo - from);
        assert(part.subrange(lo - from, part.len() as int) =~= tail);
        assert(trim_start(part) == tail);
    }
    let mut hi: usize = to;
    while hi > lo && is_space(s.get_char(hi - 1))
        invariant
            lo <= hi <= to <= s@.len(),
            forall|j: int| hi <= j < to ==> is_whitespace(#[trigger] s@[j]),
        decreases hi - lo,
    {
        hi -= 1;
    }
    proof {
        let core = s@.subrange(lo as int, hi as int);
        assert forall|j: int| hi - lo <= j < tail.len() implies is_whitespace(
            #[trigger] tail[j],
        ) by {
            assert(tail[j] == s@[lo + j]);
        }
        trim_end_skips(tail, hi - lo);
        assert(tail.subrange(0, hi - lo) =~= core);
        if core.len() > 0 {
            assert(core.last() == s@[hi - 1]);
        }
        assert(trim_end(core) == core);
    }
    (lo, hi)
}

/// Whether the characters of `s` from `at` on begin with `prefix`.
pub(crate) fn starts_with_at(s: &str, at: usize, prefix: &str) -> (found: bool)
    requires
        at <= s@.len(),
    ensures
        found == prefix@.is_prefix_of(s@.subrange(at as int, s@.len() as int)),
{
    let len = s.unicode_len();
    let width = prefix.unicode_len();
    let ghost rest = s@.subrange(at as int, len as int);
    if width > len - at {
        return false;
    }
    let mut k: usize = 0;
    while k < width
        invariant
            k <= width == prefix@.len(),
            at + width <= len == s@.len(),
            rest == s@.subrange(at as int, len as int),
            forall|j: int| 0 <= j < k ==> s@[at + j] == #[trigger] prefix@[j],
        decreases width - k,
    {
        if s.get_char(at + k) != prefix.get_char(k) {
            assert(rest.subrange(0, width as int)[k as int] != prefix@[k as int]);
            return false;
        }
        k += 1;
    }
    assert(prefix@ =~= rest.subrange(0, width as int));
    true
}

/// Whether the characters of `s` from `from` to `to` are exactly `word`.
pub(crate) fn range_equals(s: &str, from: usize, to: usize, word: &str) -> (same: bool)
    requires
        from <= to <= s@.len(),
    ensures
        same == (s@.subrange(from as int, to as int) == word@),
{
    let width = word.unicode_len();
    if to - from != width {
        return false;
    }
    let found = starts_with_at(s, from, word);
    proof {
        let rest = s@.subrange(from as int, s@.len() as int);
        assert(rest.subrange(0, width as int) =~= s@.subrange(from as int, to as int));
    }
    found
}

/// Whether none of the characters of `s` from `from` to `to` is white space.
pub(crate) fn is_word_at(s: &str, from: usize, to: usize) -> (word: bool)
    requires
        from <= to <= s@.len(),
    ensures
        word == is_word(s@.subrange(from as int, to as int)),
{
    let ghost part = s@.subrange(from as int, to as int);
    let mut i: usize = from;
    while i < to
        invariant
            from <= i <= to <= s@.len(),
            part == s@.subrange(from as int, to as int),
            forall|j: int| 0 <= j < i - from ==> !is_whitespace(#[trigger] part[j]),
        decreases to - i,
    {
        if is_space(s.get_char(i)) {
            assert(is_whitespace(part[i - from]));
            return false;
        }
        i += 1;
    }
    true
}

/// The position behind every `prefix` that stands at the start of `s`.
pub(crate) fn strip_all_at(s: &str, prefix: &str) -> (at: usize)
    requires
        prefix@.len() > 0,
    ensures
        at <= s@.len(),
        s@.subrange(at as int, s@.len() as int) == strip_all(s@, prefix@),
{
    let len = s.unicode_len();
    let width = prefix.unicode_len();
    let mut at: usize = 0;
    assert(s@.subrange(0, len as int) =~= s@);
    while starts_with_at(s, at, prefix)
        invariant
            at <= len == s@.len(),
            0 < width == prefix@.len(),
            strip_all(s@, prefix@) == strip_all(s@.subrange(at as int, len as int), prefix@),
        decreases len - at,
    {
        assert(s@.subrange(at as int, len as int).subrange(
            width as int,
            len - at,
        ) =~= s@.subrange(at + width, len as int));
        at += width;
    }
    at
}

/// `s` without the white space at its start and at its end.
pub fn trimmed(s: &str) -> (text: String)
    ensures
        text@ == trim(s@),
{
    let len = s.unicode_len();
    assert(s@.subrange(0, len as int) =~= s@);
    let (lo, hi) = trim_bounds(s, 0, len);
    s.substring_char(lo, hi).to_owned()
}

} // verus!
