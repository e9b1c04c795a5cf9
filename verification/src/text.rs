//! Text as sequences of characters: searching, trimming and splitting into
//! lines, stated over `Seq<char>` and carried out on `&str`.

use vstd::prelude::*;
use vstd::utf8::{decode_utf8, is_ascii_chars, valid_utf8};

verus! {

/// Whether `pattern` stands in `text` at position `at`.
pub open spec fn occurs_at(text: Seq<char>, pattern: Seq<char>, at: int) -> bool {
    &&& 0 <= at
    &&& at + pattern.len() <= text.len()
    &&& text.subrange(at, at + pattern.len()) == pattern
}

/// Whether `pattern` stands somewhere in `text`.
pub open spec fn occurs_in(text: Seq<char>, pattern: Seq<char>) -> bool {
    exists|at: int| occurs_at(text, pattern, at)
}

/// Whether `c` is white space: a character with the Unicode property
/// `White_Space`.
pub open spec fn is_space(c: char) -> bool {
    let u = c as u32;
    ||| 0x09 <= u <= 0x0D
    ||| u == 0x20
    ||| u == 0x85
    ||| u == 0xA0
    ||| u == 0x1680
    ||| 0x2000 <= u <= 0x200A
    ||| u == 0x2028
    ||| u == 0x2029
    ||| u == 0x202F
    ||| u == 0x205F
    ||| u == 0x3000
}

/// `s` without the white space it begins with.
pub open spec fn trimmed_start(s: Seq<char>) -> Seq<char>
    decreases s.len(),
{
    if s.len() > 0 && is_space(s[0]) {
        trimmed_start(s.drop_first())
    } else {
        s
    }
}

/// `s` without the white space it ends with.
pub open spec fn trimmed_end(s: Seq<char>) -> Seq<char>
    decreases s.len(),
{
    if s.len() > 0 && is_space(s.last()) {
        trimmed_end(s.drop_last())
    } else {
        s
    }
}

/// `s` without the white space around it.
pub open spec fn trimmed(s: Seq<char>) -> Seq<char> {
    trimmed_end(trimmed_start(s))
}

/// `s` after `pattern` has been taken off its front as often as it stands there.
pub open spec fn without_leading(s: Seq<char>, pattern: Seq<char>) -> Seq<char>
    decreases s.len(),
{
    if pattern.len() > 0 && occurs_at(s, pattern, 0) {
        without_leading(s.skip(pattern.len() as int), pattern)
    } else {
        s
    }
}

/// `s` after `pattern` has been taken off its end as often as it stands there.
pub open spec fn without_trailing(s: Seq<char>, pattern: Seq<char>) -> Seq<char>
    decreases s.len(),
{
    if pattern.len() > 0 && occurs_at(s, pattern, s.len() - pattern.len()) {
        without_trailing(s.take(s.len() - pattern.len()), pattern)
    } else {
        s
    }
}

/// The position of the first line feed in `s`, or the length of `s` where it
/// has none.
pub open spec fn line_end(s: Seq<char>) -> int
    decreases s.len(),
{
    if s.len() == 0 || s[0] == '\n' {
        0
    } else {
        1 + line_end(s.drop_first())
    }
}

/// `line` without a carriage return at its end.
pub open spec fn without_return(line: Seq<char>) -> Seq<char> {
    if line.len() > 0 && line.last() == '\r' {
        line.drop_last()
    } else {
        line
    }
}

/// The lines of `s`. A line ends at a line feed, or at a carriage return
/// directly before one; neither belongs to the line. The last line need not be
/// ended, and an empty rest after the last line feed is no line.
pub open spec fn lines_of(s: Seq<char>) -> Seq<Seq<char>>
    decreases s.len(),
{
    if s.len() == 0 {
        Seq::empty()
    } else {
        let end = line_end(s);
        if 0 <= end < s.len() {
            seq![without_return(s.take(end))] + lines_of(s.skip(end + 1))
        } else {
            seq![s]
        }
    }
}

/// The first line feed lies within the text, is a line feed, and has none
/// before it.
pub proof fn lemma_line_end_bounds(s: Seq<char>)
    ensures
        0 <= line_end(s) <= s.len(),
        forall|j: int| 0 <= j < line_end(s) ==> s[j] != '\n',
        line_end(s) < s.len() ==> s[line_end(s)] == '\n',
    decreases s.len(),
{
    if s.len() == 0 || s[0] == '\n' {
    } else {
        let rest = s.drop_first();
        lemma_line_end_bounds(rest);
        assert forall|j: int| 0 <= j < line_end(s) implies s[j] != '\n' by {
            if j > 0 {
                assert(s[j] == rest[j - 1]);
            }
        }
        if line_end(s) < s.len() {
            assert(s[line_end(s)] == rest[line_end(rest)]);
        }
    }
}

/// The first line feed is where no earlier character is one.
pub proof fn lemma_line_end_is(s: Seq<char>, k: int)
    requires
        0 <= k <= s.len(),
        forall|j: int| 0 <= j < k ==> s[j] != '\n',
        k < s.len() ==> s[k] == '\n',
    ensures
        line_end(s) == k,
{
    lemma_line_end_bounds(s);
    let e = line_end(s);
    if e < k {
        assert(s[e] == '\n');
    } else if k < e {
        assert(s[k] != '\n');
    }
}

/// Trimming the start takes off exactly the white space that stands before
/// the first other character.
pub proof fn lemma_trimmed_start_is(s: Seq<char>, k: int)
    requires
        0 <= k <= s.len(),
        forall|j: int| 0 <= j < k ==> is_space(s[j]),
        k < s.len() ==> !is_space(s[k]),
    ensures
        trimmed_start(s) == s.skip(k),
    decreases k,
{
    if k == 0 {
        assert(s.skip(0) =~= s);
    } else {
        let rest = s.drop_first();
        assert(is_space(s[0]));
        assert forall|j: int| 0 <= j < k - 1 implies is_space(rest[j]) by {
            assert(rest[j] == s[j + 1]);
        }
        lemma_trimmed_start_is(rest, k - 1);
        assert(rest.skip(k - 1) =~= s.skip(k));
    }
}

/// Trimming the end takes off exactly the white space that stands behind the
/// last other character.
pub proof fn lemma_trimmed_end_is(s: Seq<char>, k: int)
    requires
        0 <= k <= s.len(),
        forall|j: int| k <= j < s.len() ==> is_space(s[j]),
        k > 0 ==> !is_space(s[k - 1]),
    ensures
        trimmed_end(s) == s.take(k),
    decreases s.len() - k,
{
    if k == s.len() {
        assert(s.take(k) =~= s);
    } else {
        let rest = s.drop_last();
        assert(is_space(s.last()));
        lemma_trimmed_end_is(rest, k);
        assert(rest.take(k) =~= s.take(k));
    }
}

/// The characters of `s`, one vector element per character.
pub fn chars_of(s: &str) -> (v: Vec<char>)
    ensures
        v@ == s@,
{
    let mut v: Vec<char> = Vec::new();
    for c in it: s.chars()
        invariant
            it.seq() == s@,
            v@ == s@.subrange(0, it.index() as int),
    {
        v.push(c);
        assert(v@ =~= s@.subrange(0, it.index() + 1));
    }
    assert(s@.subrange(0, s@.len() as int) =~= s@);
    v
}

/// Whether `pattern` stands in `text` at position `at`.
pub fn matches_at(text: &Vec<char>, pattern: &Vec<char>, at: usize) -> (found: bool)
    ensures
        found == occurs_at(text@, pattern@, at as int),
{
    let n: usize = text.len();
    let m: usize = pattern.len();
    if at > n || m > n - at {
        return false;
    }
    let mut i: usize = 0;
    while i < m
        invariant
            n == text@.len(),
            m == pattern@.len(),
            at + m <= n,
            i <= m,
            forall|j: int| 0 <= j < i ==> text@[at + j] == pattern@[j],
        decreases m - i,
    {
        if text[at + i] != pattern[i] {
            proof {
                let window = text@.subrange(at as int, at + m);
                assert(window[i as int] == text@[at + i]);
            }
            return false;
        }
        i = i + 1;
    }
    assert(text@.subrange(at as int, at + m) =~= pattern@);
    true
}

/// Whether `pattern` stands somewhere in `text`.
pub fn contains(text: &Vec<char>, pattern: &Vec<char>) -> (found: bool)
    ensures
        found == occurs_in(text@, pattern@),
{
    let n: usize = text.len();
    let m: usize = pattern.len();
    if m > n {
        return false;
    }
    let last: usize = n - m;
    let mut at: usize = 0;
    loop
        invariant
            n == text@.len(),
            m == pattern@.len(),
            last == n - m,
            at <= last,
            forall|k: int| 0 <= k < at ==> !occurs_at(text@, pattern@, k),
        decreases last - at,
    {
        if matches_at(text, pattern, at) {
            return true;
        }
        if at == last {
            return false;
        }
        at = at + 1;
    }
}

/// Whether two texts hold the same characters.
pub fn same_text(a: &str, b: &str) -> (same: bool)
    ensures
        same == (a@ == b@),
{
    let left = chars_of(a);
    let right = chars_of(b);
    if left.len() != right.len() {
        return false;
    }
    let found = matches_at(&left, &right, 0);
    proof {
        assert(left@.subrange(0, left@.len() as int) =~= left@);
    }
    found
}

/// Whether `c` is white space.
pub fn is_whitespace(c: char) -> (space: bool)
    ensures
        space == is_space(c),
{
    let u: u32 = c as u32;
    (0x09 <= u && u <= 0x0D) || u == 0x20 || u == 0x85 || u == 0xA0 || u == 0x1680 || (0x2000 <= u
        && u <= 0x200A) || u == 0x2028 || u == 0x2029 || u == 0x202F || u == 0x205F || u == 0x3000
}

/// `s` without the white space around it.
pub fn trim(s: &str) -> (t: &str)
    ensures
        t@ == trimmed(s@),
{
    let cs = chars_of(s);
    let n: usize = cs.len();
    let mut from: usize = 0;
    while from < n && is_whitespace(cs[from])
        invariant
            n == cs@.len(),
            from <= n,
            forall|j: int| 0 <= j < from ==> is_space(cs@[j]),
        decreases n - from,
    {
        from = from + 1;
    }
    let mut to: usize = n;
    while to > from && is_whitespace(cs[to - 1])
        invariant
            n == cs@.len(),
            from <= to <= n,
            forall|j: int| to <= j < n ==> is_space(cs@[j]),
        decreases to,
    {
        to = to - 1;
    }
    proof {
        lemma_trimmed_start_is(cs@, from as int);
        let rest = cs@.skip(from as int);
        assert forall|j: int| to - from <= j < rest.len() implies is_space(rest[j]) by {
            assert(rest[j] == cs@[from + j]);
        }
        if to > from {
            assert(rest[to - from - 1] == cs@[to - 1]);
        }
        lemma_trimmed_end_is(rest, to - from);
        assert(rest.take(to - from) =~= cs@.subrange(from as int, to as int));
    }
    s.substring_char(from, to)
}

/// `s` after `pattern` has been taken off its front as often as it stands there.
pub fn strip_leading<'a>(s: &'a str, pattern: &str) -> (t: &'a str)
    ensures
        t@ == without_leading(s@, pattern@),
{
    let cs = chars_of(s);
    let pat = chars_of(pattern);
    let n: usize = cs.len();
    let m: usize = pat.len();
    if m == 0 {
        return s;
    }
    let mut from: usize = 0;
    proof {
        assert(cs@.skip(0) =~= cs@);
    }
    while matches_at(&cs, &pat, from)
        invariant
            cs@ == s@,
            pat@ == pattern@,
            n == cs@.len(),
            m == pat@.len(),
            m > 0,
            from <= n,
            without_leading(s@, pattern@) == without_leading(cs@.skip(from as int), pattern@),
        decreases n - from,
    {
        proof {
            let rest = cs@.skip(from as int);
            assert(rest.subrange(0, m as int) =~= cs@.subrange(from as int, from + m));
            assert(occurs_at(rest, pat@, 0));
            assert(rest.skip(m as int) =~= cs@.skip(from + m));
        }
        from = from + m;
    }
    proof {
        let rest = cs@.skip(from as int);
        if from + m <= n {
            assert(rest.subrange(0, m as int) =~= cs@.subrange(from as int, from + m));
        }
        assert(!occurs_at(rest, pat@, 0));
        assert(rest =~= cs@.subrange(from as int, n as int));
    }
    s.substring_char(from, n)
}

/// `s` after `pattern` has been taken off its end as often as it stands there.
pub fn strip_trailing<'a>(s: &'a str, pattern: &str) -> (t: &'a str)
    ensures
        t@ == without_trailing(s@, pattern@),
{
    let cs = chars_of(s);
    let pat = chars_of(pattern);
    let n: usize = cs.len();
    let m: usize = pat.len();
    if m == 0 {
        return s;
    }
    let mut to: usize = n;
    proof {
        assert(cs@.take(n as int) =~= cs@);
    }
    while to >= m && matches_at(&cs, &pat, to - m)
        invariant
            cs@ == s@,
            pat@ == pattern@,
            n == cs@.len(),
            m == pat@.len(),
            m > 0,
            to <= n,
            without_trailing(s@, pattern@) == without_trailing(cs@.take(to as int), pattern@),
        decreases to,
    {
        proof {
            let rest = cs@.take(to as int);
            assert(rest.subrange(to - m, to as int) =~= cs@.subrange(to - m, to as int));
            assert(occurs_at(rest, pat@, rest.len() - m));
            assert(rest.take(rest.len() - m) =~= cs@.take(to - m));
        }
        to = to - m;
    }
    proof {
        let rest = cs@.take(to as int);
        if to >= m {
            assert(rest.subrange(to - m, to as int) =~= cs@.subrange(to - m, to as int));
        }
        assert(!occurs_at(rest, pat@, rest.len() - m));
        assert(rest =~= cs@.subrange(0, to as int));
    }
    s.substring_char(0, to)
}

/// What `String::from_utf8_lossy` makes of a sequence of bytes.
pub uninterp spec fn lossy_text(bytes: Seq<u8>) -> Seq<char>;

/// What `str::to_lowercase` makes of a text.
pub uninterp spec fn lowercase(text: Seq<char>) -> Seq<char>;

/// `String::from_utf8_lossy`: the text that the bytes encode, with a
/// replacement character for each part that is not UTF-8. Bytes that are
/// UTF-8 throughout give exactly the text they encode.
#[verifier::external_body]
pub(crate) fn decode_lossy(bytes: &[u8]) -> (text: String)
    ensures
        text@ == lossy_text(bytes@),
        valid_utf8(bytes@) ==> text@ == decode_utf8(bytes@),
{
    String::from_utf8_lossy(bytes).into_owned()
}

/// An ASCII capital as its small letter, and any other character as itself.
pub open spec fn ascii_lower(c: char) -> char {
    if 'A' <= c <= 'Z' {
        ((c as u32) + 32) as char
    } else {
        c
    }
}

/// A text with each ASCII capital as its small letter.
pub open spec fn ascii_lowered(text: Seq<char>) -> Seq<char> {
    Seq::new(text.len(), |i: int| ascii_lower(text[i]))
}

/// `str::to_lowercase`: the text in lower case, by the Unicode rules. Of a
/// text that is ASCII throughout, the capitals become small letters and
/// nothing else changes.
#[verifier::external_body]
pub(crate) fn to_lowercase(text: &str) -> (lower: String)
    ensures
        lower@ == lowercase(text@),
        is_ascii_chars(text@) ==> lower@ == ascii_lowered(text@),
{
    text.to_lowercase()
}

} // verus!
