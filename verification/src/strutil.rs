//! Verified string utilities: splitting, trimming, prefix and substring
//! tests, each with a spec-level model.
//!
//! Splitting is modelled by `spec_split`, defined through the index of the
//! first separator; the line model `spec_lines` additionally drops a final
//! empty fragment and a trailing carriage return per line, which is how text
//! files with either line ending convention are read.

use vstd::prelude::*;
use vstd::string::*;

verus! {

/// The index of the first occurrence of `c` in `s`, if any.
pub open spec fn spec_find(s: Seq<char>, c: char) -> Option<int>
    decreases s.len(),
{
    if s.len() == 0 {
        None
    } else if s[0] == c {
        Some(0int)
    } else {
        match spec_find(s.subrange(1, s.len() as int), c) {
            Some(i) => Some(i + 1),
            None => None,
        }
    }
}

/// What `spec_find` returns: an in-range index of `c` such that nothing
/// before it is `c`, or nothing when `c` does not occur at all.
pub proof fn lemma_find_characterization(s: Seq<char>, c: char)
    ensures
        match spec_find(s, c) {
            Some(i) => 0 <= i < s.len() && s[i] == c && forall|j: int| 0 <= j < i ==> s[j] != c,
            None => forall|j: int| 0 <= j < s.len() ==> s[j] != c,
        },
    decreases s.len(),
{
    if s.len() == 0 {
    } else if s[0] == c {
    } else {
        let tail = s.subrange(1, s.len() as int);
        lemma_find_characterization(tail, c);
        match spec_find(tail, c) {
            Some(i) => {
                assert(s[i + 1] == tail[i]);
                assert(forall|j: int| 1 <= j < i + 1 ==> s[j] == tail[j - 1]);
            },
            None => {
                assert(forall|j: int| 1 <= j < s.len() ==> s[j] == tail[j - 1]);
            },
        }
    }
}

/// `spec_find` is determined by where `c` first occurs: a scan that saw no
/// `c` before an occurrence at `i` has found the first one.
pub proof fn lemma_find_at(s: Seq<char>, c: char, i: int)
    requires
        0 <= i < s.len(),
        s[i] == c,
        forall|j: int| 0 <= j < i ==> s[j] != c,
    ensures
        spec_find(s, c) == Some(i),
{
    lemma_find_characterization(s, c);
    match spec_find(s, c) {
        Some(k) => {
            if k < i {
                assert(s[k] != c);
            }
            if k > i {
                assert(s[i] != c);
            }
        },
        None => {
            assert(s[i] != c);
        },
    }
}

/// Splitting `s` at every occurrence of `sep`: the fragments between the
/// separators, in order, separators dropped. An empty input gives one empty
/// fragment; the result never is empty.
pub open spec fn spec_split(s: Seq<char>, sep: char) -> Seq<Seq<char>>
    decreases s.len(),
        via spec_split_decreases

{
    match spec_find(s, sep) {
        Some(i) => seq![s.subrange(0, i)] + spec_split(
            s.subrange(i + 1, s.len() as int),
            sep,
        ),
        None => seq![s],
    }
}

#[via_fn]
proof fn spec_split_decreases(s: Seq<char>, sep: char) {
    lemma_find_characterization(s, sep);
}

/// A split has at least one fragment.
pub proof fn lemma_split_nonempty(s: Seq<char>, sep: char)
    ensures
        spec_split(s, sep).len() >= 1,
    decreases s.len(),
{
    lemma_find_characterization(s, sep);
    match spec_find(s, sep) {
        Some(i) => {},
        None => {},
    }
}

/// Finds the first occurrence of `sep` in `s`.
pub fn find_char(s: &str, sep: char) -> (r: Option<usize>)
    ensures
        match r {
            Some(i) => spec_find(s@, sep) == Some(i as int),
            None => spec_find(s@, sep) is None,
        },
{
    let n = s.unicode_len();
    let mut i: usize = 0;
    while i < n
        invariant
            0 <= i <= n,
            n == s@.len(),
            forall|j: int| 0 <= j < i ==> s@[j] != sep,
        decreases n - i,
    {
        if s.get_char(i) == sep {
            proof {
                lemma_find_at(s@, sep, i as int);
            }
            return Some(i);
        }
        i = i + 1;
    }
    proof {
        lemma_find_characterization(s@, sep);
        if spec_find(s@, sep) is Some {
            let k = spec_find(s@, sep)->0;
            assert(s@[k] != sep);
        }
    }
    None
}

/// Splits `s` at every occurrence of `sep`.
pub fn split_str(s: &str, sep: char) -> (parts: Vec<String>)
    ensures
        parts.deep_view() == spec_split(s@, sep),
    decreases s@.len(),
{
    proof {
        lemma_find_characterization(s@, sep);
    }
    match find_char(s, sep) {
        Some(i) => {
            let n = s.unicode_len();
            let head = s.substring_char(0, i).to_owned();
            let tail = s.substring_char(i + 1, n);
            let mut parts = split_str(tail, sep);
            parts.insert(0, head);
            proof {
                assert(parts.deep_view() =~~= spec_split(s@, sep));
            }
            parts
        },
        None => {
            let mut parts: Vec<String> = Vec::new();
            parts.push(s.to_owned());
            proof {
                assert(parts.deep_view() =~~= spec_split(s@, sep));
            }
            parts
        },
    }
}

/// A whitespace character, for trimming.
pub open spec fn spec_is_space(c: char) -> bool {
    c == ' ' || c == '\t' || c == '\r' || c == '\n'
}

/// Returns whether `c` is a whitespace character.
pub fn is_space(c: char) -> (r: bool)
    ensures
        r == spec_is_space(c),
{
    c == ' ' || c == '\t' || c == '\r' || c == '\n'
}

/// `s` without its leading whitespace.
pub open spec fn spec_trim_start(s: Seq<char>) -> Seq<char>
    decreases s.len(),
{
    if s.len() == 0 {
        s
    } else if spec_is_space(s[0]) {
        spec_trim_start(s.subrange(1, s.len() as int))
    } else {
        s
    }
}

/// `s` without its trailing whitespace.
pub open spec fn spec_trim_end(s: Seq<char>) -> Seq<char>
    decreases s.len(),
{
    if s.len() == 0 {
        s
    } else if spec_is_space(s[s.len() - 1]) {
        spec_trim_end(s.subrange(0, s.len() - 1))
    } else {
        s
    }
}

/// `s` without leading and trailing whitespace.
pub open spec fn spec_trim(s: Seq<char>) -> Seq<char> {
    spec_trim_end(spec_trim_start(s))
}

/// Dropping a whitespace prefix is what `spec_trim_start` does: skipping
/// exactly the leading whitespace leaves the rest.
proof fn lemma_trim_start_at(s: Seq<char>, a: int)
    requires
        0 <= a <= s.len(),
        forall|j: int| 0 <= j < a ==> spec_is_space(s[j]),
        a < s.len() ==> !spec_is_space(s[a]),
    ensures
        spec_trim_start(s) =~= s.subrange(a, s.len() as int),
    decreases a,
{
    if a == 0 {
        if s.len() == 0 {
        } else {
            assert(!spec_is_space(s[0]));
        }
    } else {
        let tail = s.subrange(1, s.len() as int);
        assert(spec_is_space(s[0]));
        assert(forall|j: int| 0 <= j < a - 1 ==> tail[j] == s[j + 1]);
        lemma_trim_start_at(tail, a - 1);
        assert(tail.subrange(a - 1, tail.len() as int) =~= s.subrange(a, s.len() as int));
    }
}

/// Dropping a whitespace suffix is what `spec_trim_end` does.
proof fn lemma_trim_end_at(s: Seq<char>, b: int)
    requires
        0 <= b <= s.len(),
        forall|j: int| b <= j < s.len() ==> spec_is_space(s[j]),
        b > 0 ==> !spec_is_space(s[b - 1]),
    ensures
        spec_trim_end(s) =~= s.subrange(0, b),
    decreases s.len(),
{
    if b == s.len() {
        if s.len() == 0 {
        } else {
            assert(!spec_is_space(s[s.len() - 1]));
        }
    } else {
        let front = s.subrange(0, s.len() - 1);
        assert(spec_is_space(s[s.len() - 1]));
        assert(forall|j: int| b <= j < front.len() ==> front[j] == s[j]);
        lemma_trim_end_at(front, b);
        assert(front.subrange(0, b) =~= s.subrange(0, b));
    }
}

/// Trims leading and trailing whitespace from `s`.
pub fn trim_str(s: &str) -> (r: String)
    ensures
        r@ == spec_trim(s@),
{
    let n = s.unicode_len();
    let mut a: usize = 0;
    while a < n && is_space(s.get_char(a))
        invariant
            0 <= a <= n,
            n == s@.len(),
            forall|j: int| 0 <= j < a ==> spec_is_space(s@[j]),
        decreases n - a,
    {
        a = a + 1;
    }
    proof {
        lemma_trim_start_at(s@, a as int);
    }
    let ghost mid = s@.subrange(a as int, s@.len() as int);
    let mut b: usize = n;
    while b > a && is_space(s.get_char(b - 1))
        invariant
            a <= b <= n,
            n == s@.len(),
            forall|j: int| b <= j < n ==> spec_is_space(s@[j]),
        decreases b,
    {
        b = b - 1;
    }
    proof {
        assert(forall|j: int| b - a <= j < mid.len() ==> mid[j] == s@[j + a]
            && spec_is_space(mid[j]));
        if b > a {
            assert(mid[b - a - 1] == s@[b - 1]);
        }
        lemma_trim_end_at(mid, b - a);
        assert(mid.subrange(0, b - a) =~= s@.subrange(a as int, b as int));
    }
    s.substring_char(a, b).to_owned()
}

/// Whether `p` is a prefix of `s`.
pub open spec fn spec_starts_with(s: Seq<char>, p: Seq<char>) -> bool {
    p.len() <= s.len() && s.subrange(0, p.len() as int) == p
}

/// Returns whether `prefix` is a prefix of `s`.
pub fn starts_with_str(s: &str, prefix: &str) -> (r: bool)
    ensures
        r == spec_starts_with(s@, prefix@),
{
    let n = s.unicode_len();
    let m = prefix.unicode_len();
    if m > n {
        return false;
    }
    let mut i: usize = 0;
    while i < m
        invariant
            0 <= i <= m <= n,
            n == s@.len(),
            m == prefix@.len(),
            forall|j: int| 0 <= j < i ==> s@[j] == prefix@[j],
        decreases m - i,
    {
        if s.get_char(i) != prefix.get_char(i) {
            proof {
                assert(s@.subrange(0, m as int)[i as int] != prefix@[i as int]);
            }
            return false;
        }
        i = i + 1;
    }
    proof {
        assert(s@.subrange(0, m as int) =~= prefix@);
    }
    true
}

/// Whether `p` occurs in `s` as a contiguous run.
pub open spec fn spec_contains_seq(s: Seq<char>, p: Seq<char>) -> bool {
    exists|k: int|
        0 <= k <= s.len() - p.len() && #[trigger] s.subrange(k, k + p.len() as int) == p
}

/// Returns whether `needle` occurs in `s` as a contiguous run.
pub fn contains_str(s: &str, needle: &str) -> (r: bool)
    ensures
        r == spec_contains_seq(s@, needle@),
{
    let n = s.unicode_len();
    let m = needle.unicode_len();
    if m > n {
        return false;
    }
    if m == 0 {
        proof {
            let k: int = 0;
            assert(s@.subrange(k, k + needle@.len() as int) =~= needle@);
            assert(spec_contains_seq(s@, needle@));
        }
        return true;
    }
    let mut k: usize = 0;
    while k <= n - m
        invariant
            0 <= k <= n - m + 1,
            0 < m <= n,
            n == s@.len(),
            m == needle@.len(),
            forall|k2: int|
                0 <= k2 < k ==> #[trigger] s@.subrange(k2, k2 + needle@.len() as int)
                    != needle@,
        decreases n - m - k + 1,
    {
        let mut i: usize = 0;
        let mut matched = true;
        while i < m
            invariant
                0 <= i <= m,
                k + m <= n,
                n == s@.len(),
                m == needle@.len(),
                matched ==> forall|j: int| 0 <= j < i ==> s@[k + j] == needle@[j],
                !matched ==> s@.subrange(k as int, k + needle@.len() as int) != needle@,
            decreases m - i,
        {
            if s.get_char(k + i) != needle.get_char(i) {
                proof {
                    assert(s@.subrange(k as int, k + needle@.len() as int)[i as int] != needle@[
                        i as int
                    ]);
                }
                matched = false;
                i = m;
            } else {
                i = i + 1;
            }
        }
        if matched {
            proof {
                assert(s@.subrange(k as int, k + needle@.len() as int) =~= needle@);
            }
            return true;
        }
        k = k + 1;
    }
    proof {
        assert(forall|k2: int|
            0 <= k2 <= s@.len() - needle@.len() ==> #[trigger] s@.subrange(
                k2,
                k2 + needle@.len() as int,
            ) != needle@);
    }
    false
}

/// A line as read from a text file: a final carriage return, if any, is not
/// part of it.
pub open spec fn spec_strip_cr(line: Seq<char>) -> Seq<char> {
    if line.len() > 0 && line[line.len() - 1] == '\r' {
        line.subrange(0, line.len() - 1)
    } else {
        line
    }
}

/// The lines of a text, in order: the fragments between newlines, with a
/// final empty fragment dropped (a trailing newline ends the last line, it
/// does not open a new one) and a trailing carriage return removed from each
/// line.
pub open spec fn spec_lines(s: Seq<char>) -> Seq<Seq<char>> {
    let parts = spec_split(s, '\n');
    let kept = if parts.last() == Seq::<char>::empty() {
        parts.drop_last()
    } else {
        parts
    };
    kept.map_values(|line: Seq<char>| spec_strip_cr(line))
}

/// Removes a final carriage return from `line`.
fn strip_cr(line: &String) -> (r: String)
    ensures
        r@ == spec_strip_cr(line@),
{
    let n = line.as_str().unicode_len();
    if n > 0 && line.as_str().get_char(n - 1) == '\r' {
        line.as_str().substring_char(0, n - 1).to_owned()
    } else {
        line.clone()
    }
}

/// Splits `s` into its lines.
pub fn lines_of(s: &str) -> (lines: Vec<String>)
    ensures
        lines.deep_view() == spec_lines(s@),
{
    let mut parts = split_str(s, '\n');
    proof {
        lemma_split_nonempty(s@, '\n');
    }
    let last_empty = parts[parts.len() - 1].as_str().is_empty();
    if last_empty {
        parts.pop();
    }
    let ghost kept = parts.deep_view();
    proof {
        if last_empty {
            assert(spec_split(s@, '\n').last() =~= Seq::<char>::empty());
            assert(kept =~~= spec_split(s@, '\n').drop_last());
        } else {
            assert(!(spec_split(s@, '\n').last() == Seq::<char>::empty()));
        }
    }
    let mut lines: Vec<String> = Vec::new();
    let mut i: usize = 0;
    while i < parts.len()
        invariant
            0 <= i <= parts.len(),
            parts.deep_view() == kept,
            lines@.len() == i,
            forall|j: int| 0 <= j < i ==> #[trigger] lines.deep_view()[j] == spec_strip_cr(
                kept[j],
            ),
        decreases parts.len() - i,
    {
        let ghost prev = lines@;
        let ghost prev_deep = lines.deep_view();
        lines.push(strip_cr(&parts[i]));
        proof {
            assert forall|j: int| 0 <= j < i + 1 implies #[trigger] lines.deep_view()[j]
                == spec_strip_cr(kept[j]) by {
                assert(lines.deep_view()[j] == lines@[j].deep_view());
                if j < i {
                    assert(prev_deep[j] == prev[j].deep_view());
                    assert(prev_deep[j] == spec_strip_cr(kept[j]));
                    assert(lines@[j] == prev[j]);
                } else {
                    assert(kept[j] == parts@[j].deep_view());
                    assert(lines@[j]@ == spec_strip_cr(parts@[j]@));
                    assert(lines@[j].deep_view() == lines@[j]@);
                }
            }
        }
        i = i + 1;
    }
    proof {
        assert(lines.deep_view() =~~= spec_lines(s@));
    }
    lines
}

} // verus!
