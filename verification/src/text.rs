//! Character-level string operations, stated over `Seq<char>`.

use vstd::prelude::*;
use vstd::string::*;

verus! {

/// `needle` occurs in `hay` starting at position `i`.
pub open spec fn occurs_at(hay: Seq<char>, needle: Seq<char>, i: int) -> bool {
    &&& 0 <= i
    &&& i + needle.len() <= hay.len()
    &&& hay.subrange(i, i + needle.len()) == needle
}

/// `needle` occurs somewhere in `hay`. The empty sequence occurs in every sequence.
pub open spec fn contains_seq(hay: Seq<char>, needle: Seq<char>) -> bool {
    exists|i: int| occurs_at(hay, needle, i)
}

/// `s` begins with `prefix`.
pub open spec fn starts_with_seq(s: Seq<char>, prefix: Seq<char>) -> bool {
    prefix.len() <= s.len() && s.subrange(0, prefix.len() as int) == prefix
}

/// `s` ends with `suffix`.
pub open spec fn ends_with_seq(s: Seq<char>, suffix: Seq<char>) -> bool {
    suffix.len() <= s.len() && s.subrange(s.len() - suffix.len(), s.len() as int) == suffix
}

/// Position just after the last `sep` in `s`, or 0 if `s` holds no `sep`.
pub open spec fn after_last(s: Seq<char>, sep: char) -> int
    decreases s.len(),
{
    if s.len() == 0 {
        0
    } else if s.last() == sep {
        s.len() as int
    } else {
        after_last(s.drop_last(), sep)
    }
}

/// The last of the segments that `sep` divides `s` into: what follows the
/// last `sep`, or all of `s` where it holds none.
pub open spec fn last_segment(s: Seq<char>, sep: char) -> Seq<char> {
    s.subrange(after_last(s, sep), s.len() as int)
}

/// A position that is 0 or preceded by `sep`, with no `sep` after it, is
/// `after_last`.
pub proof fn lemma_after_last_unique(s: Seq<char>, sep: char, p: int)
    requires
        0 <= p <= s.len(),
        p > 0 ==> s[p - 1] == sep,
        forall|k: int| p <= k < s.len() ==> s[k] != sep,
    ensures
        after_last(s, sep) == p,
    decreases s.len(),
{
    if s.len() > 0 && s.last() != sep {
        lemma_after_last_unique(s.drop_last(), sep, p);
    }
}

/// The characters of `s`, in order.
pub fn chars_of(s: &str) -> (v: Vec<char>)
    ensures
        v@ == s@,
{
    broadcast use vstd::string::group_string_axioms;

    let mut v: Vec<char> = Vec::new();
    for c in it: s.chars()
        invariant
            v@ == it.seq().take(it.index() as int),
            it.seq() == s@,
    {
        v.push(c);
    }
    v
}

/// Whether `needle` occurs in `hay` at position `i`.
pub fn occurs_at_chars(hay: &Vec<char>, needle: &Vec<char>, i: usize) -> (b: bool)
    requires
        i + needle@.len() <= hay@.len(),
    ensures
        b == occurs_at(hay@, needle@, i as int),
{
    let n = needle.len();
    let h = hay.len();
    let mut j: usize = 0;
    while j < n
        invariant
            n == needle@.len(),
            h == hay@.len(),
            j <= n,
            i + n <= h,
            forall|k: int| 0 <= k < j ==> hay@[i + k] == needle@[k],
        decreases n - j,
    {
        if hay[i + j] != needle[j] {
            assert(hay@.subrange(i as int, i + n)[j as int] == hay@[i + j]);
            return false;
        }
        j += 1;
    }
    assert(hay@.subrange(i as int, i + n) =~= needle@);
    true
}

/// Whether `needle` occurs anywhere in `hay`.
pub fn contains_chars(hay: &Vec<char>, needle: &Vec<char>) -> (b: bool)
    ensures
        b == contains_seq(hay@, needle@),
{
    let h = hay.len();
    let n = needle.len();
    if n > h {
        return false;
    }
    let last: usize = h - n;
    let mut i: usize = 0;
    loop
        invariant
            h == hay@.len(),
            n == needle@.len(),
            last == h - n,
            i <= last,
            forall|k: int| 0 <= k < i ==> !occurs_at(hay@, needle@, k),
        decreases last - i,
    {
        if occurs_at_chars(hay, needle, i) {
            return true;
        }
        if i == last {
            return false;
        }
        i += 1;
    }
}

/// Whether `needle` occurs anywhere in `hay`, as consecutive characters.
pub fn contains(hay: &str, needle: &str) -> (b: bool)
    ensures
        b == contains_seq(hay@, needle@),
{
    let h = chars_of(hay);
    let n = chars_of(needle);
    contains_chars(&h, &n)
}

/// Whether `s` ends with `suffix`.
pub fn ends_with(s: &str, suffix: &str) -> (b: bool)
    ensures
        b == ends_with_seq(s@, suffix@),
{
    let h = chars_of(s);
    let n = chars_of(suffix);
    if n.len() > h.len() {
        return false;
    }
    occurs_at_chars(&h, &n, h.len() - n.len())
}

/// Whether `s` begins with `prefix`.
pub fn starts_with(s: &str, prefix: &str) -> (b: bool)
    ensures
        b == starts_with_seq(s@, prefix@),
{
    let h = chars_of(s);
    let n = chars_of(prefix);
    if n.len() > h.len() {
        return false;
    }
    occurs_at_chars(&h, &n, 0)
}

/// Whether two strings hold the same characters.
pub fn same_text(a: &str, b: &str) -> (same: bool)
    ensures
        same == (a@ == b@),
{
    let x = chars_of(a);
    let y = chars_of(b);
    if x.len() != y.len() {
        return false;
    }
    let same = occurs_at_chars(&x, &y, 0);
    assert(x@.subrange(0, x@.len() as int) =~= x@);
    same
}

/// The part of `s` after its last `sep`; all of `s` where it holds none.
pub fn last_segment_of(s: &str, sep: char) -> (leaf: String)
    ensures
        leaf@ == last_segment(s@, sep),
{
    let v = chars_of(s);
    let n = v.len();
    let mut p: usize = n;
    while p > 0 && v[p - 1] != sep
        invariant
            n == v@.len(),
            p <= n,
            forall|k: int| p <= k < n ==> v@[k] != sep,
        decreases p,
    {
        p -= 1;
    }
    proof {
        lemma_after_last_unique(v@, sep, p as int);
    }
    String::from_str(s.substring_char(p, n))
}

/// `c` is white space: a character with the Unicode property `White_Space`.
pub open spec fn is_space(c: char) -> bool {
    let n = c as u32;
    (0x09 <= n <= 0x0d) || n == 0x20 || n == 0x85 || n == 0xa0 || n == 0x1680 || (0x2000 <= n
        <= 0x200a) || n == 0x2028 || n == 0x2029 || n == 0x202f || n == 0x205f || n == 0x3000
}

/// `s` without the white space at its beginning and at its end.
pub open spec fn trimmed(s: Seq<char>) -> Seq<char>
    decreases s.len(),
{
    if s.len() == 0 {
        s
    } else if is_space(s[0]) {
        trimmed(s.drop_first())
    } else if is_space(s.last()) {
        trimmed(s.drop_last())
    } else {
        s
    }
}

/// The lines of `s`, each without the white space at its beginning and at
/// its end, but for the lines that hold nothing else. A line ends at `\n`
/// or at the end of `s`.
pub open spec fn trimmed_lines(s: Seq<char>) -> Seq<Seq<char>>
    decreases s.len(),
{
    let start = after_last(s, '\n');
    let line = trimmed(s.subrange(start, s.len() as int));
    let before = if start <= 0 || start > s.len() {
        Seq::empty()
    } else {
        trimmed_lines(s.subrange(0, start - 1))
    };
    if line.len() > 0 {
        before.push(line)
    } else {
        before
    }
}

/// Whether `c` is white space.
pub fn is_white_space(c: char) -> (b: bool)
    ensures
        b == is_space(c),
{
    let n: u32 = c as u32;
    (0x09 <= n && n <= 0x0d) || n == 0x20 || n == 0x85 || n == 0xa0 || n == 0x1680 || (0x2000 <= n
        && n <= 0x200a) || n == 0x2028 || n == 0x2029 || n == 0x202f || n == 0x205f || n == 0x3000
}

/// The bounds of what trimming leaves of the characters of `v` from `from`
/// up to `to`.
fn trim_bounds(v: &Vec<char>, from: usize, to: usize) -> (bounds: (usize, usize))
    requires
        from <= to <= v@.len(),
    ensures
        from <= bounds.0 <= bounds.1 <= to,
        v@.subrange(bounds.0 as int, bounds.1 as int) == trimmed(v@.subrange(from as int, to as int)),
{
    let mut a: usize = from;
    while a < to && is_white_space(v[a])
        invariant
            from <= a <= to <= v@.len(),
            trimmed(v@.subrange(a as int, to as int)) == trimmed(
                v@.subrange(from as int, to as int),
            ),
        decreases to - a,
    {
        assert(v@.subrange(a as int, to as int).drop_first() =~= v@.subrange(a + 1, to as int));
        a += 1;
    }
    let mut b: usize = to;
    while b > a && is_white_space(v[b - 1])
        invariant
            from <= a <= b <= to <= v@.len(),
            a < to ==> !is_space(v@[a as int]),
            trimmed(v@.subrange(a as int, b as int)) == trimmed(
                v@.subrange(from as int, to as int),
            ),
        decreases b - a,
    {
        assert(v@.subrange(a as int, b as int).drop_last() =~= v@.subrange(a as int, b - 1));
        b -= 1;
    }
    (a, b)
}

/// The lines of `s`, each without the white space at its beginning and at
/// its end, but for the lines that hold nothing else.
pub fn trimmed_lines_of(s: &str) -> (lines: Vec<String>)
    ensures
        lines@.len() == trimmed_lines(s@).len(),
        forall|i: int| 0 <= i < lines@.len() ==> (#[trigger] lines@[i])@ == trimmed_lines(s@)[i],
{
    let v = chars_of(s);
    let mut found: Vec<String> = Vec::new();
    let mut end: usize = v.len();
    let mut done = false;
    assert(v@.subrange(0, end as int) =~= v@);
    assert(trimmed_lines(v@) + Seq::<Seq<char>>::empty() =~= trimmed_lines(v@));
    while !done
        invariant
            v@ == s@,
            end <= v@.len(),
            done ==> end == 0,
            ({
                let rest = if done {
                    Seq::<Seq<char>>::empty()
                } else {
                    trimmed_lines(v@.subrange(0, end as int))
                };
                trimmed_lines(v@) == rest + Seq::new(
                    found@.len(),
                    |i: int| found@[found@.len() - 1 - i]@,
                )
            }),
        decreases end + (if done { 0int } else { 1int }),
    {
        let ghost head = v@.subrange(0, end as int);
        let ghost gathered = Seq::new(found@.len(), |i: int| found@[found@.len() - 1 - i]@);
        let mut start: usize = end;
        while start > 0 && v[start - 1] != '\n'
            invariant
                start <= end <= v@.len(),
                forall|k: int| start <= k < end ==> v@[k] != '\n',
            decreases start,
        {
            start -= 1;
        }
        proof {
            assert forall|k: int| start <= k < head.len() implies head[k] != '\n' by {
                assert(head[k] == v@[k]);
            }
            lemma_after_last_unique(head, '\n', start as int);
            assert(head.subrange(start as int, end as int) =~= v@.subrange(start as int, end as int));
        }
        let (a, b) = trim_bounds(&v, start, end);
        if a < b {
            found.push(String::from_str(s.substring_char(a, b)));
        }
        proof {
            let line = trimmed(head.subrange(start as int, end as int));
            let now = Seq::new(found@.len(), |i: int| found@[found@.len() - 1 - i]@);
            if a < b {
                assert(now =~= seq![line] + gathered);
            } else {
                assert(now =~= gathered);
            }
            if start > 0 {
                assert(head.subrange(0, start - 1) =~= v@.subrange(0, start - 1));
                let before = trimmed_lines(v@.subrange(0, start - 1));
                if a < b {
                    assert(before.push(line) + gathered =~= before + (seq![line] + gathered));
                }
            } else {
                let before = Seq::<Seq<char>>::empty();
                if a < b {
                    assert(before.push(line) + gathered =~= before + (seq![line] + gathered));
                }
            }
        }
        if start == 0 {
            done = true;
            end = 0;
        } else {
            end = start - 1;
        }
    }
    let ghost gathered = Seq::new(found@.len(), |i: int| found@[found@.len() - 1 - i]@);
    assert(trimmed_lines(v@) =~= gathered);
    let mut lines: Vec<String> = Vec::new();
    while found.len() > 0
        invariant
            lines@.len() + found@.len() == gathered.len(),
            forall|i: int| 0 <= i < lines@.len() ==> (#[trigger] lines@[i])@ == gathered[i],
            forall|i: int|
                0 <= i < found@.len() ==> (#[trigger] found@[i])@ == gathered[gathered.len() - 1
                    - i],
        decreases found@.len(),
    {
        let line = found.pop().unwrap();
        lines.push(line);
    }
    lines
}

/// No two of the pairs have the same key: the pairs are what a map from
/// texts holds.
pub open spec fn distinct_keys<V>(pairs: Seq<(String, V)>) -> bool {
    forall|i: int, j: int|
        0 <= i < j < pairs.len() ==> (#[trigger] pairs[i]).0@ != (#[trigger] pairs[j]).0@
}

/// Whether no two of the pairs have the same key.
pub fn has_distinct_keys<V>(pairs: &Vec<(String, V)>) -> (b: bool)
    ensures
        b == distinct_keys(pairs@),
{
    let n = pairs.len();
    let mut j: usize = 0;
    while j < n
        invariant
            j <= n,
            n == pairs@.len(),
            forall|a: int, b: int|
                0 <= a < b < j ==> (#[trigger] pairs@[a]).0@ != (#[trigger] pairs@[b]).0@,
        decreases n - j,
    {
        let mut i: usize = 0;
        while i < j
            invariant
                i <= j < n,
                n == pairs@.len(),
                forall|a: int| 0 <= a < i ==> (#[trigger] pairs@[a]).0@ != pairs@[j as int].0@,
            decreases j - i,
        {
            if same_text(pairs[i].0.as_str(), pairs[j].0.as_str()) {
                assert(pairs@[i as int].0@ == pairs@[j as int].0@);
                return false;
            }
            i += 1;
        }
        j += 1;
    }
    true
}

/// `a` followed by `b`.
pub fn joined(a: &str, b: &str) -> (joined: String)
    ensures
        joined@ == a@ + b@,
{
    String::from_str(a).concat(b)
}

} // verus!
